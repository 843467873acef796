//! The depth models: what is known of them and where they are kept.

use vstd::prelude::*;
use vstd::string::StringExecFns;
use crate::paths::{join, path_join};
use crate::spatial_maker::error::{SpatialError, SpatialErrorKind, SpatialResult};
use crate::text::{str_eq, texts};

verus! {

/// What is known of a model: its name, the file it is kept in, where it can
/// be had, and its size in megabytes.
#[derive(Clone, Debug)]
pub struct ModelMetadata {
    pub name: String,
    pub filename: String,
    pub url: String,
    pub size_mb: u32,
}

/// The three sizes of model.
#[derive(Clone, Copy, Debug, PartialEq, Eq, Structural)]
pub enum EncoderSize {
    Small,
    Base,
    Large,
}

/// The size that an encoder name stands for.
pub open spec fn encoder_size(name: Seq<char>) -> Option<EncoderSize> {
    if name == "s"@ || name == "small"@ {
        Some(EncoderSize::Small)
    } else if name == "b"@ || name == "base"@ {
        Some(EncoderSize::Base)
    } else if name == "l"@ || name == "large"@ {
        Some(EncoderSize::Large)
    } else {
        None
    }
}

/// The word for a size in the names of models and files.
pub open spec fn size_word(size: EncoderSize) -> Seq<char> {
    match size {
        EncoderSize::Small => "small"@,
        EncoderSize::Base => "base"@,
        EncoderSize::Large => "large"@,
    }
}

/// The size of a model in megabytes.
pub open spec fn size_megabytes(size: EncoderSize) -> u32 {
    match size {
        EncoderSize::Small => 99,
        EncoderSize::Base => 380,
        EncoderSize::Large => 1300,
    }
}

/// The name of the file that holds the model of a size.
pub open spec fn model_filename(size: EncoderSize) -> Seq<char> {
    "depth_anything_v2_"@ + size_word(size) + ".onnx"@
}

/// The detail of the error for an unknown encoder name.
pub open spec fn unknown_encoder_text(name: Seq<char>) -> Seq<char> {
    "Unknown encoder size: '"@ + name + "'. Use 's', 'b', or 'l'"@
}

impl ModelMetadata {
    /// Whether this is what is known of the model of size `size`.
    pub open spec fn describes(&self, size: EncoderSize) -> bool {
        &&& self.name@ == "depth-anything-v2-"@ + size_word(size)
        &&& self.filename@ == model_filename(size)
        &&& self.url@ == "https://huggingface.co/onnx-community/depth-anything-v2-"@ + size_word(
            size,
        ) + "/resolve/main/onnx/model.onnx"@
        &&& self.size_mb == size_megabytes(size)
    }

    fn of_size(word: &str, size_mb: u32) -> (meta: Self)
        ensures
            meta.name@ == "depth-anything-v2-"@ + word@,
            meta.filename@ == "depth_anything_v2_"@ + word@ + ".onnx"@,
            meta.url@ == "https://huggingface.co/onnx-community/depth-anything-v2-"@ + word@
                + "/resolve/main/onnx/model.onnx"@,
            meta.size_mb == size_mb,
    {
        ModelMetadata {
            name: String::from_str("depth-anything-v2-").concat(word),
            filename: String::from_str("depth_anything_v2_").concat(word).concat(".onnx"),
            url: String::from_str("https://huggingface.co/onnx-community/depth-anything-v2-").concat(
                word,
            ).concat("/resolve/main/onnx/model.onnx"),
            size_mb,
        }
    }

    /// What is known of the model for an encoder name; an unknown name is a
    /// configuration error.
    pub fn for_encoder(encoder_size: &str) -> (result: SpatialResult<Self>)
        ensures
            match self::encoder_size(encoder_size@) {
                Some(size) => (result matches Ok(meta) && meta.describes(size)),
                None => (result matches Err(e) && e@ == (
                    SpatialErrorKind::Config,
                    unknown_encoder_text(encoder_size@),
                )),
            },
    {
        if str_eq(encoder_size, "s") || str_eq(encoder_size, "small") {
            Ok(Self::of_size("small", 99))
        } else if str_eq(encoder_size, "b") || str_eq(encoder_size, "base") {
            Ok(Self::of_size("base", 380))
        } else if str_eq(encoder_size, "l") || str_eq(encoder_size, "large") {
            Ok(Self::of_size("large", 1300))
        } else {
            Err(
                SpatialError::ConfigError(
                    String::from_str("Unknown encoder size: '").concat(encoder_size).concat(
                        "'. Use 's', 'b', or 'l'",
                    ),
                ),
            )
        }
    }
}

/// Where the models are kept: the directory that the environment names, or
/// `.spatial-maker/checkpoints` in the home directory.
pub open spec fn checkpoint_dir(custom: Option<&str>, home: Option<&str>) -> Option<Seq<char>> {
    match custom {
        Some(dir) => Some(dir@),
        None => match home {
            Some(h) => Some(path_join(path_join(h@, ".spatial-maker"@), "checkpoints"@)),
            None => None,
        },
    }
}

/// Where the models are kept. `custom` is what the environment names as the
/// directory, `home` the home directory, each where there is one. Without
/// both there is no such place, which is a configuration error.
pub fn get_checkpoint_dir(
    custom: Option<&str>,
    home: Option<&str>,
) -> (result: SpatialResult<String>)
    ensures
        match checkpoint_dir(custom, home) {
            Some(dir) => (result matches Ok(d) && d@ == dir),
            None => (result matches Err(e) && e@ == (
                SpatialErrorKind::Config,
                "Could not determine home directory"@,
            )),
        },
{
    match custom {
        Some(dir) => Ok(String::from_str(dir)),
        None => match home {
            Some(h) => {
                let base = join(h, ".spatial-maker");
                Ok(join(base.as_str(), "checkpoints"))
            },
            None => Err(
                SpatialError::ConfigError(String::from_str("Could not determine home directory")),
            ),
        },
    }
}

/// Whether a file of this name is among `files`.
pub open spec fn has_file(files: Seq<String>, name: Seq<char>) -> bool {
    texts(files).contains(name)
}

fn contains_name(files: &Vec<String>, name: &str) -> (found: bool)
    ensures
        found == has_file(files@, name@),
{
    let mut i: usize = 0;
    while i < files.len()
        invariant
            i <= files@.len(),
            forall|j: int| 0 <= j < i ==> files@[j]@ != name@,
        decreases files@.len() - i,
    {
        if str_eq(files[i].as_str(), name) {
            assert(texts(files@)[i as int] == name@);
            return true;
        }
        i += 1;
    }
    proof {
        if texts(files@).contains(name@) {
            let j = choose|j: int| 0 <= j < texts(files@).len() && texts(files@)[j] == name@;
            assert(files@[j]@ == name@);
        }
    }
    false
}

/// The detail of the error for a model that is not there.
pub open spec fn model_missing_text(path: Seq<char>) -> Seq<char> {
    "Model not found: \""@ + path + "\". Run download_model first."@
}

/// What the search for a model comes to, given the path where the model
/// would lie and whether it lies there: the path, or a model error that
/// names it.
pub fn model_at(path: String, present: bool) -> (result: SpatialResult<String>)
    ensures
        present ==> result == Ok::<String, SpatialError>(path),
        !present ==> (result matches Err(e) && e@ == (
            SpatialErrorKind::Model,
            model_missing_text(path@),
        )),
{
    if present {
        Ok(path)
    } else {
        Err(
            SpatialError::ModelError(
                String::from_str("Model not found: \"").concat(path.as_str()).concat(
                    "\". Run download_model first.",
                ),
            ),
        )
    }
}

/// The path of the model for an encoder name in the directory
/// `checkpoint_dir`, of whose files `files` are the names. An unknown name
/// is a configuration error; a model whose file is not there is a model
/// error that names the path.
pub fn find_model(
    encoder_size: &str,
    checkpoint_dir: &str,
    files: &Vec<String>,
) -> (result: SpatialResult<String>)
    ensures
        match self::encoder_size(encoder_size@) {
            Some(size) => {
                let path = path_join(checkpoint_dir@, model_filename(size));
                if has_file(files@, model_filename(size)) {
                    result matches Ok(p) && p@ == path
                } else {
                    result matches Err(e) && e@ == (SpatialErrorKind::Model, model_missing_text(path))
                }
            },
            None => (result matches Err(e) && e@ == (
                SpatialErrorKind::Config,
                unknown_encoder_text(encoder_size@),
            )),
        },
{
    let metadata = match ModelMetadata::for_encoder(encoder_size) {
        Ok(metadata) => metadata,
        Err(e) => {
            return Err(e);
        },
    };
    let path = join(checkpoint_dir, metadata.filename.as_str());
    let present = contains_name(files, metadata.filename.as_str());
    model_at(path, present)
}

/// Whether the model for an encoder name is among the files of the
/// checkpoint directory.
pub fn model_exists(encoder_size: &str, checkpoint_dir: &str, files: &Vec<String>) -> (exists: bool)
    ensures
        exists == match self::encoder_size(encoder_size@) {
            Some(size) => has_file(files@, model_filename(size)),
            None => false,
        },
{
    match find_model(encoder_size, checkpoint_dir, files) {
        Ok(_) => true,
        Err(_) => false,
    }
}

} // verus!
