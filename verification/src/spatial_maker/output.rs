//! Writing a stereo pair: layouts, encodings and file names.

use vstd::prelude::*;
use vstd::string::StringExecFns;
use crate::paths::{
    extension_of, file_stem_of, join, parent_of, path_extension, path_file_stem, path_join,
    is_extension_text, path_parent, path_with_extension, with_extension,
};
use crate::spatial_maker::error::{SpatialError, SpatialErrorKind, SpatialResult};
use crate::text::{
    decimal_string, decimal_text, lowercase, push_decimal, push_string, push_text, str_eq, texts,
    to_lowercase,
};

verus! {

/// How the two views of a stereo picture are laid out.
#[derive(Clone, Copy, Debug, PartialEq, Eq, Structural)]
pub enum OutputFormat {
    /// The left view beside the right one.
    SideBySide,
    /// The left view above the right one.
    TopAndBottom,
    /// Each view in a file of its own.
    Separate,
}

impl OutputFormat {
    /// The name of the layout.
    pub open spec fn name_view(&self) -> Seq<char> {
        match self {
            OutputFormat::SideBySide => "side-by-side"@,
            OutputFormat::TopAndBottom => "top-and-bottom"@,
            OutputFormat::Separate => "separate"@,
        }
    }

    /// The name of the layout.
    pub fn name(&self) -> (name: &'static str)
        ensures
            name@ == self.name_view(),
    {
        match self {
            OutputFormat::SideBySide => "side-by-side",
            OutputFormat::TopAndBottom => "top-and-bottom",
            OutputFormat::Separate => "separate",
        }
    }
}

/// How a picture is encoded.
#[derive(Clone, Copy, Debug, PartialEq, Eq, Structural)]
pub enum ImageEncoding {
    /// JPEG, which loses detail, at a quality up to 100.
    Jpeg { quality: u8 },
    /// PNG, which loses none.
    Png,
}

impl ImageEncoding {
    /// The file extension of the encoding.
    pub open spec fn extension_view(&self) -> Seq<char> {
        match self {
            ImageEncoding::Jpeg { .. } => "jpg"@,
            ImageEncoding::Png => "png"@,
        }
    }

    /// The file extension of the encoding.
    pub fn extension(&self) -> (extension: &'static str)
        ensures
            extension@ == self.extension_view(),
    {
        match self {
            ImageEncoding::Jpeg { .. } => "jpg",
            ImageEncoding::Png => "png",
        }
    }

    /// The encoding that a file extension in lower case asks for: PNG for
    /// `png`, JPEG at quality 95 for anything else.
    pub open spec fn for_extension(extension: Seq<char>) -> ImageEncoding {
        if extension == "png"@ {
            ImageEncoding::Png
        } else {
            ImageEncoding::Jpeg { quality: 95 }
        }
    }

    /// The encoding that a file extension in lower case asks for.
    pub fn from_extension(extension: &str) -> (encoding: Self)
        ensures
            encoding == Self::for_extension(extension@),
    {
        if str_eq(extension, "png") {
            ImageEncoding::Png
        } else {
            ImageEncoding::Jpeg { quality: 95 }
        }
    }

    /// The encoding that the extension of a path asks for, whatever its
    /// case; a path without an extension asks for JPEG.
    pub fn from_path(path: &str) -> (encoding: Self)
        ensures
            encoding == Self::for_extension(
                match path_extension(path@) {
                    Some(e) => lowercase(e),
                    None => lowercase(Seq::<char>::empty()),
                },
            ),
    {
        let extension = match extension_of(path) {
            Some(e) => e,
            None => String::new(),
        };
        let lower = to_lowercase(extension.as_str());
        Self::from_extension(lower.as_str())
    }
}

/// How a stereo picture is encoded as MV-HEVC by the `spatial` tool.
#[derive(Clone, Debug)]
pub struct MVHEVCConfig {
    /// Where the tool is; `spatial` on the search path where none is given.
    pub spatial_cli_path: Option<String>,
    /// Whether the picture is encoded at all.
    pub enabled: bool,
    /// The quality, from 1 to 100.
    pub quality: u8,
    /// Whether the stereo picture stays once it has been encoded.
    pub keep_intermediate: bool,
}

impl Default for MVHEVCConfig {
    fn default() -> (config: Self)
        ensures
            config.spatial_cli_path is None,
            !config.enabled,
            config.quality == 95,
            !config.keep_intermediate,
    {
        MVHEVCConfig { spatial_cli_path: None, enabled: false, quality: 95, keep_intermediate: false }
    }
}

/// How a stereo picture is written.
#[derive(Clone, Debug)]
pub struct OutputOptions {
    pub layout: OutputFormat,
    pub image_format: ImageEncoding,
    pub mvhevc: Option<MVHEVCConfig>,
}

impl Default for OutputOptions {
    fn default() -> (options: Self)
        ensures
            options.layout == OutputFormat::SideBySide,
            options.image_format == (ImageEncoding::Jpeg { quality: 95 }),
            options.mvhevc is None,
    {
        OutputOptions {
            layout: OutputFormat::SideBySide,
            image_format: ImageEncoding::Jpeg { quality: 95 },
            mvhevc: None,
        }
    }
}

/// The width and the height of a picture, in pixels.
#[derive(Clone, Copy, Debug, PartialEq, Eq, Structural)]
pub struct Dimensions {
    pub width: u32,
    pub height: u32,
}

/// Where the two views go in the picture that holds them both.
#[derive(Clone, Copy, Debug, PartialEq, Eq, Structural)]
pub struct Composition {
    /// The size of the whole picture.
    pub size: Dimensions,
    /// How far from the left edge the right view begins.
    pub right_x: u32,
    /// How far from the top edge the right view begins.
    pub right_y: u32,
}

/// The detail of the error for two views of different heights.
pub open spec fn height_mismatch_text(left: u32, right: u32) -> Seq<char> {
    "Left and right images must have the same height: "@ + decimal_text(left as nat) + " != "@
        + decimal_text(right as nat)
}

/// The detail of the error for two views of different widths.
pub open spec fn width_mismatch_text(left: u32, right: u32) -> Seq<char> {
    "Left and right images must have the same width: "@ + decimal_text(left as nat) + " != "@
        + decimal_text(right as nat)
}

/// Where the views go when the left one stands beside the right one: the
/// heights have to agree, the widths add up, and the right view begins
/// where the left one ends.
pub fn compose_side_by_side(
    left: Dimensions,
    right: Dimensions,
) -> (result: SpatialResult<Composition>)
    requires
        left.width + right.width <= u32::MAX,
    ensures
        left.height == right.height ==> result == Ok::<Composition, SpatialError>(
            Composition {
                size: Dimensions {
                    width: (left.width + right.width) as u32,
                    height: left.height,
                },
                right_x: left.width,
                right_y: 0,
            },
        ),
        left.height != right.height ==> (result matches Err(e) && e@ == (
            SpatialErrorKind::Image,
            height_mismatch_text(left.height, right.height),
        )),
{
    if left.height != right.height {
        let mut text = String::from_str("Left and right images must have the same height: ");
        push_decimal(&mut text, left.height as u64);
        text.append(" != ");
        push_decimal(&mut text, right.height as u64);
        return Err(SpatialError::ImageError(text));
    }
    Ok(
        Composition {
            size: Dimensions { width: left.width + right.width, height: left.height },
            right_x: left.width,
            right_y: 0,
        },
    )
}

/// Where the views go when the left one stands above the right one: the
/// widths have to agree, the heights add up, and the right view begins
/// where the left one ends.
pub fn compose_top_and_bottom(
    left: Dimensions,
    right: Dimensions,
) -> (result: SpatialResult<Composition>)
    requires
        left.height + right.height <= u32::MAX,
    ensures
        left.width == right.width ==> result == Ok::<Composition, SpatialError>(
            Composition {
                size: Dimensions {
                    width: left.width,
                    height: (left.height + right.height) as u32,
                },
                right_x: 0,
                right_y: left.height,
            },
        ),
        left.width != right.width ==> (result matches Err(e) && e@ == (
            SpatialErrorKind::Image,
            width_mismatch_text(left.width, right.width),
        )),
{
    if left.width != right.width {
        let mut text = String::from_str("Left and right images must have the same width: ");
        push_decimal(&mut text, left.width as u64);
        text.append(" != ");
        push_decimal(&mut text, right.width as u64);
        return Err(SpatialError::ImageError(text));
    }
    Ok(
        Composition {
            size: Dimensions { width: left.width, height: left.height + right.height },
            right_x: 0,
            right_y: left.height,
        },
    )
}

/// The directory of the output: what is in front of its last component,
/// the current directory where there is nothing.
pub open spec fn output_dir(output_path: Seq<char>) -> Seq<char> {
    match path_parent(output_path) {
        Some(dir) => dir,
        None => "."@,
    }
}

/// The path of one of the two files that hold the views separately: the
/// stem of the output path, `_L` or `_R`, and the extension of the encoding.
pub open spec fn side_path(
    output_path: Seq<char>,
    stem: Seq<char>,
    side: Seq<char>,
    encoding: ImageEncoding,
) -> Seq<char> {
    path_join(output_dir(output_path), stem + side + "."@ + encoding.extension_view())
}

/// The name of one of the two files that hold the views separately: the
/// stem, `_L` for the left view or `_R` for the right one, and the extension
/// of the encoding.
pub fn side_file_name(stem: &str, left: bool, encoding: ImageEncoding) -> (name: String)
    ensures
        name@ == stem@ + (if left {
            "_L"@
        } else {
            "_R"@
        }) + "."@ + encoding.extension_view(),
{
    let side = if left {
        "_L"
    } else {
        "_R"
    };
    String::from_str(stem).concat(side).concat(".").concat(encoding.extension())
}

/// The paths of the two files that hold the views separately, the left one
/// first. A path without a file name is an image error.
pub fn separate_paths(
    output_path: &str,
    encoding: ImageEncoding,
) -> (result: SpatialResult<(String, String)>)
    ensures
        match path_file_stem(output_path@) {
            Some(stem) => (result matches Ok(pair) && pair.0@ == side_path(
                output_path@,
                stem,
                "_L"@,
                encoding,
            ) && pair.1@ == side_path(output_path@, stem, "_R"@, encoding)),
            None => (result matches Err(e) && e@ == (
                SpatialErrorKind::Image,
                "Invalid output path"@,
            )),
        },
{
    let stem = match file_stem_of(output_path) {
        Some(stem) => stem,
        None => {
            return Err(SpatialError::ImageError(String::from_str("Invalid output path")));
        },
    };
    let dir = match parent_of(output_path) {
        Some(dir) => dir,
        None => String::from_str("."),
    };
    let left_name = side_file_name(stem.as_str(), true, encoding);
    let right_name = side_file_name(stem.as_str(), false, encoding);
    Ok((join(dir.as_str(), left_name.as_str()), join(dir.as_str(), right_name.as_str())))
}

/// The tool that encodes MV-HEVC: the one that the configuration names, or
/// `spatial`.
pub open spec fn mvhevc_tool(config: MVHEVCConfig) -> Seq<char> {
    match config.spatial_cli_path {
        Some(path) => path@,
        None => "spatial"@,
    }
}

/// The arguments with which the tool encodes the stereo picture at
/// `stereo_path`: the picture goes in, a file of the same name with the
/// extension `heic` comes out, at the quality of the configuration.
pub open spec fn mvhevc_args(stereo_path: Seq<char>, config: MVHEVCConfig) -> Seq<Seq<char>> {
    seq![
        "encode"@,
        "--input"@,
        stereo_path,
        "--output"@,
        path_with_extension(stereo_path, "heic"@),
        "--quality"@,
        decimal_text(config.quality as nat),
    ]
}

/// The tool that encodes MV-HEVC and the arguments that it is run with.
pub fn mvhevc_command(stereo_path: &str, config: &MVHEVCConfig) -> (command: (String, Vec<String>))
    ensures
        command.0@ == mvhevc_tool(*config),
        texts(command.1@) == mvhevc_args(stereo_path@, *config),
{
    let tool = match &config.spatial_cli_path {
        Some(path) => path.clone(),
        None => String::from_str("spatial"),
    };
    let mut args: Vec<String> = Vec::new();
    assert(texts(args@) =~= Seq::<Seq<char>>::empty());
    push_text(&mut args, "encode");
    push_text(&mut args, "--input");
    push_text(&mut args, stereo_path);
    push_text(&mut args, "--output");
    proof {
        reveal_strlit("heic");
        assert(is_extension_text("heic"@));
    }
    push_string(&mut args, with_extension(stereo_path, "heic"));
    push_text(&mut args, "--quality");
    push_string(&mut args, decimal_string(config.quality as u64));
    assert(texts(args@) =~= mvhevc_args(stereo_path@, *config));
    (tool, args)
}

} // verus!
