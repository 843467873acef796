//! What the client can ask of the spatial subsystem: checkpoints, downloads
//! and the checks that a request has to pass.

use vstd::prelude::*;
use vstd::string::StringExecFns;
use crate::paths::{join, path_join};
use crate::spatial::error::{SpatialError, SpatialErrorKind};
use crate::spatial::types::SpatialConfig;
use crate::text::{concat2, str_eq};

verus! {

/// The file that holds the checkpoint of an encoder size, and where it can
/// be had.
pub open spec fn checkpoint_of(encoder_size: Seq<char>) -> Option<(Seq<char>, Seq<char>)> {
    if encoder_size == "s"@ {
        Some(
            (
                "depth_anything_v2_vits.pth"@,
                "https://huggingface.co/depth-anything/Depth-Anything-V2-Small/resolve/main/depth_anything_v2_vits.pth"@,
            ),
        )
    } else if encoder_size == "m"@ {
        Some(
            (
                "depth_anything_v2_vitb.pth"@,
                "https://huggingface.co/depth-anything/Depth-Anything-V2-Base/resolve/main/depth_anything_v2_vitb.pth"@,
            ),
        )
    } else if encoder_size == "l"@ {
        Some(
            (
                "depth_anything_v2_vitl.pth"@,
                "https://huggingface.co/depth-anything/Depth-Anything-V2-Large/resolve/main/depth_anything_v2_vitl.pth"@,
            ),
        )
    } else {
        None
    }
}

/// The file that holds the checkpoint of an encoder size, and where it can
/// be had; nothing for a size that is not `s`, `m` or `l`.
pub fn encoder_to_checkpoint(
    encoder_size: &str,
) -> (checkpoint: Option<(&'static str, &'static str)>)
    ensures
        match checkpoint_of(encoder_size@) {
            Some((file, url)) => (checkpoint matches Some(pair) && pair.0@ == file && pair.1@ == url),
            None => checkpoint is None,
        },
{
    if str_eq(encoder_size, "s") {
        Some(
            (
                "depth_anything_v2_vits.pth",
                "https://huggingface.co/depth-anything/Depth-Anything-V2-Small/resolve/main/depth_anything_v2_vits.pth",
            ),
        )
    } else if str_eq(encoder_size, "m") {
        Some(
            (
                "depth_anything_v2_vitb.pth",
                "https://huggingface.co/depth-anything/Depth-Anything-V2-Base/resolve/main/depth_anything_v2_vitb.pth",
            ),
        )
    } else if str_eq(encoder_size, "l") {
        Some(
            (
                "depth_anything_v2_vitl.pth",
                "https://huggingface.co/depth-anything/Depth-Anything-V2-Large/resolve/main/depth_anything_v2_vitl.pth",
            ),
        )
    } else {
        None
    }
}

/// Where the checkpoints are kept: in the directory that the environment
/// names, or in `.spatial-maker` in the home directory, or, without a home
/// directory, in `.spatial-maker` in the current directory; there, in
/// `checkpoints`.
pub open spec fn checkpoint_dir(custom: Option<&str>, home: Option<&str>) -> Seq<char> {
    let base = match custom {
        Some(dir) => dir@,
        None => match home {
            Some(h) => path_join(h@, ".spatial-maker"@),
            None => path_join("."@, ".spatial-maker"@),
        },
    };
    path_join(base, "checkpoints"@)
}

/// Where the checkpoints are kept. `custom` is what the environment names
/// as the directory, `home` the home directory, each where there is one.
pub fn get_checkpoint_dir(custom: Option<&str>, home: Option<&str>) -> (dir: String)
    ensures
        dir@ == checkpoint_dir(custom, home),
{
    let base = match custom {
        Some(dir) => String::from_str(dir),
        None => match home {
            Some(h) => join(h, ".spatial-maker"),
            None => join(".", ".spatial-maker"),
        },
    };
    join(base.as_str(), "checkpoints")
}

/// How far a download has come, in whole percent, rounded to the nearest
/// with halves up; zero where the total is not known.
pub open spec fn download_percent(downloaded: u64, total: u64) -> u64 {
    if total > 0 {
        let percent = (downloaded * 200 + total) / (2 * total);
        if percent > u64::MAX {
            u64::MAX
        } else {
            percent as u64
        }
    } else {
        0
    }
}

/// How far a download has come, in whole percent.
pub fn download_progress(downloaded: u64, total: u64) -> (percent: u64)
    ensures
        percent == download_percent(downloaded, total),
{
    if total == 0 {
        return 0;
    }
    let scaled: u128 = (downloaded as u128) * 200 + (total as u128);
    let percent: u128 = scaled / (2 * (total as u128));
    if percent > u64::MAX as u128 {
        u64::MAX
    } else {
        percent as u64
    }
}

/// A download that has fetched no more than the whole is at most at one
/// hundred percent.
pub proof fn lemma_download_percent_bounded(downloaded: u64, total: u64)
    requires
        downloaded <= total,
    ensures
        download_percent(downloaded, total) <= 100,
{
    if total > 0 {
        let scaled = downloaded * 200 + total;
        let twice = 2 * total;
        assert(scaled <= 201 * total);
        assert(scaled / twice <= 100) by (nonlinear_arith)
            requires
                0 <= scaled <= 201 * total,
                twice == 2 * total,
                total > 0,
        ;
    }
}

/// Why a request for a spatial conversion is rejected, if it is: the path
/// must not be empty, the file has to exist, and the encoder size has to be
/// `s`, `m` or `l`.
pub open spec fn spatial_fault(
    file_path: Seq<char>,
    exists: bool,
    config: SpatialConfig,
) -> Option<Seq<char>> {
    if file_path.len() == 0 {
        Some("File path is empty"@)
    } else if !exists {
        Some("File not found: "@ + file_path)
    } else if !(config.encoder_size@ == "s"@ || config.encoder_size@ == "m"@ || config.encoder_size@
        == "l"@) {
        Some("Invalid encoder size '"@ + config.encoder_size@ + "'. Must be s, m, or l"@)
    } else {
        None
    }
}

/// Checks a request for a spatial conversion before it is queued; `exists`
/// says whether there is anything at `file_path`.
pub fn validate_spatial_input(
    file_path: &str,
    exists: bool,
    config: &SpatialConfig,
) -> (result: Result<(), SpatialError>)
    ensures
        match spatial_fault(file_path@, exists, *config) {
            Some(reason) => (result matches Err(e) && e@ == (SpatialErrorKind::InvalidInput, reason)),
            None => result is Ok,
        },
{
    if file_path.unicode_len() == 0 {
        return Err(SpatialError::InvalidInput(String::from_str("File path is empty")));
    }
    if !exists {
        return Err(SpatialError::InvalidInput(concat2("File not found: ", file_path)));
    }
    let size = config.encoder_size.as_str();
    if !(str_eq(size, "s") || str_eq(size, "m") || str_eq(size, "l")) {
        return Err(
            SpatialError::InvalidInput(
                String::from_str("Invalid encoder size '").concat(size).concat(
                    "'. Must be s, m, or l",
                ),
            ),
        );
    }
    Ok(())
}

/// Whether the checkpoint of an encoder size is among `files`.
pub open spec fn checkpoint_present(encoder_size: Seq<char>, files: Seq<String>) -> bool {
    match checkpoint_of(encoder_size) {
        Some((file, _)) => crate::text::texts(files).contains(file),
        None => false,
    }
}

fn lists_name(files: &Vec<String>, name: &str) -> (found: bool)
    ensures
        found == crate::text::texts(files@).contains(name@),
{
    let mut i: usize = 0;
    while i < files.len()
        invariant
            i <= files@.len(),
            forall|j: int| 0 <= j < i ==> files@[j]@ != name@,
        decreases files@.len() - i,
    {
        if str_eq(files[i].as_str(), name) {
            assert(crate::text::texts(files@)[i as int] == name@);
            return true;
        }
        i += 1;
    }
    proof {
        let names = crate::text::texts(files@);
        if names.contains(name@) {
            let j = choose|j: int| 0 <= j < names.len() && names[j] == name@;
            assert(files@[j]@ == name@);
        }
    }
    false
}

/// Which checkpoints are there.
#[derive(Clone, Copy, Debug, PartialEq, Eq, Structural)]
pub struct ModelAvailability {
    pub small: bool,
    pub medium: bool,
    pub large: bool,
}

/// Which of the three checkpoints are among `files`, the names of the files
/// in the checkpoint directory.
pub fn check_spatial_models(files: &Vec<String>) -> (available: ModelAvailability)
    ensures
        available.small == checkpoint_present("s"@, files@),
        available.medium == checkpoint_present("m"@, files@),
        available.large == checkpoint_present("l"@, files@),
{
    proof {
        reveal_strlit("s");
        reveal_strlit("m");
        reveal_strlit("l");
        assert("s"@[0] != "m"@[0] && "s"@[0] != "l"@[0] && "m"@[0] != "l"@[0]);
    }
    ModelAvailability {
        small: lists_name(files, "depth_anything_v2_vits.pth"),
        medium: lists_name(files, "depth_anything_v2_vitb.pth"),
        large: lists_name(files, "depth_anything_v2_vitl.pth"),
    }
}

/// The name under which a checkpoint is kept while it is being fetched.
pub fn downloading_name(filename: &str) -> (name: String)
    ensures
        name@ == filename@ + ".downloading"@,
{
    concat2(filename, ".downloading")
}

/// What a download remembers: the percentage that was last reported, if
/// one was.
pub struct DownloadTracker {
    pub last_reported: Option<u64>,
}

impl DownloadTracker {
    /// A tracker that has reported nothing.
    pub fn new() -> (tracker: Self)
        ensures
            tracker.last_reported is None,
    {
        DownloadTracker { last_reported: None }
    }

    /// Takes the state of the download after a chunk has arrived and
    /// returns the percentage to report, which is the current one unless the
    /// same was reported last.
    pub fn on_chunk(&mut self, downloaded: u64, total: u64) -> (report: Option<u64>)
        ensures
            final(self).last_reported == Some(download_percent(downloaded, total)),
            report == if old(self).last_reported == Some(download_percent(downloaded, total)) {
                None
            } else {
                Some(download_percent(downloaded, total))
            },
    {
        let percent = download_progress(downloaded, total);
        let changed = match self.last_reported {
            Some(last) => last != percent,
            None => true,
        };
        self.last_reported = Some(percent);
        if changed {
            Some(percent)
        } else {
            None
        }
    }
}

} // verus!
