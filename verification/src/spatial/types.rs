//! The data of a spatial conversion and what is reported to the client.

use vstd::prelude::*;

verus! {

/// The parameters of one spatial conversion.
#[derive(Clone, Debug)]
pub struct SpatialConfig {
    pub encoder_size: String,
    pub max_disparity: u32,
    pub skip_downscale: bool,
    /// How much of the input is worked on, as the text that is handed to
    /// the tool, where the work is limited.
    pub duration: Option<String>,
    pub enabled: bool,
}

/// Reported as the download of a model advances; `progress` is in whole
/// percent.
#[derive(Clone, Debug)]
pub struct ModelDownloadProgressPayload {
    pub encoder_size: String,
    pub bytes_downloaded: u64,
    pub total_bytes: u64,
    pub progress: u32,
}

/// Reported when a model has been downloaded.
#[derive(Clone, Debug)]
pub struct ModelDownloadCompletePayload {
    pub encoder_size: String,
}

/// Reported when the download of a model has failed.
#[derive(Clone, Debug)]
pub struct ModelDownloadErrorPayload {
    pub encoder_size: String,
    pub error: String,
}

/// One spatial conversion: which file, with which parameters.
#[derive(Clone, Debug)]
pub struct SpatialTask {
    pub id: String,
    pub file_path: String,
    pub config: SpatialConfig,
}

/// Reported once the tool runs.
#[derive(Clone, Debug)]
pub struct SpatialStartedPayload {
    pub id: String,
}

/// Reported as a spatial conversion advances; `progress` is in thousandths
/// of a percent.
#[derive(Clone, Debug)]
pub struct SpatialProgressPayload {
    pub id: String,
    pub progress: u32,
    pub stage: String,
}

/// Reported when a spatial conversion has written its output.
#[derive(Clone, Debug)]
pub struct SpatialCompletedPayload {
    pub id: String,
    pub output_path: String,
}

/// Reported when a spatial conversion has failed.
#[derive(Clone, Debug)]
pub struct SpatialErrorPayload {
    pub id: String,
    pub error: String,
}

/// One line of the tool's output.
#[derive(Clone, Debug)]
pub struct SpatialLogPayload {
    pub id: String,
    pub line: String,
}

} // verus!
