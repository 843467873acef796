//! The data of a conversion: the task and its configuration, what a probe
//! finds, and what is reported to the client.

use vstd::prelude::*;

verus! {

/// The number of tasks that may run at once until another limit is set.
pub const DEFAULT_MAX_CONCURRENCY: usize = 2;

/// The volume, in hundredths of a percent, that leaves the audio unchanged.
pub const VOLUME_UNITY: u32 = 10000;

/// A volume this close to [`VOLUME_UNITY`], in hundredths of a percent, counts
/// as unchanged.
pub const VOLUME_EPSILON: u32 = 1;

/// A frame rate as the ratio of two decimal numbers, each held in millionths.
///
/// The rate is `numerator / denominator` frames per second; the denominator
/// is never zero.
#[derive(Clone, Copy, Debug, PartialEq, Eq, Structural)]
pub struct FrameRate {
    pub numerator: u64,
    pub denominator: u64,
}

/// One audio stream of a probed file.
#[derive(Clone, Debug)]
pub struct AudioTrack {
    pub index: u32,
    pub codec: String,
    pub channels: String,
    pub language: Option<String>,
    pub label: Option<String>,
    /// Kilobits per second, in millionths, where the stream states a bit rate.
    pub bitrate_kbps: Option<u64>,
    pub sample_rate: Option<String>,
}

/// One subtitle stream of a probed file.
#[derive(Clone, Debug)]
pub struct SubtitleTrack {
    pub index: u32,
    pub codec: String,
    pub language: Option<String>,
    pub label: Option<String>,
}

/// What a probe found out about a media file.
#[derive(Clone, Debug)]
pub struct ProbeMetadata {
    pub duration: Option<String>,
    pub bitrate: Option<String>,
    pub video_codec: Option<String>,
    pub audio_codec: Option<String>,
    pub resolution: Option<String>,
    pub frame_rate: Option<FrameRate>,
    pub width: Option<u32>,
    pub height: Option<u32>,
    /// Kilobits per second of the video stream, in millionths.
    pub video_bitrate_kbps: Option<u64>,
    pub audio_tracks: Vec<AudioTrack>,
    pub subtitle_tracks: Vec<SubtitleTrack>,
    pub tags: Option<FfprobeTags>,
    pub pixel_format: Option<String>,
    pub color_space: Option<String>,
    pub color_range: Option<String>,
    pub color_primaries: Option<String>,
    pub profile: Option<String>,
}

/// How the metadata of the source is treated.
#[derive(Clone, Copy, Debug, PartialEq, Eq, Structural)]
pub enum MetadataMode {
    Preserve,
    Clean,
    Replace,
}

impl Default for MetadataMode {
    fn default() -> (mode: Self)
        ensures
            mode == MetadataMode::Preserve,
    {
        MetadataMode::Preserve
    }
}

/// Metadata to write into the output.
#[derive(Clone, Debug)]
pub struct MetadataConfig {
    pub mode: MetadataMode,
    pub title: Option<String>,
    pub artist: Option<String>,
    pub album: Option<String>,
    pub genre: Option<String>,
    pub date: Option<String>,
    pub comment: Option<String>,
}

impl Default for MetadataConfig {
    fn default() -> (config: Self)
        ensures
            config.mode == MetadataMode::Preserve,
            config.title is None,
            config.artist is None,
            config.album is None,
            config.genre is None,
            config.date is None,
            config.comment is None,
    {
        MetadataConfig {
            mode: MetadataMode::Preserve,
            title: None,
            artist: None,
            album: None,
            genre: None,
            date: None,
            comment: None,
        }
    }
}

/// A crop rectangle, in whole pixels.
#[derive(Clone, Debug)]
pub struct CropConfig {
    pub enabled: bool,
    pub x: i32,
    pub y: i32,
    pub width: i32,
    pub height: i32,
    pub source_width: Option<u32>,
    pub source_height: Option<u32>,
    pub aspect_ratio: Option<String>,
}

/// Every parameter of one conversion.
#[derive(Clone, Debug)]
pub struct ConversionConfig {
    pub container: String,
    pub video_codec: String,
    pub video_bitrate_mode: String,
    pub video_bitrate: String,
    pub audio_codec: String,
    pub audio_bitrate: String,
    pub audio_channels: String,
    /// In hundredths of a percent: [`VOLUME_UNITY`] leaves the volume as it is.
    pub audio_volume: u32,
    pub audio_normalize: bool,
    pub selected_audio_tracks: Vec<u32>,
    pub selected_subtitle_tracks: Vec<u32>,
    pub subtitle_burn_path: Option<String>,
    pub resolution: String,
    pub custom_width: Option<String>,
    pub custom_height: Option<String>,
    pub scaling_algorithm: String,
    pub fps: String,
    pub crf: u8,
    pub quality: u32,
    pub preset: String,
    pub start_time: Option<String>,
    pub end_time: Option<String>,
    pub metadata: MetadataConfig,
    pub rotation: String,
    pub flip_horizontal: bool,
    pub flip_vertical: bool,
    pub ml_upscale: Option<String>,
    pub hw_decode: bool,
    pub crop: Option<CropConfig>,
    pub nvenc_spatial_aq: bool,
    pub nvenc_temporal_aq: bool,
    pub videotoolbox_allow_sw: bool,
}

/// The rotation of a configuration that names none.
pub fn default_rotation() -> (rotation: String)
    ensures
        rotation@ == "0"@,
{
    "0".to_owned()
}

/// The quality of a configuration that names none.
pub fn default_quality() -> (quality: u32)
    ensures
        quality == 50,
{
    50
}

/// The volume of a configuration that names none.
pub fn default_audio_volume() -> (volume: u32)
    ensures
        volume == VOLUME_UNITY,
{
    VOLUME_UNITY
}

/// Reported once a task's first process runs.
#[derive(Clone, Debug)]
pub struct StartedPayload {
    pub id: String,
}

/// Reported as a task advances; `progress` is in thousandths of a percent.
#[derive(Clone, Debug)]
pub struct ProgressPayload {
    pub id: String,
    pub progress: u32,
}

/// Reported when a task has written its output.
#[derive(Clone, Debug)]
pub struct CompletedPayload {
    pub id: String,
    pub output_path: String,
}

/// Reported when a task has failed.
#[derive(Clone, Debug)]
pub struct ErrorPayload {
    pub id: String,
    pub error: String,
}

/// One line of a tool's diagnostic output.
#[derive(Clone, Debug)]
pub struct LogPayload {
    pub id: String,
    pub line: String,
}

/// The prober's report, as it is read from its output.
#[derive(Clone, Debug)]
pub struct FfprobeOutput {
    pub streams: Vec<FfprobeStream>,
    pub format: FfprobeFormat,
}

/// One stream of the prober's report.
#[derive(Clone, Debug)]
pub struct FfprobeStream {
    pub index: u32,
    pub codec_type: String,
    pub codec_name: Option<String>,
    pub width: Option<i32>,
    pub height: Option<i32>,
    pub channels: Option<i32>,
    pub bit_rate: Option<String>,
    pub avg_frame_rate: Option<String>,
    pub channel_layout: Option<String>,
    pub tags: Option<FfprobeTags>,
    pub pix_fmt: Option<String>,
    pub color_space: Option<String>,
    pub color_range: Option<String>,
    pub color_primaries: Option<String>,
    pub profile: Option<String>,
    pub sample_rate: Option<String>,
}

/// The container part of the prober's report.
#[derive(Clone, Debug)]
pub struct FfprobeFormat {
    pub duration: Option<String>,
    pub bit_rate: Option<String>,
    pub tags: Option<FfprobeTags>,
}

/// The tags of a container or of a stream.
#[derive(Clone, Debug)]
pub struct FfprobeTags {
    pub title: Option<String>,
    pub artist: Option<String>,
    pub album: Option<String>,
    pub genre: Option<String>,
    pub date: Option<String>,
    pub creation_time: Option<String>,
    pub language: Option<String>,
    pub comment: Option<String>,
    pub description_upper: Option<String>,
    pub date_upper: Option<String>,
}

/// One conversion job: which file, under which name, with which parameters.
#[derive(Clone, Debug)]
pub struct ConversionTask {
    pub id: String,
    pub file_path: String,
    pub output_name: Option<String>,
    pub config: ConversionConfig,
}

} // verus!
