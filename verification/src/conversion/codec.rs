//! The arguments that choose and set up the encoders of picture and sound.

use vstd::prelude::*;
use vstd::string::StringExecFns;
use crate::conversion::types::ConversionConfig;
use crate::conversion::utils::{
    is_nvenc_codec, is_videotoolbox_codec, map_nvenc_preset, nvenc_name, nvenc_preset,
    videotoolbox_name,
};
use crate::text::{
    concat2, decimal_string, decimal_text, push_string, push_text, str_eq, texts,
};

verus! {

/// The constant quality that NVENC is given for a quality between 1 and
/// 100: fifty-two less half the quality, rounded to the nearest whole number
/// with halves rounded up, and kept between 1 and 51.
pub open spec fn nvenc_cq(quality: u32) -> u32 {
    if quality >= 103 {
        1
    } else if (105 - quality) / 2 > 51 {
        51
    } else {
        ((105 - quality) / 2) as u32
    }
}

/// The constant quality that NVENC is given for `quality`.
pub fn nvenc_constant_quality(quality: u32) -> (cq: u32)
    ensures
        cq == nvenc_cq(quality),
        1 <= cq <= 51,
{
    if quality >= 103 {
        1
    } else {
        let raw: u32 = (105 - quality) / 2;
        if raw > 51 {
            51
        } else {
            raw
        }
    }
}

/// The arguments that set the rate or the quality of the video.
pub open spec fn video_rate_args(config: ConversionConfig) -> Seq<Seq<char>> {
    if config.video_bitrate_mode@ == "bitrate"@ {
        seq!["-b:v"@, config.video_bitrate@ + "k"@]
    } else if nvenc_name(config.video_codec@) {
        seq!["-rc:v"@, "vbr"@, "-cq:v"@, decimal_text(nvenc_cq(config.quality) as nat)]
    } else if videotoolbox_name(config.video_codec@) {
        seq!["-q:v"@, decimal_text(config.quality as nat)]
    } else {
        seq!["-crf"@, decimal_text(config.crf as nat)]
    }
}

/// The arguments that name the preset; Apple's encoders take none, and
/// NVENC takes its own names.
pub open spec fn video_preset_args(config: ConversionConfig) -> Seq<Seq<char>> {
    if videotoolbox_name(config.video_codec@) {
        Seq::empty()
    } else if nvenc_name(config.video_codec@) {
        seq!["-preset"@, nvenc_preset(config.preset@)]
    } else {
        seq!["-preset"@, config.preset@]
    }
}

/// The arguments for the options of the hardware encoders.
pub open spec fn video_hardware_args(config: ConversionConfig) -> Seq<Seq<char>> {
    let spatial = if nvenc_name(config.video_codec@) && config.nvenc_spatial_aq {
        seq!["-spatial_aq"@, "1"@]
    } else {
        Seq::empty()
    };
    let temporal = if nvenc_name(config.video_codec@) && config.nvenc_temporal_aq {
        seq!["-temporal_aq"@, "1"@]
    } else {
        Seq::empty()
    };
    let software = if videotoolbox_name(config.video_codec@) && config.videotoolbox_allow_sw {
        seq!["-allow_sw"@, "1"@]
    } else {
        Seq::empty()
    };
    spatial + temporal + software
}

/// The arguments that choose and set up the video encoder.
pub open spec fn video_codec_args(config: ConversionConfig) -> Seq<Seq<char>> {
    seq!["-c:v"@, config.video_codec@] + video_rate_args(config) + video_preset_args(config)
        + video_hardware_args(config)
}

fn add_video_rate_args(args: &mut Vec<String>, config: &ConversionConfig)
    ensures
        texts(final(args)@) == texts(old(args)@) + video_rate_args(*config),
{
    let ghost before = texts(args@);
    if str_eq(config.video_bitrate_mode.as_str(), "bitrate") {
        push_text(args, "-b:v");
        push_string(args, concat2(config.video_bitrate.as_str(), "k"));
        assert(texts(args@) =~= before + seq!["-b:v"@, config.video_bitrate@ + "k"@]);
    } else if is_nvenc_codec(config.video_codec.as_str()) {
        let cq = nvenc_constant_quality(config.quality);
        push_text(args, "-rc:v");
        push_text(args, "vbr");
        push_text(args, "-cq:v");
        push_string(args, decimal_string(cq as u64));
        assert(texts(args@) =~= before + seq![
            "-rc:v"@,
            "vbr"@,
            "-cq:v"@,
            decimal_text(nvenc_cq(config.quality) as nat),
        ]);
    } else if is_videotoolbox_codec(config.video_codec.as_str()) {
        push_text(args, "-q:v");
        push_string(args, decimal_string(config.quality as u64));
        assert(texts(args@) =~= before + seq!["-q:v"@, decimal_text(config.quality as nat)]);
    } else {
        push_text(args, "-crf");
        push_string(args, decimal_string(config.crf as u64));
        assert(texts(args@) =~= before + seq!["-crf"@, decimal_text(config.crf as nat)]);
    }
}

fn add_video_preset_args(args: &mut Vec<String>, config: &ConversionConfig)
    ensures
        texts(final(args)@) == texts(old(args)@) + video_preset_args(*config),
{
    let ghost before = texts(args@);
    if is_videotoolbox_codec(config.video_codec.as_str()) {
        assert(texts(args@) =~= before + Seq::<Seq<char>>::empty());
    } else if is_nvenc_codec(config.video_codec.as_str()) {
        push_text(args, "-preset");
        push_string(args, map_nvenc_preset(config.preset.as_str()));
        assert(texts(args@) =~= before + seq!["-preset"@, nvenc_preset(config.preset@)]);
    } else {
        push_text(args, "-preset");
        push_text(args, config.preset.as_str());
        assert(texts(args@) =~= before + seq!["-preset"@, config.preset@]);
    }
}

fn add_video_hardware_args(args: &mut Vec<String>, config: &ConversionConfig)
    ensures
        texts(final(args)@) == texts(old(args)@) + video_hardware_args(*config),
{
    let ghost before = texts(args@);
    let nvenc = is_nvenc_codec(config.video_codec.as_str());
    let videotoolbox = is_videotoolbox_codec(config.video_codec.as_str());
    let ghost mut added: Seq<Seq<char>> = Seq::empty();
    assert(texts(args@) =~= before + added);
    if nvenc && config.nvenc_spatial_aq {
        push_text(args, "-spatial_aq");
        push_text(args, "1");
        proof {
            added = added + seq!["-spatial_aq"@, "1"@];
            assert(texts(args@) =~= before + added);
        }
    }
    if nvenc && config.nvenc_temporal_aq {
        push_text(args, "-temporal_aq");
        push_text(args, "1");
        proof {
            added = added + seq!["-temporal_aq"@, "1"@];
            assert(texts(args@) =~= before + added);
        }
    }
    if videotoolbox && config.videotoolbox_allow_sw {
        push_text(args, "-allow_sw");
        push_text(args, "1");
        proof {
            added = added + seq!["-allow_sw"@, "1"@];
            assert(texts(args@) =~= before + added);
        }
    }
    assert(added =~= video_hardware_args(*config));
}

/// Adds the arguments that choose and set up the video encoder.
pub fn add_video_codec_args(args: &mut Vec<String>, config: &ConversionConfig)
    ensures
        texts(final(args)@) == texts(old(args)@) + video_codec_args(*config),
{
    let ghost before = texts(args@);
    push_text(args, "-c:v");
    push_text(args, config.video_codec.as_str());
    add_video_rate_args(args, config);
    add_video_preset_args(args, config);
    add_video_hardware_args(args, config);
    assert(texts(args@) =~= before + video_codec_args(*config));
}

/// Whether an audio codec keeps every bit, so that no bit rate is named.
pub open spec fn lossless_audio(codec: Seq<char>) -> bool {
    codec == "flac"@ || codec == "alac"@ || codec == "pcm_s16le"@
}

/// The arguments that fix the number of audio channels.
pub open spec fn audio_channel_args(config: ConversionConfig) -> Seq<Seq<char>> {
    if config.audio_channels@ == "stereo"@ {
        seq!["-ac"@, "2"@]
    } else if config.audio_channels@ == "mono"@ {
        seq!["-ac"@, "1"@]
    } else {
        Seq::empty()
    }
}

/// The arguments that choose the audio encoder, where audio tracks are
/// selected, and that fix the number of channels.
pub open spec fn audio_codec_args(config: ConversionConfig) -> Seq<Seq<char>> {
    let codec = if config.selected_audio_tracks@.len() == 0 {
        Seq::empty()
    } else if lossless_audio(config.audio_codec@) {
        seq!["-c:a"@, config.audio_codec@]
    } else {
        seq!["-c:a"@, config.audio_codec@, "-b:a"@, config.audio_bitrate@ + "k"@]
    };
    codec + audio_channel_args(config)
}

/// Adds the arguments that choose and set up the audio encoder.
pub fn add_audio_codec_args(args: &mut Vec<String>, config: &ConversionConfig)
    ensures
        texts(final(args)@) == texts(old(args)@) + audio_codec_args(*config),
{
    let ghost before = texts(args@);
    let ghost mut added: Seq<Seq<char>> = Seq::empty();
    assert(texts(args@) =~= before + added);
    if config.selected_audio_tracks.len() > 0 {
        push_text(args, "-c:a");
        push_text(args, config.audio_codec.as_str());
        proof {
            added = seq!["-c:a"@, config.audio_codec@];
            assert(texts(args@) =~= before + added);
        }
        let codec = config.audio_codec.as_str();
        if !(str_eq(codec, "flac") || str_eq(codec, "alac") || str_eq(codec, "pcm_s16le")) {
            push_text(args, "-b:a");
            push_string(args, concat2(config.audio_bitrate.as_str(), "k"));
            proof {
                added = seq!["-c:a"@, config.audio_codec@, "-b:a"@, config.audio_bitrate@ + "k"@];
                assert(texts(args@) =~= before + added);
            }
        }
    }
    let ghost codec_part = added;
    if str_eq(config.audio_channels.as_str(), "stereo") {
        push_text(args, "-ac");
        push_text(args, "2");
        proof {
            added = codec_part + seq!["-ac"@, "2"@];
            assert(texts(args@) =~= before + added);
        }
    } else if str_eq(config.audio_channels.as_str(), "mono") {
        push_text(args, "-ac");
        push_text(args, "1");
        proof {
            added = codec_part + seq!["-ac"@, "1"@];
            assert(texts(args@) =~= before + added);
        }
    }
    assert(added =~= audio_codec_args(*config));
}

/// Adds the arguments that copy the audio as it is.
pub fn add_audio_codec_args_copy(args: &mut Vec<String>)
    ensures
        texts(final(args)@) == texts(old(args)@) + seq!["-c:a"@, "copy"@],
{
    let ghost before = texts(args@);
    push_text(args, "-c:a");
    push_text(args, "copy");
    assert(texts(args@) =~= before + seq!["-c:a"@, "copy"@]);
}

/// Whether subtitles are burnt into the picture: a path for them is given
/// and is not empty.
pub open spec fn burns_subtitles(config: ConversionConfig) -> bool {
    config.subtitle_burn_path matches Some(path) && path@.len() > 0
}

/// The arguments that copy the subtitle streams, unless subtitles are burnt
/// into the picture.
pub open spec fn subtitle_copy_args(config: ConversionConfig) -> Seq<Seq<char>> {
    if burns_subtitles(config) {
        Seq::empty()
    } else {
        seq!["-c:s"@, "copy"@]
    }
}

/// Whether subtitles are burnt into the picture.
pub fn has_burn_path(config: &ConversionConfig) -> (burns: bool)
    ensures
        burns == burns_subtitles(*config),
{
    match &config.subtitle_burn_path {
        Some(path) => path.as_str().unicode_len() > 0,
        None => false,
    }
}

/// Adds the arguments that copy the subtitle streams, unless subtitles are
/// burnt into the picture.
pub fn add_subtitle_copy_args(args: &mut Vec<String>, config: &ConversionConfig)
    ensures
        texts(final(args)@) == texts(old(args)@) + subtitle_copy_args(*config),
{
    let ghost before = texts(args@);
    if !has_burn_path(config) {
        push_text(args, "-c:s");
        push_text(args, "copy");
        assert(texts(args@) =~= before + seq!["-c:s"@, "copy"@]);
    } else {
        assert(texts(args@) =~= before + Seq::<Seq<char>>::empty());
    }
}

/// The arguments that set the frame rate, unless it stays as it is.
pub open spec fn fps_args(config: ConversionConfig) -> Seq<Seq<char>> {
    if config.fps@ == "original"@ {
        Seq::empty()
    } else {
        seq!["-r"@, config.fps@]
    }
}

/// Adds the arguments that set the frame rate, unless it stays as it is.
pub fn add_fps_args(args: &mut Vec<String>, config: &ConversionConfig)
    ensures
        texts(final(args)@) == texts(old(args)@) + fps_args(*config),
{
    let ghost before = texts(args@);
    if !str_eq(config.fps.as_str(), "original") {
        push_text(args, "-r");
        push_text(args, config.fps.as_str());
        assert(texts(args@) =~= before + seq!["-r"@, config.fps@]);
    } else {
        assert(texts(args@) =~= before + Seq::<Seq<char>>::empty());
    }
}

} // verus!
