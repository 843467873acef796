//! The arguments of the three stages of the frame pipeline, and the checks
//! that the frame processor has to pass before it is used.

use vstd::prelude::*;
use vstd::string::StringExecFns;
use crate::conversion::args::{
    add_audio_filter_args, add_end_args, add_metadata_flags, add_seek_args, add_track_maps,
    audio_filter_args, end_args, metadata_flags, seek_args, track_maps,
};
use crate::conversion::codec::{
    add_audio_codec_args, add_fps_args, add_subtitle_copy_args, add_video_codec_args,
    audio_codec_args, fps_args, subtitle_copy_args, video_codec_args,
};
use crate::conversion::error::{ConversionError, ErrorKind};
use crate::conversion::filters::{build_video_filters, video_filters};
use crate::conversion::types::{ConversionConfig, MetadataConfig, MetadataMode};
use crate::conversion::upscale::{compute_upscale_threads, upscale_threads};
use crate::conversion::utils::{
    is_nvenc_codec, is_videotoolbox_codec, nvenc_name, videotoolbox_name,
};
use crate::paths::{join, path_join};
use crate::text::{
    ascii_lowercase, chars_contain, chars_of, concat2, contains_text, join_texts, joined,
    parse_u32, parsed_u32, push_string, push_text, str_eq, texts, to_ascii_lowercase, trim,
    trimmed,
};

verus! {

/// The name of the scratch directory of a job.
pub fn temp_dir_name(id: &str) -> (name: String)
    ensures
        name@ == "frame_upscale_"@ + id@,
{
    concat2("frame_upscale_", id)
}

/// The pattern under which the frames lie in a directory.
pub open spec fn frame_pattern(dir: Seq<char>) -> Seq<char> {
    path_join(dir, "frame_%08d.png"@)
}

/// The arguments that let the hardware decode, where the configuration
/// asks for it and the encoder is one of the hardware's.
pub open spec fn hw_decode_args(config: ConversionConfig) -> Seq<Seq<char>> {
    if config.hw_decode && nvenc_name(config.video_codec@) {
        seq!["-hwaccel"@, "cuda"@]
    } else if config.hw_decode && videotoolbox_name(config.video_codec@) {
        seq!["-hwaccel"@, "videotoolbox"@]
    } else {
        Seq::empty()
    }
}

/// The filter argument of the decoding stage: the video filters without the
/// scale, where there are any.
pub open spec fn decode_filter_args(config: ConversionConfig) -> Seq<Seq<char>> {
    if video_filters(config, false).len() > 0 {
        seq!["-vf"@, joined(video_filters(config, false), ","@)]
    } else {
        Seq::empty()
    }
}

/// The arguments with which the encoder writes the frames of `file_path`
/// as pictures into `frames_dir`, at the constant frame rate `fps`.
pub open spec fn decode_args(
    file_path: Seq<char>,
    frames_dir: Seq<char>,
    fps: Seq<char>,
    config: ConversionConfig,
) -> Seq<Seq<char>> {
    hw_decode_args(config) + seek_args(config) + seq!["-i"@, file_path] + end_args(config)
        + decode_filter_args(config) + seq![
        "-r"@,
        fps,
        "-vsync"@,
        "cfr"@,
        frame_pattern(frames_dir),
    ]
}

fn add_hw_decode_args(args: &mut Vec<String>, config: &ConversionConfig)
    ensures
        texts(final(args)@) == texts(old(args)@) + hw_decode_args(*config),
{
    let ghost before = texts(args@);
    if config.hw_decode && is_nvenc_codec(config.video_codec.as_str()) {
        push_text(args, "-hwaccel");
        push_text(args, "cuda");
        assert(texts(args@) =~= before + seq!["-hwaccel"@, "cuda"@]);
    } else if config.hw_decode && is_videotoolbox_codec(config.video_codec.as_str()) {
        push_text(args, "-hwaccel");
        push_text(args, "videotoolbox");
        assert(texts(args@) =~= before + seq!["-hwaccel"@, "videotoolbox"@]);
    } else {
        assert(texts(args@) =~= before + Seq::<Seq<char>>::empty());
    }
}

fn add_decode_filter_args(args: &mut Vec<String>, config: &ConversionConfig)
    ensures
        texts(final(args)@) == texts(old(args)@) + decode_filter_args(*config),
{
    let ghost before = texts(args@);
    let filters = build_video_filters(config, false);
    if filters.len() > 0 {
        push_text(args, "-vf");
        push_string(args, join_texts(&filters, ","));
        assert(texts(args@) =~= before + seq!["-vf"@, joined(video_filters(*config, false), ","@)]);
    } else {
        assert(texts(args@) =~= before + Seq::<Seq<char>>::empty());
    }
}

/// The arguments of the decoding stage.
pub fn build_decode_args(
    file_path: &str,
    frames_dir: &str,
    fps: &str,
    config: &ConversionConfig,
) -> (args: Vec<String>)
    ensures
        texts(args@) == decode_args(file_path@, frames_dir@, fps@, *config),
{
    let mut args: Vec<String> = Vec::new();
    assert(texts(args@) =~= Seq::<Seq<char>>::empty());
    add_hw_decode_args(&mut args, config);
    add_seek_args(&mut args, config);
    let ghost head = texts(args@);
    push_text(&mut args, "-i");
    push_text(&mut args, file_path);
    assert(texts(args@) =~= head + seq!["-i"@, file_path@]);
    add_end_args(&mut args, config);
    add_decode_filter_args(&mut args, config);
    let ghost body = texts(args@);
    push_text(&mut args, "-r");
    push_text(&mut args, fps);
    push_text(&mut args, "-vsync");
    push_text(&mut args, "cfr");
    push_string(&mut args, join(frames_dir, "frame_%08d.png"));
    assert(texts(args@) =~= body + seq![
        "-r"@,
        fps@,
        "-vsync"@,
        "cfr"@,
        frame_pattern(frames_dir@),
    ]);
    args
}

/// The number that a text writes, or `fallback` where it writes none.
pub open spec fn number_or(text: Seq<char>, fallback: u32) -> u32 {
    match parsed_u32(text) {
        Some(n) => n,
        None => fallback,
    }
}

/// A measure of the source, or `fallback` where the probe found none.
pub open spec fn measure_or(measure: Option<u32>, fallback: u32) -> u32 {
    match measure {
        Some(m) => m,
        None => fallback,
    }
}

/// The arguments with which the frame processor enlarges the pictures of
/// `input_dir` into `output_dir`, `scale` times, with the model `model` of
/// the directory `models_dir`. A source of unknown size counts as 1920 by
/// 1080, and a scale that is no number as 2, where the threads are set.
pub open spec fn upscaler_args(
    input_dir: Seq<char>,
    output_dir: Seq<char>,
    models_dir: Seq<char>,
    scale: Seq<char>,
    model: Seq<char>,
    width: Option<u32>,
    height: Option<u32>,
    cpus: u32,
) -> Seq<Seq<char>> {
    seq![
        "-v"@,
        "-i"@,
        input_dir,
        "-o"@,
        output_dir,
        "-s"@,
        scale,
        "-f"@,
        "png"@,
        "-m"@,
        models_dir,
        "-n"@,
        model,
        "-j"@,
        upscale_threads(measure_or(width, 1920), measure_or(height, 1080), number_or(scale, 2), cpus),
        "-g"@,
        "0"@,
        "-t"@,
        "0"@,
    ]
}

/// The arguments of the stage that processes the frames.
pub fn build_upscaler_args(
    input_dir: &str,
    output_dir: &str,
    models_dir: &str,
    scale: &str,
    model: &str,
    width: Option<u32>,
    height: Option<u32>,
    cpus: u32,
) -> (args: Vec<String>)
    ensures
        texts(args@) == upscaler_args(
            input_dir@,
            output_dir@,
            models_dir@,
            scale@,
            model@,
            width,
            height,
            cpus,
        ),
{
    let w: u32 = match width {
        Some(w) => w,
        None => 1920,
    };
    let h: u32 = match height {
        Some(h) => h,
        None => 1080,
    };
    let factor: u32 = match parse_u32(&chars_of(scale)) {
        Some(n) => n,
        None => 2,
    };
    let mut args: Vec<String> = Vec::new();
    assert(texts(args@) =~= Seq::<Seq<char>>::empty());
    push_text(&mut args, "-v");
    push_text(&mut args, "-i");
    push_text(&mut args, input_dir);
    push_text(&mut args, "-o");
    push_text(&mut args, output_dir);
    push_text(&mut args, "-s");
    push_text(&mut args, scale);
    push_text(&mut args, "-f");
    push_text(&mut args, "png");
    push_text(&mut args, "-m");
    push_text(&mut args, models_dir);
    push_text(&mut args, "-n");
    push_text(&mut args, model);
    push_text(&mut args, "-j");
    push_string(&mut args, compute_upscale_threads(w, h, factor, cpus));
    push_text(&mut args, "-g");
    push_text(&mut args, "0");
    push_text(&mut args, "-t");
    push_text(&mut args, "0");
    assert(texts(args@) =~= upscaler_args(
        input_dir@,
        output_dir@,
        models_dir@,
        scale@,
        model@,
        width,
        height,
        cpus,
    ));
    args
}

/// Whether no subtitles are burnt in: no path is given, or only white space.
pub open spec fn burn_path_blank(config: ConversionConfig) -> bool {
    match config.subtitle_burn_path {
        Some(path) => trim(path@).len() == 0,
        None => true,
    }
}

/// Whether no subtitles are burnt in.
pub fn has_blank_burn_path(config: &ConversionConfig) -> (blank: bool)
    ensures
        blank == burn_path_blank(*config),
{
    match &config.subtitle_burn_path {
        Some(path) => trimmed(&chars_of(path.as_str())).len() == 0,
        None => true,
    }
}

/// How the encoding stage treats metadata: that of the frames is dropped
/// where the mode is to clean or to replace, that of the source is kept
/// where the mode is to preserve, and the fields of the configuration are
/// written unless the mode is to clean.
pub open spec fn encode_metadata_args(metadata: MetadataConfig) -> Seq<Seq<char>> {
    match metadata.mode {
        MetadataMode::Clean => seq!["-map_metadata"@, "-1"@],
        MetadataMode::Replace => seq!["-map_metadata"@, "-1"@] + metadata_flags(metadata),
        MetadataMode::Preserve => seq!["-map_metadata"@, "1"@] + metadata_flags(metadata),
    }
}

/// The streams of the output of the encoding stage: the picture from the
/// frames; the audio from the source, the selected tracks or all; the
/// subtitles from the source, the selected tracks, or all unless subtitles
/// are burnt in.
pub open spec fn encode_stream_args(config: ConversionConfig) -> Seq<Seq<char>> {
    let audio = if config.selected_audio_tracks@.len() > 0 {
        track_maps("1"@, config.selected_audio_tracks@)
    } else {
        seq!["-map"@, "1:a?"@]
    };
    let subs = if config.selected_subtitle_tracks@.len() > 0 {
        track_maps("1"@, config.selected_subtitle_tracks@)
    } else if burn_path_blank(config) {
        seq!["-map"@, "1:s?"@]
    } else {
        Seq::empty()
    };
    seq!["-map"@, "0:v:0"@] + audio + subs
}

/// The subtitle encoder of the encoding stage.
pub open spec fn encode_subtitle_args(config: ConversionConfig) -> Seq<Seq<char>> {
    if config.selected_subtitle_tracks@.len() > 0 || burn_path_blank(config) {
        subtitle_copy_args(config)
    } else {
        Seq::empty()
    }
}

/// The pixel format of the output: that of the source where it has ten or
/// twelve bits, else the common one with eight.
pub open spec fn output_pixel_format(pixel_format: Option<String>) -> Seq<char> {
    match pixel_format {
        Some(pf) => if contains_text(pf@, "10"@) || contains_text(pf@, "12"@) {
            pf@
        } else {
            "yuv420p"@
        },
        None => "yuv420p"@,
    }
}

/// The arguments with which the encoder makes the output from the processed
/// frames in `frames_dir` and from the audio and subtitles of the source.
pub open spec fn upscale_encode_args(
    frames_dir: Seq<char>,
    source: Seq<char>,
    output: Seq<char>,
    fps: Seq<char>,
    config: ConversionConfig,
    pixel_format: Option<String>,
) -> Seq<Seq<char>> {
    seq!["-framerate"@, fps, "-start_number"@, "1"@, "-i"@, frame_pattern(frames_dir)] + seek_args(
        config,
    ) + seq!["-i"@, source] + encode_metadata_args(config.metadata) + encode_stream_args(config)
        + video_codec_args(config) + audio_codec_args(config) + audio_filter_args(config)
        + encode_subtitle_args(config) + fps_args(config) + seq![
        "-pix_fmt"@,
        output_pixel_format(pixel_format),
        "-shortest"@,
        "-y"@,
        output,
    ]
}

fn add_encode_metadata_args(args: &mut Vec<String>, metadata: &MetadataConfig)
    ensures
        texts(final(args)@) == texts(old(args)@) + encode_metadata_args(*metadata),
{
    let ghost before = texts(args@);
    match metadata.mode {
        MetadataMode::Clean => {
            push_text(args, "-map_metadata");
            push_text(args, "-1");
            assert(texts(args@) =~= before + seq!["-map_metadata"@, "-1"@]);
        },
        MetadataMode::Replace => {
            push_text(args, "-map_metadata");
            push_text(args, "-1");
            add_metadata_flags(args, metadata);
            assert(texts(args@) =~= before + (seq!["-map_metadata"@, "-1"@] + metadata_flags(
                *metadata,
            )));
        },
        MetadataMode::Preserve => {
            push_text(args, "-map_metadata");
            push_text(args, "1");
            add_metadata_flags(args, metadata);
            assert(texts(args@) =~= before + (seq!["-map_metadata"@, "1"@] + metadata_flags(
                *metadata,
            )));
        },
    }
}

fn add_encode_stream_args(args: &mut Vec<String>, config: &ConversionConfig)
    ensures
        texts(final(args)@) == texts(old(args)@) + encode_stream_args(*config),
{
    let ghost before = texts(args@);
    push_text(args, "-map");
    push_text(args, "0:v:0");
    let ghost video = seq!["-map"@, "0:v:0"@];
    assert(texts(args@) =~= before + video);
    let ghost mut audio: Seq<Seq<char>> = Seq::empty();
    if config.selected_audio_tracks.len() > 0 {
        add_track_maps(args, "1", &config.selected_audio_tracks);
        proof {
            audio = track_maps("1"@, config.selected_audio_tracks@);
        }
    } else {
        push_text(args, "-map");
        push_text(args, "1:a?");
        proof {
            audio = seq!["-map"@, "1:a?"@];
        }
    }
    assert(texts(args@) =~= before + video + audio);
    let ghost mut subs: Seq<Seq<char>> = Seq::empty();
    if config.selected_subtitle_tracks.len() > 0 {
        add_track_maps(args, "1", &config.selected_subtitle_tracks);
        proof {
            subs = track_maps("1"@, config.selected_subtitle_tracks@);
        }
    } else if has_blank_burn_path(config) {
        push_text(args, "-map");
        push_text(args, "1:s?");
        proof {
            subs = seq!["-map"@, "1:s?"@];
        }
    }
    assert(texts(args@) =~= before + (video + audio + subs));
}

fn add_encode_subtitle_args(args: &mut Vec<String>, config: &ConversionConfig)
    ensures
        texts(final(args)@) == texts(old(args)@) + encode_subtitle_args(*config),
{
    let ghost before = texts(args@);
    if config.selected_subtitle_tracks.len() > 0 || has_blank_burn_path(config) {
        add_subtitle_copy_args(args, config);
    } else {
        assert(texts(args@) =~= before + Seq::<Seq<char>>::empty());
    }
}

/// The pixel format of the output.
pub fn choose_pixel_format(pixel_format: Option<String>) -> (chosen: String)
    ensures
        chosen@ == output_pixel_format(pixel_format),
{
    match pixel_format {
        Some(pf) => {
            let chars = chars_of(pf.as_str());
            if chars_contain(&chars, &chars_of("10")) || chars_contain(&chars, &chars_of("12")) {
                pf
            } else {
                String::from_str("yuv420p")
            }
        },
        None => String::from_str("yuv420p"),
    }
}

/// The arguments of the encoding stage.
pub fn build_upscale_encode_args(
    output_frames_dir: &str,
    source_file_path: &str,
    output_path: &str,
    source_fps: &str,
    config: &ConversionConfig,
    pixel_format: Option<String>,
) -> (args: Vec<String>)
    ensures
        texts(args@) == upscale_encode_args(
            output_frames_dir@,
            source_file_path@,
            output_path@,
            source_fps@,
            *config,
            pixel_format,
        ),
{
    let mut args: Vec<String> = Vec::new();
    assert(texts(args@) =~= Seq::<Seq<char>>::empty());
    push_text(&mut args, "-framerate");
    push_text(&mut args, source_fps);
    push_text(&mut args, "-start_number");
    push_text(&mut args, "1");
    push_text(&mut args, "-i");
    push_string(&mut args, join(output_frames_dir, "frame_%08d.png"));
    let ghost head = seq![
        "-framerate"@,
        source_fps@,
        "-start_number"@,
        "1"@,
        "-i"@,
        frame_pattern(output_frames_dir@),
    ];
    assert(texts(args@) =~= head);
    add_seek_args(&mut args, config);
    let ghost sought = texts(args@);
    push_text(&mut args, "-i");
    push_text(&mut args, source_file_path);
    assert(texts(args@) =~= sought + seq!["-i"@, source_file_path@]);
    add_encode_metadata_args(&mut args, &config.metadata);
    add_encode_stream_args(&mut args, config);
    add_video_codec_args(&mut args, config);
    add_audio_codec_args(&mut args, config);
    add_audio_filter_args(&mut args, config);
    add_encode_subtitle_args(&mut args, config);
    add_fps_args(&mut args, config);
    let ghost body = texts(args@);
    let chosen = choose_pixel_format(pixel_format);
    push_text(&mut args, "-pix_fmt");
    push_string(&mut args, chosen);
    push_text(&mut args, "-shortest");
    push_text(&mut args, "-y");
    push_text(&mut args, output_path);
    assert(texts(args@) =~= body + seq![
        "-pix_fmt"@,
        output_pixel_format(pixel_format),
        "-shortest"@,
        "-y"@,
        output_path@,
    ]);
    args
}

/// What a failed trial run of the frame processor printed: its diagnostic
/// output without the white space around it, or else its regular output.
pub open spec fn preflight_details(stderr: Seq<char>, stdout: Seq<char>) -> Seq<char> {
    if trim(stderr).len() > 0 {
        trim(stderr)
    } else {
        trim(stdout)
    }
}

/// Whether what the frame processor printed is its own help text, whatever
/// the case of its letters.
pub open spec fn looks_like_help(details: Seq<char>) -> bool {
    let lower = ascii_lowercase(details);
    ||| contains_text(lower, "usage: realesrgan-ncnn-vulkan"@)
    ||| contains_text(lower, "-i input-path"@)
    ||| contains_text(lower, "-o output-path"@)
}

/// Why the trial run of the frame processor shows that it cannot be used, if
/// it does: the run failed and printed something other than the help text.
pub open spec fn preflight_fault(
    success: bool,
    stderr: Seq<char>,
    stdout: Seq<char>,
) -> Option<Seq<char>> {
    let details = preflight_details(stderr, stdout);
    if success || looks_like_help(details) {
        None
    } else if details.len() == 0 {
        Some("Upscaler preflight check failed: unknown error"@)
    } else {
        Some("Upscaler preflight check failed: "@ + details)
    }
}

/// Judges the trial run of the frame processor by whether it succeeded and
/// by what it printed.
pub fn preflight_verdict(
    success: bool,
    stderr: &str,
    stdout: &str,
) -> (result: Result<(), ConversionError>)
    ensures
        match preflight_fault(success, stderr@, stdout@) {
            Some(reason) => (result matches Err(e) && e@ == (ErrorKind::InvalidInput, reason)),
            None => result is Ok,
        },
{
    if success {
        return Ok(());
    }
    let err = trimmed(&chars_of(stderr));
    let details = if err.len() > 0 {
        err
    } else {
        trimmed(&chars_of(stdout))
    };
    let lower = to_ascii_lowercase(&details);
    let help = chars_contain(&lower, &chars_of("usage: realesrgan-ncnn-vulkan")) || chars_contain(
        &lower,
        &chars_of("-i input-path"),
    ) || chars_contain(&lower, &chars_of("-o output-path"));
    if help {
        Ok(())
    } else if details.len() == 0 {
        Err(
            ConversionError::InvalidInput(
                String::from_str("Upscaler preflight check failed: unknown error"),
            ),
        )
    } else {
        Err(
            ConversionError::InvalidInput(
                String::from_str("Upscaler preflight check failed: ").concat(
                    crate::text::string_of(&details).as_str(),
                ),
            ),
        )
    }
}

/// The detail of the error for models that are not where they should be.
pub open spec fn models_missing_text(mode: Seq<char>, models_dir: Seq<char>) -> Seq<char> {
    "ML upscaling models are missing for '"@ + mode + "'. Expected files in '"@ + models_dir
        + "'. Run `bun run setup:upscaler` and rebuild the app."@
}

/// Whether the two files of a model are among `files`.
pub open spec fn model_present(model: Seq<char>, files: Seq<String>) -> bool {
    texts(files).contains(model + ".param"@) && texts(files).contains(model + ".bin"@)
}

fn lists_name(files: &Vec<String>, name: &str) -> (found: bool)
    ensures
        found == texts(files@).contains(name@),
{
    let mut i: usize = 0;
    while i < files.len()
        invariant
            i <= files@.len(),
            forall|j: int| 0 <= j < i ==> files@[j]@ != name@,
        decreases files@.len() - i,
    {
        if str_eq(files[i].as_str(), name) {
            assert(texts(files@)[i as int] == name@);
            return true;
        }
        i += 1;
    }
    proof {
        if texts(files@).contains(name@) {
            let j = choose|j: int| 0 <= j < texts(files@).len() && texts(files@)[j] == name@;
            assert(files@[j]@ == name@);
        }
    }
    false
}

/// Checks that the model of an upscale mode is there: `files` are the names
/// of the files in the directory of the models. An unknown mode, and a model
/// of which a file is missing, are invalid input.
pub fn check_upscale_models(
    mode: &str,
    models_dir: &str,
    files: &Vec<String>,
) -> (result: Result<(), ConversionError>)
    ensures
        match crate::conversion::upscale::upscale_mode(mode@) {
            Some((_, model)) => if model_present(model, files@) {
                result is Ok
            } else {
                result matches Err(e) && e@ == (
                    ErrorKind::InvalidInput,
                    models_missing_text(mode@, models_dir@),
                )
            },
            None => (result matches Err(e) && e@ == (
                ErrorKind::InvalidInput,
                "Invalid upscale mode: "@ + mode@,
            )),
        },
{
    let model = match crate::conversion::upscale::resolve_upscale_mode(mode) {
        Ok(pair) => pair.1,
        Err(e) => {
            return Err(e);
        },
    };
    let param = concat2(model, ".param");
    let bin = concat2(model, ".bin");
    if lists_name(files, param.as_str()) && lists_name(files, bin.as_str()) {
        Ok(())
    } else {
        Err(
            ConversionError::InvalidInput(
                String::from_str("ML upscaling models are missing for '").concat(mode).concat(
                    "'. Expected files in '",
                ).concat(models_dir).concat("'. Run `bun run setup:upscaler` and rebuild the app."),
            ),
        )
    }
}

} // verus!
