//! The arguments of the encoder for a conversion, the place of its output,
//! and the checks that a request has to pass.

use vstd::prelude::*;
use vstd::string::StringExecFns;
use crate::conversion::codec::{
    add_audio_codec_args, add_fps_args, add_subtitle_copy_args, add_video_codec_args,
    audio_codec_args, fps_args, subtitle_copy_args, video_codec_args,
};
use crate::conversion::error::{ConversionError, ErrorKind};
use crate::conversion::filters::{
    audio_filters, build_audio_filters, build_video_filters, push_thousandths, thousandths_text,
    video_filters,
};
use crate::conversion::types::{ConversionConfig, MetadataConfig, MetadataMode};
use crate::conversion::utils::{audio_only_name, is_audio_only_container, parse_time, parsed_time};
use crate::paths::{
    can_be_extension, extension_of, is_extension_text, join, parent_of, path_extension, path_join,
    path_parent, path_with_extension, with_extension,
};
use crate::text::{
    chars_of, concat2, decimal_text, join_texts, joined, lowercase, parse_decimal, parse_i32,
    parsed_decimal, parsed_i32, push_decimal, push_string, push_text, str_eq, string_of, texts,
    trim, trimmed,
};

verus! {

/// The argument pair for one metadata field, where the field is given and
/// not empty.
pub open spec fn metadata_flag(key: Seq<char>, value: Option<String>) -> Seq<Seq<char>> {
    match value {
        Some(v) => if v@.len() > 0 {
            seq!["-metadata"@, key + "="@ + v@]
        } else {
            Seq::empty()
        },
        None => Seq::empty(),
    }
}

/// The arguments that write the metadata fields: title, artist, album,
/// genre, date and comment, each where it is given.
pub open spec fn metadata_flags(metadata: MetadataConfig) -> Seq<Seq<char>> {
    metadata_flag("title"@, metadata.title) + metadata_flag("artist"@, metadata.artist)
        + metadata_flag("album"@, metadata.album) + metadata_flag("genre"@, metadata.genre)
        + metadata_flag("date"@, metadata.date) + metadata_flag("comment"@, metadata.comment)
}

fn add_metadata_flag(args: &mut Vec<String>, key: &str, value: &Option<String>)
    ensures
        texts(final(args)@) == texts(old(args)@) + metadata_flag(key@, *value),
{
    let ghost before = texts(args@);
    match value {
        Some(v) => {
            if v.as_str().unicode_len() > 0 {
                push_text(args, "-metadata");
                push_string(args, String::from_str(key).concat("=").concat(v.as_str()));
                assert(texts(args@) =~= before + seq!["-metadata"@, key@ + "="@ + v@]);
            } else {
                assert(texts(args@) =~= before + Seq::<Seq<char>>::empty());
            }
        },
        None => {
            assert(texts(args@) =~= before + Seq::<Seq<char>>::empty());
        },
    }
}

/// Adds the arguments that write the metadata fields.
pub fn add_metadata_flags(args: &mut Vec<String>, metadata: &MetadataConfig)
    ensures
        texts(final(args)@) == texts(old(args)@) + metadata_flags(*metadata),
{
    let ghost before = texts(args@);
    add_metadata_flag(args, "title", &metadata.title);
    add_metadata_flag(args, "artist", &metadata.artist);
    add_metadata_flag(args, "album", &metadata.album);
    add_metadata_flag(args, "genre", &metadata.genre);
    add_metadata_flag(args, "date", &metadata.date);
    add_metadata_flag(args, "comment", &metadata.comment);
    assert(texts(args@) =~= before + metadata_flags(*metadata));
}

/// The name that the client wants for the output, where it gave one that is
/// more than white space: the name without the white space around it.
pub open spec fn custom_name(output_name: Option<String>) -> Option<Seq<char>> {
    match output_name {
        Some(name) => if trim(name@).len() > 0 {
            Some(trim(name@))
        } else {
            None
        },
        None => None,
    }
}

/// The directory of a file: what is in front of its last component, empty
/// where there is nothing.
pub open spec fn directory_of(file_path: Seq<char>) -> Seq<char> {
    match path_parent(file_path) {
        Some(dir) => dir,
        None => Seq::empty(),
    }
}

/// Where the output of a conversion is written. With a custom name it lies
/// beside the input under that name; where the name has no extension it
/// gets the container as its extension, unless the container holds a path
/// separator and so can be none. Without a custom name the output is the
/// input path with `_converted.` and the container behind it.
pub open spec fn output_path(
    file_path: Seq<char>,
    container: Seq<char>,
    output_name: Option<String>,
) -> Seq<char> {
    match custom_name(output_name) {
        Some(name) => {
            let beside = path_join(directory_of(file_path), name);
            if path_extension(beside) is None && is_extension_text(container) {
                path_with_extension(beside, container)
            } else {
                beside
            }
        },
        None => file_path + "_converted."@ + container,
    }
}

/// The name that the client wants for the output: the name that was given,
/// without the white space around it, unless nothing is left of it.
pub fn custom_output_name(output_name: &Option<String>) -> (name: Option<String>)
    ensures
        match name {
            Some(n) => custom_name(*output_name) == Some(n@),
            None => custom_name(*output_name) is None,
        },
{
    match output_name {
        Some(name) => {
            let kept = trimmed(&chars_of(name.as_str()));
            if kept.len() > 0 {
                Some(string_of(&kept))
            } else {
                None
            }
        },
        None => None,
    }
}

/// Where the output is written when the client names none: the input path
/// with `_converted.` and the container behind it.
pub fn default_output_path(file_path: &str, container: &str) -> (path: String)
    ensures
        path@ == file_path@ + "_converted."@ + container@,
{
    String::from_str(file_path).concat("_converted.").concat(container)
}

/// Where the output of a conversion is written.
pub fn build_output_path(
    file_path: &str,
    container: &str,
    output_name: Option<String>,
) -> (path: String)
    ensures
        path@ == output_path(file_path@, container@, output_name),
{
    match custom_output_name(&output_name) {
        Some(name) => {
            let dir = match parent_of(file_path) {
                Some(dir) => dir,
                None => String::new(),
            };
            let beside = join(dir.as_str(), name.as_str());
            match extension_of(beside.as_str()) {
                Some(_) => beside,
                None => {
                    if can_be_extension(container) {
                        with_extension(beside.as_str(), container)
                    } else {
                        beside
                    }
                },
            }
        },
        None => default_output_path(file_path, container),
    }
}

/// What the file system says about a path.
#[derive(Clone, Copy, Debug, PartialEq, Eq, Structural)]
pub enum PathKind {
    /// Nothing is there.
    Missing,
    /// Something is there that is no regular file.
    NotAFile,
    /// A regular file.
    File,
}

/// What is wrong with a custom size, if anything: each measure, `-1` where
/// none is given, has to be a whole number, not zero, and not below `-1`.
pub open spec fn size_fault(config: ConversionConfig) -> Option<Seq<char>> {
    let w = match config.custom_width {
        Some(v) => v@,
        None => "-1"@,
    };
    let h = match config.custom_height {
        Some(v) => v@,
        None => "-1"@,
    };
    match (parsed_i32(w), parsed_i32(h)) {
        (None, _) => Some("Invalid custom width: "@ + w),
        (Some(_), None) => Some("Invalid custom height: "@ + h),
        (Some(width), Some(height)) => if width == 0 || height == 0 {
            Some("Resolution dimensions cannot be zero"@)
        } else if width < -1 || height < -1 {
            Some("Resolution dimensions cannot be negative (except -1 for auto)"@)
        } else {
            None
        },
    }
}

/// The digits of a decimal number that may have a sign in front.
pub open spec fn unsigned_part(s: Seq<char>) -> Seq<char> {
    if s.len() > 0 && (s[0] == '-' || s[0] == '+') {
        s.drop_first()
    } else {
        s
    }
}

/// What is wrong with a video bit rate, if anything: it has to be a decimal
/// number, with or without a sign, and more than zero.
pub open spec fn bitrate_fault(bitrate: Seq<char>) -> Option<Seq<char>> {
    match parsed_decimal(unsigned_part(bitrate)) {
        None => Some("Invalid video bitrate: "@ + bitrate),
        Some(value) => if value == 0 || (bitrate.len() > 0 && bitrate[0] == '-') {
            Some("Video bitrate must be positive"@)
        } else {
            None
        },
    }
}

/// Why a request is rejected, if it is: the input has to be a regular file;
/// a custom size has to be sound; and where the video is encoded at a bit
/// rate, the rate has to be positive.
pub open spec fn input_fault(
    file_path: Seq<char>,
    kind: PathKind,
    config: ConversionConfig,
) -> Option<Seq<char>> {
    if kind == PathKind::Missing {
        Some("Input file does not exist: "@ + file_path)
    } else if kind == PathKind::NotAFile {
        Some("Input path is not a file: "@ + file_path)
    } else if config.resolution@ == "custom"@ && size_fault(config) is Some {
        size_fault(config)
    } else if config.video_bitrate_mode@ == "bitrate"@ && !audio_only_name(
        lowercase(config.container@),
    ) {
        bitrate_fault(config.video_bitrate@)
    } else {
        None
    }
}

fn check_size(config: &ConversionConfig) -> (fault: Option<String>)
    ensures
        match fault {
            Some(text) => size_fault(*config) == Some(text@),
            None => size_fault(*config) is None,
        },
{
    let w: String = match &config.custom_width {
        Some(v) => v.clone(),
        None => String::from_str("-1"),
    };
    let h: String = match &config.custom_height {
        Some(v) => v.clone(),
        None => String::from_str("-1"),
    };
    let width = match parse_i32(&chars_of(w.as_str())) {
        Some(width) => width,
        None => {
            return Some(concat2("Invalid custom width: ", w.as_str()));
        },
    };
    let height = match parse_i32(&chars_of(h.as_str())) {
        Some(height) => height,
        None => {
            return Some(concat2("Invalid custom height: ", h.as_str()));
        },
    };
    if width == 0 || height == 0 {
        Some(String::from_str("Resolution dimensions cannot be zero"))
    } else if width < -1 || height < -1 {
        Some(String::from_str("Resolution dimensions cannot be negative (except -1 for auto)"))
    } else {
        None
    }
}

fn check_bitrate(bitrate: &str) -> (fault: Option<String>)
    ensures
        match fault {
            Some(text) => bitrate_fault(bitrate@) == Some(text@),
            None => bitrate_fault(bitrate@) is None,
        },
{
    let chars = chars_of(bitrate);
    let signed = chars.len() > 0 && (chars[0] == '-' || chars[0] == '+');
    let negative = chars.len() > 0 && chars[0] == '-';
    let body = if signed {
        crate::text::slice_of(&chars, 1, chars.len())
    } else {
        crate::text::slice_of(&chars, 0, chars.len())
    };
    proof {
        assert(body@ =~= unsigned_part(bitrate@));
    }
    match parse_decimal(&body) {
        None => Some(concat2("Invalid video bitrate: ", bitrate)),
        Some(value) => {
            if value == 0 || negative {
                Some(String::from_str("Video bitrate must be positive"))
            } else {
                None
            }
        },
    }
}

/// Checks a request before it is queued: `kind` is what the file system
/// says about `file_path`. A request that is rejected is invalid input, with
/// the reason as its detail.
pub fn validate_task_input(
    file_path: &str,
    kind: PathKind,
    config: &ConversionConfig,
) -> (result: Result<(), ConversionError>)
    ensures
        match input_fault(file_path@, kind, *config) {
            Some(reason) => (result matches Err(e) && e@ == (ErrorKind::InvalidInput, reason)),
            None => result is Ok,
        },
{
    match kind {
        PathKind::Missing => {
            return Err(
                ConversionError::InvalidInput(concat2("Input file does not exist: ", file_path)),
            );
        },
        PathKind::NotAFile => {
            return Err(
                ConversionError::InvalidInput(concat2("Input path is not a file: ", file_path)),
            );
        },
        PathKind::File => {},
    }
    if str_eq(config.resolution.as_str(), "custom") {
        match check_size(config) {
            Some(text) => {
                return Err(ConversionError::InvalidInput(text));
            },
            None => {},
        }
    }
    if str_eq(config.video_bitrate_mode.as_str(), "bitrate") && !is_audio_only_container(
        config.container.as_str(),
    ) {
        match check_bitrate(config.video_bitrate.as_str()) {
            Some(text) => {
                return Err(ConversionError::InvalidInput(text));
            },
            None => {},
        }
    }
    Ok(())
}

/// Whether a text is given and not empty.
pub open spec fn given(text: Option<String>) -> bool {
    text matches Some(t) && t@.len() > 0
}

/// The arguments that seek to the trim start, where one is given.
pub open spec fn seek_args(config: ConversionConfig) -> Seq<Seq<char>> {
    match config.start_time {
        Some(start) => if start@.len() > 0 {
            seq!["-ss"@, start@]
        } else {
            Seq::empty()
        },
        None => Seq::empty(),
    }
}

/// A duration in millionths of a second as thousandths, rounded to the
/// nearest, halves up.
pub open spec fn rounded_millis(micros: u64) -> nat {
    (micros / 1000 + if micros % 1000 >= 500 {
        1int
    } else {
        0int
    }) as nat
}

/// The arguments that end the output at the trim end. With a trim start the
/// length of the cut is named, where both times can be read and the end is
/// after the start; without one the end itself is named.
pub open spec fn end_args(config: ConversionConfig) -> Seq<Seq<char>> {
    match config.end_time {
        Some(end) => if end@.len() == 0 {
            Seq::empty()
        } else if given(config.start_time) {
            match (parsed_time(config.start_time->0@), parsed_time(end@)) {
                (Some(from), Some(to)) => if to > from {
                    seq!["-t"@, thousandths_text(rounded_millis((to - from) as u64))]
                } else {
                    Seq::empty()
                },
                _ => Seq::empty(),
            }
        } else {
            seq!["-to"@, end@]
        },
        None => Seq::empty(),
    }
}

/// The arguments that treat the metadata of the source: they are dropped
/// where the mode is to clean or to replace, and the fields of the
/// configuration are written unless the mode is to clean.
pub open spec fn metadata_args(metadata: MetadataConfig) -> Seq<Seq<char>> {
    match metadata.mode {
        MetadataMode::Clean => seq!["-map_metadata"@, "-1"@],
        MetadataMode::Replace => seq!["-map_metadata"@, "-1"@] + metadata_flags(metadata),
        MetadataMode::Preserve => metadata_flags(metadata),
    }
}

/// One `-map` pair for each track, with `source` and a colon in front of
/// its number.
pub open spec fn track_maps(source: Seq<char>, tracks: Seq<u32>) -> Seq<Seq<char>>
    decreases tracks.len(),
{
    if tracks.len() == 0 {
        Seq::empty()
    } else {
        track_maps(source, tracks.drop_last()) + seq![
            "-map"@,
            source + ":"@ + decimal_text(tracks.last() as nat),
        ]
    }
}

/// Whether a configuration writes audio only.
pub open spec fn audio_only(config: ConversionConfig) -> bool {
    audio_only_name(lowercase(config.container@))
}

/// The arguments for the picture: `-vn` for a container that holds audio
/// only; else the encoder, the filters where there are any, and the frame
/// rate.
pub open spec fn picture_args(config: ConversionConfig) -> Seq<Seq<char>> {
    if audio_only(config) {
        seq!["-vn"@]
    } else {
        let filters = video_filters(config, true);
        let vf = if filters.len() > 0 {
            seq!["-vf"@, joined(filters, ","@)]
        } else {
            Seq::empty()
        };
        video_codec_args(config) + vf + fps_args(config)
    }
}

/// The arguments that choose the streams of the output: the first video
/// stream where tracks are selected, the selected audio tracks with their
/// encoder, and the selected subtitle tracks, or all of them where none is
/// selected.
pub open spec fn stream_args(config: ConversionConfig) -> Seq<Seq<char>> {
    let audio = config.selected_audio_tracks@;
    let subs = config.selected_subtitle_tracks@;
    let video = if (audio.len() > 0 || subs.len() > 0) && !audio_only(config) {
        seq!["-map"@, "0:v:0"@]
    } else {
        Seq::empty()
    };
    let audio_part = if audio.len() > 0 {
        track_maps("0"@, audio) + audio_codec_args(config)
    } else {
        Seq::empty()
    };
    let subtitle_part = if subs.len() > 0 {
        track_maps("0"@, subs)
    } else if !audio_only(config) {
        seq!["-map"@, "0:s?"@]
    } else {
        Seq::empty()
    };
    video + audio_part + subtitle_part
}

/// The audio filter argument, where there are audio filters.
pub open spec fn audio_filter_args(config: ConversionConfig) -> Seq<Seq<char>> {
    if audio_filters(config).len() > 0 {
        seq!["-af"@, joined(audio_filters(config), ","@)]
    } else {
        Seq::empty()
    }
}

/// The arguments of the encoder for one conversion, in order.
pub open spec fn ffmpeg_args(
    input: Seq<char>,
    output: Seq<char>,
    config: ConversionConfig,
) -> Seq<Seq<char>> {
    seek_args(config) + seq!["-i"@, input] + end_args(config) + metadata_args(config.metadata)
        + picture_args(config) + stream_args(config) + subtitle_copy_args(config)
        + audio_filter_args(config) + seq!["-y"@, output]
}

/// Adds the arguments that seek to the trim start.
pub fn add_seek_args(args: &mut Vec<String>, config: &ConversionConfig)
    ensures
        texts(final(args)@) == texts(old(args)@) + seek_args(*config),
{
    let ghost before = texts(args@);
    match &config.start_time {
        Some(start) => {
            if start.as_str().unicode_len() > 0 {
                push_text(args, "-ss");
                push_text(args, start.as_str());
                assert(texts(args@) =~= before + seq!["-ss"@, start@]);
            } else {
                assert(texts(args@) =~= before + Seq::<Seq<char>>::empty());
            }
        },
        None => {
            assert(texts(args@) =~= before + Seq::<Seq<char>>::empty());
        },
    }
}

fn has_text(text: &Option<String>) -> (yes: bool)
    ensures
        yes == given(*text),
{
    match text {
        Some(t) => t.as_str().unicode_len() > 0,
        None => false,
    }
}

/// Adds the arguments that end the output at the trim end.
pub fn add_end_args(args: &mut Vec<String>, config: &ConversionConfig)
    ensures
        texts(final(args)@) == texts(old(args)@) + end_args(*config),
{
    let ghost before = texts(args@);
    assert(texts(args@) =~= before + Seq::<Seq<char>>::empty());
    let end = match &config.end_time {
        Some(end) => end,
        None => {
            return ;
        },
    };
    if end.as_str().unicode_len() == 0 {
        return ;
    }
    if has_text(&config.start_time) {
        let start = match &config.start_time {
            Some(start) => start,
            None => {
                return ;
            },
        };
        match (parse_time(start.as_str()), parse_time(end.as_str())) {
            (Some(from), Some(to)) => {
                if to > from {
                    let d: u64 = to - from;
                    let millis: u64 = d / 1000 + if d % 1000 >= 500 {
                        1
                    } else {
                        0
                    };
                    let mut text = String::new();
                    push_thousandths(&mut text, millis);
                    assert(text@ =~= thousandths_text(rounded_millis(d)));
                    push_text(args, "-t");
                    push_string(args, text);
                    assert(texts(args@) =~= before + seq![
                        "-t"@,
                        thousandths_text(rounded_millis(d)),
                    ]);
                }
            },
            _ => {},
        }
    } else {
        push_text(args, "-to");
        push_text(args, end.as_str());
        assert(texts(args@) =~= before + seq!["-to"@, end@]);
    }
}

/// Adds the arguments that treat the metadata of the source.
pub fn add_metadata_args(args: &mut Vec<String>, metadata: &MetadataConfig)
    ensures
        texts(final(args)@) == texts(old(args)@) + metadata_args(*metadata),
{
    let ghost before = texts(args@);
    match metadata.mode {
        MetadataMode::Clean => {
            push_text(args, "-map_metadata");
            push_text(args, "-1");
            assert(texts(args@) =~= before + seq!["-map_metadata"@, "-1"@]);
        },
        MetadataMode::Replace => {
            push_text(args, "-map_metadata");
            push_text(args, "-1");
            add_metadata_flags(args, metadata);
            assert(texts(args@) =~= before + (seq!["-map_metadata"@, "-1"@] + metadata_flags(
                *metadata,
            )));
        },
        MetadataMode::Preserve => {
            add_metadata_flags(args, metadata);
        },
    }
}

/// Adds one `-map` pair for each track.
pub fn add_track_maps(args: &mut Vec<String>, source: &str, tracks: &Vec<u32>)
    ensures
        texts(final(args)@) == texts(old(args)@) + track_maps(source@, tracks@),
{
    let ghost before = texts(args@);
    let mut i: usize = 0;
    assert(tracks@.subrange(0, 0) =~= Seq::<u32>::empty());
    assert(texts(args@) =~= before + Seq::<Seq<char>>::empty());
    while i < tracks.len()
        invariant
            i <= tracks@.len(),
            texts(args@) == before + track_maps(source@, tracks@.subrange(0, i as int)),
        decreases tracks@.len() - i,
    {
        proof {
            let upto = tracks@.subrange(0, i + 1);
            assert(upto.drop_last() =~= tracks@.subrange(0, i as int));
            assert(upto.last() == tracks@[i as int]);
        }
        let ghost so_far = texts(args@);
        let mut text = String::from_str(source);
        text.append(":");
        push_decimal(&mut text, tracks[i] as u64);
        push_text(args, "-map");
        push_string(args, text);
        assert(texts(args@) =~= so_far + seq![
            "-map"@,
            source@ + ":"@ + decimal_text(tracks@[i as int] as nat),
        ]);
        i += 1;
    }
    assert(tracks@.subrange(0, tracks@.len() as int) =~= tracks@);
}

fn add_picture_args(args: &mut Vec<String>, config: &ConversionConfig, is_audio_only: bool)
    requires
        is_audio_only == audio_only(*config),
    ensures
        texts(final(args)@) == texts(old(args)@) + picture_args(*config),
{
    let ghost before = texts(args@);
    if is_audio_only {
        push_text(args, "-vn");
        assert(texts(args@) =~= before + seq!["-vn"@]);
    } else {
        add_video_codec_args(args, config);
        let filters = build_video_filters(config, true);
        let ghost mut vf: Seq<Seq<char>> = Seq::empty();
        if filters.len() > 0 {
            push_text(args, "-vf");
            push_string(args, join_texts(&filters, ","));
            proof {
                vf = seq!["-vf"@, joined(video_filters(*config, true), ","@)];
            }
        }
        assert(texts(args@) =~= before + video_codec_args(*config) + vf);
        add_fps_args(args, config);
        assert(texts(args@) =~= before + (video_codec_args(*config) + vf + fps_args(*config)));
    }
}

fn add_stream_args(args: &mut Vec<String>, config: &ConversionConfig, is_audio_only: bool)
    requires
        is_audio_only == audio_only(*config),
    ensures
        texts(final(args)@) == texts(old(args)@) + stream_args(*config),
{
    let ghost before = texts(args@);
    let has_audio = config.selected_audio_tracks.len() > 0;
    let has_subs = config.selected_subtitle_tracks.len() > 0;
    let ghost mut video: Seq<Seq<char>> = Seq::empty();
    if (has_audio || has_subs) && !is_audio_only {
        push_text(args, "-map");
        push_text(args, "0:v:0");
        proof {
            video = seq!["-map"@, "0:v:0"@];
        }
    }
    assert(texts(args@) =~= before + video);
    let ghost mut audio_part: Seq<Seq<char>> = Seq::empty();
    if has_audio {
        add_track_maps(args, "0", &config.selected_audio_tracks);
        add_audio_codec_args(args, config);
        proof {
            audio_part = track_maps("0"@, config.selected_audio_tracks@) + audio_codec_args(*config);
        }
    }
    assert(texts(args@) =~= before + video + audio_part);
    let ghost mut subtitle_part: Seq<Seq<char>> = Seq::empty();
    if has_subs {
        add_track_maps(args, "0", &config.selected_subtitle_tracks);
        proof {
            subtitle_part = track_maps("0"@, config.selected_subtitle_tracks@);
        }
    } else if !is_audio_only {
        push_text(args, "-map");
        push_text(args, "0:s?");
        proof {
            subtitle_part = seq!["-map"@, "0:s?"@];
        }
    }
    assert(texts(args@) =~= before + (video + audio_part + subtitle_part));
}

/// Adds the audio filter argument, where there are audio filters.
pub fn add_audio_filter_args(args: &mut Vec<String>, config: &ConversionConfig)
    ensures
        texts(final(args)@) == texts(old(args)@) + audio_filter_args(*config),
{
    let ghost before = texts(args@);
    let filters = build_audio_filters(config);
    if filters.len() > 0 {
        push_text(args, "-af");
        push_string(args, join_texts(&filters, ","));
        assert(texts(args@) =~= before + seq!["-af"@, joined(audio_filters(*config), ","@)]);
    } else {
        assert(texts(args@) =~= before + Seq::<Seq<char>>::empty());
    }
}

/// The arguments of the encoder for one conversion of `input` to `output`.
pub fn build_ffmpeg_args(
    input: &str,
    output: &str,
    config: &ConversionConfig,
) -> (args: Vec<String>)
    ensures
        texts(args@) == ffmpeg_args(input@, output@, *config),
{
    let mut args: Vec<String> = Vec::new();
    assert(texts(args@) =~= Seq::<Seq<char>>::empty());
    add_seek_args(&mut args, config);
    push_text(&mut args, "-i");
    push_text(&mut args, input);
    assert(texts(args@) =~= seek_args(*config) + seq!["-i"@, input@]);
    add_end_args(&mut args, config);
    add_metadata_args(&mut args, &config.metadata);
    let is_audio_only = is_audio_only_container(config.container.as_str());
    add_picture_args(&mut args, config, is_audio_only);
    add_stream_args(&mut args, config, is_audio_only);
    add_subtitle_copy_args(&mut args, config);
    add_audio_filter_args(&mut args, config);
    let ghost so_far = texts(args@);
    push_text(&mut args, "-y");
    push_text(&mut args, output);
    assert(texts(args@) =~= so_far + seq!["-y"@, output@]);
    args
}

} // verus!
