//! Reading times, frame rates and bit rates, and telling encoders and
//! containers apart.

use vstd::prelude::*;
use vstd::string::StringExecFns;
use crate::conversion::types::FrameRate;
use crate::text::{
    chars_eq_ignore_ascii_case, chars_of, eq_ignoring_ascii_case, find_char, first_index,
    lemma_first_index, lowercase, parse_decimal, parsed_decimal, rows, slice_of, split,
    split_chars, str_eq, to_lowercase, trim, trimmed, DECIMAL_ONE,
};

verus! {

/// `Some(v)` where `v` fits into 64 bits without a sign, `None` where it
/// does not.
pub open spec fn fits_u64(v: int) -> Option<u64> {
    if 0 <= v <= u64::MAX {
        Some(v as u64)
    } else {
        None
    }
}

/// What [`parse_time`] returns for the characters `s`: the time in
/// millionths of a second.
///
/// The text is cut at its colons. One piece is a number of seconds; two are
/// minutes and seconds; three are hours, minutes and seconds. Each piece is a
/// decimal number, and white space around the seconds of a time with colons
/// is ignored. Anything else, and a time that does not fit, is no time.
pub open spec fn parsed_time(s: Seq<char>) -> Option<u64> {
    let parts = split(s, ':');
    if parts.len() == 1 {
        parsed_decimal(parts[0])
    } else if parts.len() == 2 {
        match (parsed_decimal(parts[0]), parsed_decimal(trim(parts[1]))) {
            (Some(m), Some(sec)) => fits_u64(m * 60 + sec),
            _ => None,
        }
    } else if parts.len() == 3 {
        match (parsed_decimal(parts[0]), parsed_decimal(parts[1]), parsed_decimal(trim(parts[2]))) {
            (Some(h), Some(m), Some(sec)) => fits_u64(h * 3600 + m * 60 + sec),
            _ => None,
        }
    } else {
        None
    }
}

fn checked_total(hours: u64, minutes: u64, seconds: u64) -> (total: Option<u64>)
    ensures
        total == fits_u64(hours * 3600 + minutes * 60 + seconds),
{
    let sum: u128 = (hours as u128) * 3600 + (minutes as u128) * 60 + (seconds as u128);
    if sum > u64::MAX as u128 {
        None
    } else {
        Some(sum as u64)
    }
}

/// Reads a time written as `HH:MM:SS`, `MM:SS` or plain seconds, each number
/// with or without decimal places, as millionths of a second.
pub fn parse_time(time_str: &str) -> (time: Option<u64>)
    ensures
        time == parsed_time(time_str@),
{
    let chars = chars_of(time_str);
    let parts = split_chars(&chars, ':');
    proof {
        assert(rows(parts@).len() == parts@.len());
        assert(forall|i: int| 0 <= i < parts@.len() ==> rows(parts@)[i] == parts@[i]@);
    }
    if parts.len() == 1 {
        parse_decimal(&parts[0])
    } else if parts.len() == 2 {
        let m = parse_decimal(&parts[0]);
        let seconds_text = trimmed(&parts[1]);
        let s = parse_decimal(&seconds_text);
        match (m, s) {
            (Some(m), Some(s)) => checked_total(0, m, s),
            _ => None,
        }
    } else if parts.len() == 3 {
        let h = parse_decimal(&parts[0]);
        let m = parse_decimal(&parts[1]);
        let seconds_text = trimmed(&parts[2]);
        let s = parse_decimal(&seconds_text);
        match (h, m, s) {
            (Some(h), Some(m), Some(s)) => checked_total(h, m, s),
            _ => None,
        }
    } else {
        None
    }
}

/// What [`parse_frame_rate_string`] returns for the characters `s`.
///
/// White space around the text is ignored. An empty text and `n/a`, in
/// either case, give no rate. A text with a slash is a numerator and a
/// denominator, each a decimal number with white space around it ignored; a
/// denominator of zero gives no rate. Any other text is one decimal number.
pub open spec fn parsed_frame_rate(s: Seq<char>) -> Option<FrameRate> {
    let v = trim(s);
    let slash = first_index(v, '/');
    if v.len() == 0 || eq_ignoring_ascii_case(v, "n/a"@) {
        None
    } else if 0 <= slash < v.len() {
        match (parsed_decimal(trim(v.take(slash))), parsed_decimal(trim(v.skip(slash + 1)))) {
            (Some(n), Some(d)) => if d == 0 {
                None
            } else {
                Some(FrameRate { numerator: n, denominator: d })
            },
            _ => None,
        }
    } else {
        match parsed_decimal(v) {
            Some(n) => Some(FrameRate { numerator: n, denominator: 1_000_000 }),
            None => None,
        }
    }
}

/// Whether the text, with the white space around it ignored, is empty or
/// says `n/a`.
fn is_absent(v: &Vec<char>) -> (absent: bool)
    ensures
        absent == (v@.len() == 0 || eq_ignoring_ascii_case(v@, "n/a"@)),
{
    if v.len() == 0 {
        return true;
    }
    let na = chars_of("n/a");
    chars_eq_ignore_ascii_case(v, &na)
}

/// Reads a frame rate: a decimal number, or a ratio of two.
pub fn parse_frame_rate_string(value: Option<&str>) -> (rate: Option<FrameRate>)
    ensures
        rate == match value {
            Some(text) => parsed_frame_rate(text@),
            None => None,
        },
        rate matches Some(r) ==> r.denominator > 0,
{
    let text = match value {
        Some(text) => text,
        None => {
            return None;
        },
    };
    let raw = chars_of(text);
    let v = trimmed(&raw);
    if is_absent(&v) {
        return None;
    }
    let slash = find_char(&v, '/', 0);
    proof {
        assert(v@.skip(0) =~= v@);
        lemma_first_index(v@, '/');
    }
    if slash < v.len() {
        let num_text = slice_of(&v, 0, slash);
        let den_text = slice_of(&v, slash + 1, v.len());
        proof {
            assert(v@.take(slash as int) =~= v@.subrange(0, slash as int));
            assert(v@.skip(slash + 1) =~= v@.subrange(slash + 1, v@.len() as int));
        }
        let num = parse_decimal(&trimmed(&num_text));
        let den = parse_decimal(&trimmed(&den_text));
        match (num, den) {
            (Some(n), Some(d)) => {
                if d == 0 {
                    None
                } else {
                    Some(FrameRate { numerator: n, denominator: d })
                }
            },
            _ => None,
        }
    } else {
        match parse_decimal(&v) {
            Some(n) => Some(FrameRate { numerator: n, denominator: DECIMAL_ONE }),
            None => None,
        }
    }
}

/// What [`parse_probe_bitrate`] returns for the characters `s`: a bit rate
/// given in bits per second, as millionths of a kilobit per second.
///
/// White space around the text is ignored. An empty text, `n/a` in either
/// case, a text that is no decimal number and a rate of zero give no value.
pub open spec fn parsed_bitrate(s: Seq<char>) -> Option<u64> {
    let v = trim(s);
    if v.len() == 0 || eq_ignoring_ascii_case(v, "n/a"@) {
        None
    } else {
        match parsed_decimal(v) {
            Some(n) => if n == 0 {
                None
            } else {
                Some((n / 1000) as u64)
            },
            None => None,
        }
    }
}

/// Reads a bit rate in bits per second and returns it in kilobits per
/// second, as a count of millionths.
pub fn parse_probe_bitrate(raw: Option<&str>) -> (kbps: Option<u64>)
    ensures
        kbps == match raw {
            Some(text) => parsed_bitrate(text@),
            None => None,
        },
{
    let text = match raw {
        Some(text) => text,
        None => {
            return None;
        },
    };
    let chars = chars_of(text);
    let v = trimmed(&chars);
    if is_absent(&v) {
        return None;
    }
    match parse_decimal(&v) {
        Some(n) => {
            if n == 0 {
                None
            } else {
                Some(n / 1000)
            }
        },
        None => None,
    }
}

/// Whether a container of this name, in lower case, holds audio only.
pub open spec fn audio_only_name(lower: Seq<char>) -> bool {
    ||| lower == "mp3"@
    ||| lower == "wav"@
    ||| lower == "flac"@
    ||| lower == "aac"@
    ||| lower == "m4a"@
}

/// Whether a lower-case container name is that of an audio-only container.
pub fn is_audio_only_name(lower: &str) -> (audio: bool)
    ensures
        audio == audio_only_name(lower@),
{
    str_eq(lower, "mp3") || str_eq(lower, "wav") || str_eq(lower, "flac") || str_eq(lower, "aac")
        || str_eq(lower, "m4a")
}

/// Whether the container, whatever the case of its name, holds audio only.
pub fn is_audio_only_container(container: &str) -> (audio: bool)
    ensures
        audio == audio_only_name(lowercase(container@)),
{
    let lower = to_lowercase(container);
    is_audio_only_name(lower.as_str())
}

/// Whether `codec` names one of NVIDIA's hardware encoders.
pub open spec fn nvenc_name(codec: Seq<char>) -> bool {
    codec == "h264_nvenc"@ || codec == "hevc_nvenc"@ || codec == "av1_nvenc"@
}

/// Whether `codec` names one of NVIDIA's hardware encoders.
pub fn is_nvenc_codec(codec: &str) -> (nvenc: bool)
    ensures
        nvenc == nvenc_name(codec@),
{
    str_eq(codec, "h264_nvenc") || str_eq(codec, "hevc_nvenc") || str_eq(codec, "av1_nvenc")
}

/// Whether `codec` names one of Apple's hardware encoders.
pub open spec fn videotoolbox_name(codec: Seq<char>) -> bool {
    codec == "h264_videotoolbox"@ || codec == "hevc_videotoolbox"@
}

/// Whether `codec` names one of Apple's hardware encoders.
pub fn is_videotoolbox_codec(codec: &str) -> (videotoolbox: bool)
    ensures
        videotoolbox == videotoolbox_name(codec@),
{
    str_eq(codec, "h264_videotoolbox") || str_eq(codec, "hevc_videotoolbox")
}

/// Whether NVENC knows a preset of this name.
pub open spec fn nvenc_keeps(preset: Seq<char>) -> bool {
    ||| preset == "fast"@
    ||| preset == "medium"@
    ||| preset == "slow"@
    ||| preset == "default"@
    ||| preset == "p1"@
    ||| preset == "p2"@
    ||| preset == "p3"@
    ||| preset == "p4"@
    ||| preset == "p5"@
    ||| preset == "p6"@
    ||| preset == "p7"@
}

/// The NVENC preset that stands for a preset of the software encoders.
pub open spec fn nvenc_preset(preset: Seq<char>) -> Seq<char> {
    if nvenc_keeps(preset) {
        preset
    } else if preset == "ultrafast"@ || preset == "superfast"@ || preset == "veryfast"@ || preset
        == "faster"@ {
        "fast"@
    } else if preset == "slower"@ || preset == "veryslow"@ {
        "slow"@
    } else {
        "medium"@
    }
}

/// Maps a preset of the software encoders to one that NVENC knows: its own
/// names stay, the faster ones become `fast`, the slower ones `slow`, and
/// anything else `medium`.
pub fn map_nvenc_preset(preset: &str) -> (mapped: String)
    ensures
        mapped@ == nvenc_preset(preset@),
{
    if str_eq(preset, "fast") || str_eq(preset, "medium") || str_eq(preset, "slow") || str_eq(
        preset,
        "default",
    ) || str_eq(preset, "p1") || str_eq(preset, "p2") || str_eq(preset, "p3") || str_eq(
        preset,
        "p4",
    ) || str_eq(preset, "p5") || str_eq(preset, "p6") || str_eq(preset, "p7") {
        String::from_str(preset)
    } else if str_eq(preset, "ultrafast") || str_eq(preset, "superfast") || str_eq(
        preset,
        "veryfast",
    ) || str_eq(preset, "faster") {
        String::from_str("fast")
    } else if str_eq(preset, "slower") || str_eq(preset, "veryslow") {
        String::from_str("slow")
    } else {
        String::from_str("medium")
    }
}

} // verus!
