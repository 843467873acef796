//! The filters that change picture and sound.

use vstd::prelude::*;
use vstd::string::StringExecFns;
use crate::conversion::types::{ConversionConfig, CropConfig, VOLUME_EPSILON, VOLUME_UNITY};
use crate::text::{
    chars_of, concat2, decimal_text, digit_char, integer_text, push_decimal, push_integer,
    push_string, push_text, str_eq, texts,
};

verus! {

/// The two digits that write a number below one hundred.
pub open spec fn two_digits(n: nat) -> Seq<char>
    recommends
        n < 100,
{
    seq![digit_char(n / 10), digit_char(n % 10)]
}

/// The three digits that write a number below one thousand.
pub open spec fn three_digits(n: nat) -> Seq<char>
    recommends
        n < 1000,
{
    seq![digit_char(n / 100), digit_char((n / 10) % 10), digit_char(n % 10)]
}

/// A count of hundredths, written with two decimal places.
pub open spec fn hundredths_text(n: nat) -> Seq<char> {
    decimal_text(n / 100) + "."@ + two_digits(n % 100)
}

/// A count of thousandths, written with three decimal places.
pub open spec fn thousandths_text(n: nat) -> Seq<char> {
    decimal_text(n / 1000) + "."@ + three_digits(n % 1000)
}

fn push_digit(out: &mut String, d: u64)
    requires
        d < 10,
    ensures
        final(out)@ == old(out)@.push(digit_char(d as nat)),
{
    let c: char = ((d as u8) + 0x30) as char;
    out.push(c);
}

/// Appends a count of hundredths, written with two decimal places.
pub fn push_hundredths(out: &mut String, n: u64)
    ensures
        final(out)@ == old(out)@ + hundredths_text(n as nat),
{
    push_decimal(out, n / 100);
    out.append(".");
    push_digit(out, (n % 100) / 10);
    push_digit(out, (n % 100) % 10);
    assert(out@ =~= old(out)@ + hundredths_text(n as nat));
}

/// Appends a count of thousandths, written with three decimal places.
pub fn push_thousandths(out: &mut String, n: u64)
    ensures
        final(out)@ == old(out)@ + thousandths_text(n as nat),
{
    push_decimal(out, n / 1000);
    out.append(".");
    push_digit(out, (n % 1000) / 100);
    push_digit(out, ((n % 1000) / 10) % 10);
    push_digit(out, (n % 1000) % 10);
    assert(out@ =~= old(out)@ + thousandths_text(n as nat));
}

/// The filter that turns the picture, where the rotation asks for one.
pub open spec fn rotation_filter(rotation: Seq<char>) -> Seq<Seq<char>> {
    if rotation == "90"@ {
        seq!["transpose=1"@]
    } else if rotation == "180"@ {
        seq!["transpose=1,transpose=1"@]
    } else if rotation == "270"@ {
        seq!["transpose=2"@]
    } else {
        Seq::empty()
    }
}

/// The larger of two numbers.
pub open spec fn at_least(value: i32, floor: i32) -> int {
    if value < floor {
        floor as int
    } else {
        value as int
    }
}

/// The filter that cuts the picture to a rectangle: its width and height
/// are at least one, its corner is not left of or above the picture.
pub open spec fn crop_text(crop: CropConfig) -> Seq<char> {
    "crop="@ + integer_text(at_least(crop.width, 1)) + ":"@ + integer_text(at_least(crop.height, 1))
        + ":"@ + integer_text(at_least(crop.x, 0)) + ":"@ + integer_text(at_least(crop.y, 0))
}

/// The crop filter, where cropping is switched on.
pub open spec fn crop_filter(crop: Option<CropConfig>) -> Seq<Seq<char>> {
    match crop {
        Some(c) => if c.enabled {
            seq![crop_text(c)]
        } else {
            Seq::empty()
        },
        None => Seq::empty(),
    }
}

/// What one character of a subtitle path becomes inside a filter: a
/// backslash becomes a slash, a colon gets a backslash in front.
pub open spec fn escaped_char(c: char) -> Seq<char> {
    if c == '\\' {
        seq!['/']
    } else if c == ':' {
        seq!['\\', ':']
    } else {
        seq![c]
    }
}

/// A subtitle path as it is written inside a filter.
pub open spec fn escaped_path(path: Seq<char>) -> Seq<char>
    decreases path.len(),
{
    if path.len() == 0 {
        Seq::empty()
    } else {
        escaped_path(path.drop_last()) + escaped_char(path.last())
    }
}

/// Writes a subtitle path as a filter wants it.
pub fn escape_burn_path(path: &str) -> (escaped: String)
    ensures
        escaped@ == escaped_path(path@),
{
    let chars = chars_of(path);
    let mut out = String::new();
    let mut i: usize = 0;
    assert(chars@.subrange(0, 0) =~= Seq::<char>::empty());
    while i < chars.len()
        invariant
            i <= chars@.len(),
            out@ == escaped_path(chars@.subrange(0, i as int)),
        decreases chars@.len() - i,
    {
        let c = chars[i];
        proof {
            let upto = chars@.subrange(0, i + 1);
            assert(upto.drop_last() =~= chars@.subrange(0, i as int));
            assert(upto.last() == c);
        }
        let ghost before = out@;
        if c == '\\' {
            out.push('/');
            assert(out@ =~= before + seq!['/']);
        } else if c == ':' {
            out.push('\\');
            out.push(':');
            assert(out@ =~= before + seq!['\\', ':']);
        } else {
            out.push(c);
            assert(out@ =~= before + seq![c]);
        }
        i += 1;
    }
    assert(chars@.subrange(0, chars@.len() as int) =~= chars@);
    out
}

/// The filter that burns subtitles into the picture, where a path is given.
pub open spec fn burn_filter(path: Option<String>) -> Seq<Seq<char>> {
    match path {
        Some(p) => if p@.len() > 0 {
            seq!["subtitles='"@ + escaped_path(p@) + "'"@]
        } else {
            Seq::empty()
        },
        None => Seq::empty(),
    }
}

/// The flag that names the scaling algorithm; empty for an unknown one.
pub open spec fn algorithm_flag(algorithm: Seq<char>) -> Seq<char> {
    if algorithm == "lanczos"@ {
        ":flags=lanczos"@
    } else if algorithm == "bilinear"@ {
        ":flags=bilinear"@
    } else if algorithm == "nearest"@ {
        ":flags=neighbor"@
    } else if algorithm == "bicubic"@ {
        ":flags=bicubic"@
    } else {
        Seq::empty()
    }
}

/// A custom measure, `-1` where none is given.
pub open spec fn measure(value: Option<String>) -> Seq<char> {
    match value {
        Some(v) => v@,
        None => "-1"@,
    }
}

/// The scale filter for a custom size: with both measures given the
/// picture is fitted into the box and padded; with none it stays; with one
/// the other follows.
pub open spec fn custom_scale_text(config: ConversionConfig) -> Seq<char> {
    let w = measure(config.custom_width);
    let h = measure(config.custom_height);
    let flag = algorithm_flag(config.scaling_algorithm@);
    if w != "-1"@ && h != "-1"@ {
        "scale="@ + w + ":"@ + h + ":force_original_aspect_ratio=decrease"@ + flag + ",pad="@ + w
            + ":"@ + h + ":(ow-iw)/2:(oh-ih)/2"@
    } else if w == "-1"@ && h == "-1"@ {
        "scale=-1:-1"@
    } else {
        "scale="@ + w + ":"@ + h + flag
    }
}

/// The scale filter for a named size.
pub open spec fn preset_scale_text(config: ConversionConfig) -> Seq<char> {
    let flag = algorithm_flag(config.scaling_algorithm@);
    if config.resolution@ == "1080p"@ {
        "scale=-2:1080"@ + flag
    } else if config.resolution@ == "720p"@ {
        "scale=-2:720"@ + flag
    } else if config.resolution@ == "480p"@ {
        "scale=-2:480"@ + flag
    } else {
        "scale=-1:-1"@
    }
}

/// The scale filter, where scaling is wanted and the size does not stay as
/// it is.
pub open spec fn scale_filter(config: ConversionConfig, include_scale: bool) -> Seq<Seq<char>> {
    if include_scale && config.resolution@ != "original"@ {
        if config.resolution@ == "custom"@ {
            seq![custom_scale_text(config)]
        } else {
            seq![preset_scale_text(config)]
        }
    } else {
        Seq::empty()
    }
}

/// The filters that mirror the picture.
pub open spec fn flip_filters(config: ConversionConfig) -> Seq<Seq<char>> {
    let h = if config.flip_horizontal {
        seq!["hflip"@]
    } else {
        Seq::empty()
    };
    let v = if config.flip_vertical {
        seq!["vflip"@]
    } else {
        Seq::empty()
    };
    h + v
}

/// The video filters of a configuration, in the order in which they apply:
/// mirroring, rotation, crop, subtitles, scale.
pub open spec fn video_filters(config: ConversionConfig, include_scale: bool) -> Seq<Seq<char>> {
    flip_filters(config) + rotation_filter(config.rotation@) + crop_filter(config.crop)
        + burn_filter(config.subtitle_burn_path) + scale_filter(config, include_scale)
}

fn add_flip_filters(filters: &mut Vec<String>, config: &ConversionConfig)
    ensures
        texts(final(filters)@) == texts(old(filters)@) + flip_filters(*config),
{
    let ghost before = texts(filters@);
    let ghost mut added: Seq<Seq<char>> = Seq::empty();
    if config.flip_horizontal {
        push_text(filters, "hflip");
        proof {
            added = seq!["hflip"@];
        }
    }
    if config.flip_vertical {
        push_text(filters, "vflip");
        proof {
            added = added + seq!["vflip"@];
        }
    }
    assert(texts(filters@) =~= before + added);
    assert(added =~= flip_filters(*config));
}

fn add_rotation_filter(filters: &mut Vec<String>, rotation: &str)
    ensures
        texts(final(filters)@) == texts(old(filters)@) + rotation_filter(rotation@),
{
    let ghost before = texts(filters@);
    if str_eq(rotation, "90") {
        push_text(filters, "transpose=1");
        assert(texts(filters@) =~= before + seq!["transpose=1"@]);
    } else if str_eq(rotation, "180") {
        push_text(filters, "transpose=1,transpose=1");
        assert(texts(filters@) =~= before + seq!["transpose=1,transpose=1"@]);
    } else if str_eq(rotation, "270") {
        push_text(filters, "transpose=2");
        assert(texts(filters@) =~= before + seq!["transpose=2"@]);
    } else {
        assert(texts(filters@) =~= before + Seq::<Seq<char>>::empty());
    }
}

fn floor_at(value: i32, floor: i32) -> (v: i64)
    ensures
        v == at_least(value, floor),
{
    if value < floor {
        floor as i64
    } else {
        value as i64
    }
}

/// The text of the crop filter for `crop`.
pub fn crop_filter_text(crop: &CropConfig) -> (text: String)
    ensures
        text@ == crop_text(*crop),
{
    let mut text = String::from_str("crop=");
    push_integer(&mut text, floor_at(crop.width, 1));
    text.append(":");
    push_integer(&mut text, floor_at(crop.height, 1));
    text.append(":");
    push_integer(&mut text, floor_at(crop.x, 0));
    text.append(":");
    push_integer(&mut text, floor_at(crop.y, 0));
    text
}

fn add_crop_filter(filters: &mut Vec<String>, crop: &Option<CropConfig>)
    ensures
        texts(final(filters)@) == texts(old(filters)@) + crop_filter(*crop),
{
    let ghost before = texts(filters@);
    match crop {
        Some(c) => {
            if c.enabled {
                push_string(filters, crop_filter_text(c));
                assert(texts(filters@) =~= before + seq![crop_text(*c)]);
            } else {
                assert(texts(filters@) =~= before + Seq::<Seq<char>>::empty());
            }
        },
        None => {
            assert(texts(filters@) =~= before + Seq::<Seq<char>>::empty());
        },
    }
}

fn add_burn_filter(filters: &mut Vec<String>, path: &Option<String>)
    ensures
        texts(final(filters)@) == texts(old(filters)@) + burn_filter(*path),
{
    let ghost before = texts(filters@);
    match path {
        Some(p) => {
            if p.as_str().unicode_len() > 0 {
                let escaped = escape_burn_path(p.as_str());
                let text = String::from_str("subtitles='").concat(escaped.as_str()).concat("'");
                push_string(filters, text);
                assert(texts(filters@) =~= before + seq![
                    "subtitles='"@ + escaped_path(p@) + "'"@,
                ]);
            } else {
                assert(texts(filters@) =~= before + Seq::<Seq<char>>::empty());
            }
        },
        None => {
            assert(texts(filters@) =~= before + Seq::<Seq<char>>::empty());
        },
    }
}

/// The flag that names the scaling algorithm.
pub fn scaling_flag(algorithm: &str) -> (flag: &'static str)
    ensures
        flag@ == algorithm_flag(algorithm@),
{
    if str_eq(algorithm, "lanczos") {
        ":flags=lanczos"
    } else if str_eq(algorithm, "bilinear") {
        ":flags=bilinear"
    } else if str_eq(algorithm, "nearest") {
        ":flags=neighbor"
    } else if str_eq(algorithm, "bicubic") {
        ":flags=bicubic"
    } else {
        proof {
            reveal_strlit("");
        }
        assert(""@ =~= Seq::<char>::empty());
        ""
    }
}

fn measure_text(value: &Option<String>) -> (text: String)
    ensures
        text@ == measure(*value),
{
    match value {
        Some(v) => v.clone(),
        None => String::from_str("-1"),
    }
}

fn custom_scale(config: &ConversionConfig) -> (text: String)
    ensures
        text@ == custom_scale_text(*config),
{
    let w = measure_text(&config.custom_width);
    let h = measure_text(&config.custom_height);
    let flag = scaling_flag(config.scaling_algorithm.as_str());
    let w_auto = str_eq(w.as_str(), "-1");
    let h_auto = str_eq(h.as_str(), "-1");
    if !w_auto && !h_auto {
        String::from_str("scale=").concat(w.as_str()).concat(":").concat(h.as_str()).concat(
            ":force_original_aspect_ratio=decrease",
        ).concat(flag).concat(",pad=").concat(w.as_str()).concat(":").concat(h.as_str()).concat(
            ":(ow-iw)/2:(oh-ih)/2",
        )
    } else if w_auto && h_auto {
        String::from_str("scale=-1:-1")
    } else {
        String::from_str("scale=").concat(w.as_str()).concat(":").concat(h.as_str()).concat(flag)
    }
}

fn preset_scale(config: &ConversionConfig) -> (text: String)
    ensures
        text@ == preset_scale_text(*config),
{
    let flag = scaling_flag(config.scaling_algorithm.as_str());
    let resolution = config.resolution.as_str();
    if str_eq(resolution, "1080p") {
        concat2("scale=-2:1080", flag)
    } else if str_eq(resolution, "720p") {
        concat2("scale=-2:720", flag)
    } else if str_eq(resolution, "480p") {
        concat2("scale=-2:480", flag)
    } else {
        String::from_str("scale=-1:-1")
    }
}

fn add_scale_filter(filters: &mut Vec<String>, config: &ConversionConfig, include_scale: bool)
    ensures
        texts(final(filters)@) == texts(old(filters)@) + scale_filter(*config, include_scale),
{
    let ghost before = texts(filters@);
    if include_scale && !str_eq(config.resolution.as_str(), "original") {
        if str_eq(config.resolution.as_str(), "custom") {
            push_string(filters, custom_scale(config));
            assert(texts(filters@) =~= before + seq![custom_scale_text(*config)]);
        } else {
            push_string(filters, preset_scale(config));
            assert(texts(filters@) =~= before + seq![preset_scale_text(*config)]);
        }
    } else {
        assert(texts(filters@) =~= before + Seq::<Seq<char>>::empty());
    }
}

/// The video filters of a configuration, in the order in which they apply.
/// The scale filter is left out where `include_scale` is false.
pub fn build_video_filters(config: &ConversionConfig, include_scale: bool) -> (filters: Vec<String>)
    ensures
        texts(filters@) == video_filters(*config, include_scale),
{
    let mut filters: Vec<String> = Vec::new();
    assert(texts(filters@) =~= Seq::<Seq<char>>::empty());
    add_flip_filters(&mut filters, config);
    add_rotation_filter(&mut filters, config.rotation.as_str());
    add_crop_filter(&mut filters, &config.crop);
    add_burn_filter(&mut filters, &config.subtitle_burn_path);
    add_scale_filter(&mut filters, config, include_scale);
    assert(texts(filters@) =~= video_filters(*config, include_scale));
    filters
}

/// Whether the volume differs from the unchanged one by more than the
/// tolerance.
pub open spec fn changes_volume(volume: u32) -> bool {
    volume > VOLUME_UNITY + VOLUME_EPSILON || volume + VOLUME_EPSILON < VOLUME_UNITY
}

/// The factor of a volume given in hundredths of a percent, in hundredths
/// and rounded to the nearest, halves up.
pub open spec fn volume_factor(volume: u32) -> nat {
    ((volume + 50) / 100) as nat
}

/// The audio filters of a configuration: loudness normalisation where it is
/// asked for, then the volume where it is changed.
pub open spec fn audio_filters(config: ConversionConfig) -> Seq<Seq<char>> {
    let normalize = if config.audio_normalize {
        seq!["loudnorm=I=-16:TP=-1.5:LRA=11"@]
    } else {
        Seq::empty()
    };
    let volume = if changes_volume(config.audio_volume) {
        seq!["volume="@ + hundredths_text(volume_factor(config.audio_volume))]
    } else {
        Seq::empty()
    };
    normalize + volume
}

/// The audio filters of a configuration.
pub fn build_audio_filters(config: &ConversionConfig) -> (filters: Vec<String>)
    ensures
        texts(filters@) == audio_filters(*config),
{
    let mut filters: Vec<String> = Vec::new();
    let ghost mut added: Seq<Seq<char>> = Seq::empty();
    assert(texts(filters@) =~= added);
    if config.audio_normalize {
        push_text(&mut filters, "loudnorm=I=-16:TP=-1.5:LRA=11");
        proof {
            added = seq!["loudnorm=I=-16:TP=-1.5:LRA=11"@];
            assert(texts(filters@) =~= added);
        }
    }
    let volume = config.audio_volume;
    if volume as u64 > VOLUME_UNITY as u64 + VOLUME_EPSILON as u64 || (volume as u64)
        + (VOLUME_EPSILON as u64) < VOLUME_UNITY as u64 {
        let mut text = String::from_str("volume=");
        push_hundredths(&mut text, (volume as u64 + 50) / 100);
        let ghost so_far = added;
        push_string(&mut filters, text);
        proof {
            added = so_far + seq!["volume="@ + hundredths_text(volume_factor(config.audio_volume))];
            assert(texts(filters@) =~= added);
        }
    }
    assert(added =~= audio_filters(*config));
    filters
}

} // verus!
