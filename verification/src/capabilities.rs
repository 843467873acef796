//! What the bundled tools can do: which hardware encoders the encoder lists,
//! and whether the models of the frame processor are complete.

use vstd::prelude::*;
use vstd::string::StringExecFns;
use crate::matching::{escape_pattern, pattern_matches, regex_escaped, regex_match};
use crate::text::{chars_contain, chars_of, contains_text, str_eq, texts};

verus! {

/// Which hardware encoders the encoder offers, and whether frames can be
/// upscaled.
#[derive(Clone, Copy, Debug, PartialEq, Eq, Structural)]
pub struct AvailableEncoders {
    pub h264_videotoolbox: bool,
    pub h264_nvenc: bool,
    pub hevc_videotoolbox: bool,
    pub hevc_nvenc: bool,
    pub av1_nvenc: bool,
    pub ml_upscale: bool,
}

/// The pattern that finds the line of an encoder in the encoder's list: at
/// the start of a line, flags, then the name between white space.
pub open spec fn encoder_pattern(name: Seq<char>) -> Seq<char> {
    r"(?m)^\s*[A-Z.]+\s+"@ + regex_escaped(name) + r"\s+"@
}

/// Whether a list of encoders names `name`, given what the search for its
/// line found: where the pattern could not be used, the name only has to
/// occur somewhere.
pub open spec fn lists_encoder(listing: Seq<char>, name: Seq<char>, found: Option<bool>) -> bool {
    match found {
        Some(matched) => matched,
        None => contains_text(listing, name),
    }
}

/// Whether a list of encoders names `name`, given what the search for its
/// line found.
pub fn encoder_listed(listing: &str, name: &str, found: Option<bool>) -> (listed: bool)
    ensures
        listed == lists_encoder(listing@, name@, found),
{
    match found {
        Some(matched) => matched,
        None => chars_contain(&chars_of(listing), &chars_of(name)),
    }
}

/// Whether the encoder's list of encoders names `name`.
pub fn has_encoder(listing: &str, name: &str) -> (listed: bool)
    ensures
        listed == lists_encoder(
            listing@,
            name@,
            regex_match(encoder_pattern(name@), listing@),
        ),
{
    let escaped = escape_pattern(name);
    let pattern = String::from_str(r"(?m)^\s*[A-Z.]+\s+").concat(escaped.as_str()).concat(r"\s+");
    let found = pattern_matches(pattern.as_str(), listing);
    encoder_listed(listing, name, found)
}

/// What the encoder's list of encoders offers; `ml_upscale` says whether the
/// frame processor and its models are there.
pub fn detect_encoders(listing: &str, ml_upscale: bool) -> (encoders: AvailableEncoders)
    ensures
        encoders.h264_videotoolbox == lists_encoder(
            listing@,
            "h264_videotoolbox"@,
            regex_match(encoder_pattern("h264_videotoolbox"@), listing@),
        ),
        encoders.h264_nvenc == lists_encoder(
            listing@,
            "h264_nvenc"@,
            regex_match(encoder_pattern("h264_nvenc"@), listing@),
        ),
        encoders.hevc_videotoolbox == lists_encoder(
            listing@,
            "hevc_videotoolbox"@,
            regex_match(encoder_pattern("hevc_videotoolbox"@), listing@),
        ),
        encoders.hevc_nvenc == lists_encoder(
            listing@,
            "hevc_nvenc"@,
            regex_match(encoder_pattern("hevc_nvenc"@), listing@),
        ),
        encoders.av1_nvenc == lists_encoder(
            listing@,
            "av1_nvenc"@,
            regex_match(encoder_pattern("av1_nvenc"@), listing@),
        ),
        encoders.ml_upscale == ml_upscale,
{
    AvailableEncoders {
        h264_videotoolbox: has_encoder(listing, "h264_videotoolbox"),
        h264_nvenc: has_encoder(listing, "h264_nvenc"),
        hevc_videotoolbox: has_encoder(listing, "hevc_videotoolbox"),
        hevc_nvenc: has_encoder(listing, "hevc_nvenc"),
        av1_nvenc: has_encoder(listing, "av1_nvenc"),
        ml_upscale,
    }
}

/// The files that the frame processor needs for its models.
pub open spec fn upscale_model_files() -> Seq<Seq<char>> {
    seq![
        "realesr-animevideov3-x2.param"@,
        "realesr-animevideov3-x2.bin"@,
        "realesr-animevideov3-x4.param"@,
        "realesr-animevideov3-x4.bin"@,
    ]
}

fn lists_file(files: &Vec<String>, name: &str) -> (found: bool)
    ensures
        found == texts(files@).contains(name@),
{
    let mut i: usize = 0;
    while i < files.len()
        invariant
            i <= files@.len(),
            forall|j: int| 0 <= j < i ==> files@[j]@ != name@,
        decreases files@.len() - i,
    {
        if str_eq(files[i].as_str(), name) {
            assert(texts(files@)[i as int] == name@);
            return true;
        }
        i += 1;
    }
    proof {
        if texts(files@).contains(name@) {
            let j = choose|j: int| 0 <= j < texts(files@).len() && texts(files@)[j] == name@;
            assert(files@[j]@ == name@);
        }
    }
    false
}

/// Whether every file that the frame processor needs for its models is
/// among `files`, the names of the files in the directory of the models.
pub fn has_upscale_models(files: &Vec<String>) -> (complete: bool)
    ensures
        complete == (forall|i: int|
            0 <= i < upscale_model_files().len() ==> texts(files@).contains(
                #[trigger] upscale_model_files()[i],
            )),
{
    let complete = lists_file(files, "realesr-animevideov3-x2.param") && lists_file(
        files,
        "realesr-animevideov3-x2.bin",
    ) && lists_file(files, "realesr-animevideov3-x4.param") && lists_file(
        files,
        "realesr-animevideov3-x4.bin",
    );
    proof {
        let wanted = upscale_model_files();
        if !complete {
            assert(wanted[0] == "realesr-animevideov3-x2.param"@);
            assert(wanted[1] == "realesr-animevideov3-x2.bin"@);
            assert(wanted[2] == "realesr-animevideov3-x4.param"@);
            assert(wanted[3] == "realesr-animevideov3-x4.bin"@);
        }
    }
    complete
}

} // verus!
