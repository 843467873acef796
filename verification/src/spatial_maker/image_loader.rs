//! Which formats are read, and how.

use vstd::prelude::*;
use vstd::string::StringExecFns;
use crate::paths::{extension_of, path_extension};
use crate::spatial_maker::error::{SpatialError, SpatialErrorKind, SpatialResult};
use crate::text::{lowercase, str_eq, to_lowercase};

verus! {

/// The name of the format that a file extension in lower case stands for.
pub open spec fn format_label(extension: Seq<char>) -> Seq<char> {
    if extension == "jpg"@ || extension == "jpeg"@ {
        "JPEG"@
    } else if extension == "png"@ {
        "PNG"@
    } else if extension == "gif"@ {
        "GIF"@
    } else if extension == "bmp"@ {
        "BMP"@
    } else if extension == "tiff"@ || extension == "tif"@ {
        "TIFF"@
    } else if extension == "webp"@ {
        "WebP"@
    } else if extension == "avif"@ {
        "AVIF"@
    } else if extension == "jxl"@ {
        "JPEG XL"@
    } else if extension == "heic"@ || extension == "heif"@ {
        "HEIC/HEIF"@
    } else {
        "Unknown"@
    }
}

/// The name of the format that a file extension in lower case stands for.
pub fn format_label_of(extension: &str) -> (name: &'static str)
    ensures
        name@ == format_label(extension@),
{
    if str_eq(extension, "jpg") || str_eq(extension, "jpeg") {
        "JPEG"
    } else if str_eq(extension, "png") {
        "PNG"
    } else if str_eq(extension, "gif") {
        "GIF"
    } else if str_eq(extension, "bmp") {
        "BMP"
    } else if str_eq(extension, "tiff") || str_eq(extension, "tif") {
        "TIFF"
    } else if str_eq(extension, "webp") {
        "WebP"
    } else if str_eq(extension, "avif") {
        "AVIF"
    } else if str_eq(extension, "jxl") {
        "JPEG XL"
    } else if str_eq(extension, "heic") || str_eq(extension, "heif") {
        "HEIC/HEIF"
    } else {
        "Unknown"
    }
}

/// The name of the format that a file extension stands for, whatever its
/// case; `Unknown` for any other.
pub fn format_name(extension: &str) -> (name: &'static str)
    ensures
        name@ == format_label(lowercase(extension@)),
{
    let lower = to_lowercase(extension);
    format_label_of(lower.as_str())
}

/// The formats that are read without any help.
pub fn supported_formats() -> (formats: &'static str)
    ensures
        formats@ == "JPEG, PNG, GIF, BMP, TIFF, WebP"@,
{
    "JPEG, PNG, GIF, BMP, TIFF, WebP"
}

/// The formats for which a decoder is built in: none.
pub fn native_decoder_formats() -> (formats: &'static str)
    ensures
        formats@ == "None (use --features to enable)"@,
{
    "None (use --features to enable)"
}

/// The formats that are converted by the encoder before they are read.
pub fn conversion_fallback_formats() -> (formats: &'static str)
    ensures
        formats@ == "AVIF, JXL, HEIC/HEIF (via ffmpeg if native decoder not enabled/available)"@,
{
    "AVIF, JXL, HEIC/HEIF (via ffmpeg if native decoder not enabled/available)"
}

/// The ways in which a picture is read.
#[derive(Clone, Copy, Debug, PartialEq, Eq, Structural)]
pub enum Loader {
    Avif,
    Jxl,
    Heic,
    Standard,
}

/// The way in which a picture with this extension, in lower case, is read.
pub open spec fn loader_of(extension: Seq<char>) -> Option<Loader> {
    if extension == "avif"@ {
        Some(Loader::Avif)
    } else if extension == "jxl"@ {
        Some(Loader::Jxl)
    } else if extension == "heic"@ || extension == "heif"@ {
        Some(Loader::Heic)
    } else if extension == "jpg"@ || extension == "jpeg"@ || extension == "png"@ || extension
        == "gif"@ || extension == "bmp"@ || extension == "tiff"@ || extension == "tif"@
        || extension == "webp"@ {
        Some(Loader::Standard)
    } else {
        None
    }
}

/// The detail of the error for a format that is not read.
pub open spec fn unsupported_text(extension: Seq<char>) -> Seq<char> {
    "Unsupported image format: ."@ + extension
        + ". Supported: JPEG, PNG, GIF, BMP, TIFF, WebP, AVIF, JXL, HEIC"@
}

/// The way in which a picture with this extension, in lower case, is read;
/// an image error for an extension that stands for no format that is read.
pub fn loader_for_extension(extension: &str) -> (result: SpatialResult<Loader>)
    ensures
        match loader_of(extension@) {
            Some(loader) => result == Ok::<Loader, SpatialError>(loader),
            None => (result matches Err(e) && e@ == (
                SpatialErrorKind::Image,
                unsupported_text(extension@),
            )),
        },
{
    if str_eq(extension, "avif") {
        Ok(Loader::Avif)
    } else if str_eq(extension, "jxl") {
        Ok(Loader::Jxl)
    } else if str_eq(extension, "heic") || str_eq(extension, "heif") {
        Ok(Loader::Heic)
    } else if str_eq(extension, "jpg") || str_eq(extension, "jpeg") || str_eq(extension, "png")
        || str_eq(extension, "gif") || str_eq(extension, "bmp") || str_eq(extension, "tiff")
        || str_eq(extension, "tif") || str_eq(extension, "webp") {
        Ok(Loader::Standard)
    } else {
        Err(
            SpatialError::ImageError(
                String::from_str("Unsupported image format: .").concat(extension).concat(
                    ". Supported: JPEG, PNG, GIF, BMP, TIFF, WebP, AVIF, JXL, HEIC",
                ),
            ),
        )
    }
}

/// The extension of a path in lower case, where it has one.
pub open spec fn lower_extension(path: Seq<char>) -> Option<Seq<char>> {
    match path_extension(path) {
        Some(e) => Some(lowercase(e)),
        None => None,
    }
}

/// The way in which the picture at `path` is read, judged by the extension
/// of the path. A path without an extension and an extension that stands
/// for no format that is read are image errors.
pub fn loader_for_path(path: &str) -> (result: SpatialResult<Loader>)
    ensures
        match lower_extension(path@) {
            Some(extension) => match loader_of(extension) {
                Some(loader) => result == Ok::<Loader, SpatialError>(loader),
                None => (result matches Err(e) && e@ == (
                    SpatialErrorKind::Image,
                    unsupported_text(extension),
                )),
            },
            None => (result matches Err(e) && e@ == (
                SpatialErrorKind::Image,
                "File has no extension: \""@ + path@ + "\""@,
            )),
        },
{
    match extension_of(path) {
        Some(extension) => {
            let lower = to_lowercase(extension.as_str());
            loader_for_extension(lower.as_str())
        },
        None => Err(
            SpatialError::ImageError(
                String::from_str("File has no extension: \"").concat(path).concat("\""),
            ),
        ),
    }
}

/// The arguments with which the encoder turns a picture that is not read
/// directly into a JPEG of the highest quality.
pub open spec fn conversion_args(input: Seq<char>, output: Seq<char>) -> Seq<Seq<char>> {
    seq!["-i"@, input, "-c:v"@, "libjpeg"@, "-q:v"@, "2"@, "-y"@, output]
}

/// The arguments with which the encoder converts `input` to the JPEG
/// `output`.
pub fn build_conversion_args(input: &str, output: &str) -> (args: Vec<String>)
    ensures
        crate::text::texts(args@) == conversion_args(input@, output@),
{
    let mut args: Vec<String> = Vec::new();
    assert(crate::text::texts(args@) =~= Seq::<Seq<char>>::empty());
    crate::text::push_text(&mut args, "-i");
    crate::text::push_text(&mut args, input);
    crate::text::push_text(&mut args, "-c:v");
    crate::text::push_text(&mut args, "libjpeg");
    crate::text::push_text(&mut args, "-q:v");
    crate::text::push_text(&mut args, "2");
    crate::text::push_text(&mut args, "-y");
    crate::text::push_text(&mut args, output);
    assert(crate::text::texts(args@) =~= conversion_args(input@, output@));
    args
}

} // verus!
