//! Paths, as the standard library takes them apart and puts them together.
//!
//! The rules for paths are those of the platform and are not spelt out
//! here: the library knows the results by name.

use std::path::{Path, PathBuf};
use vstd::prelude::*;
use crate::text::chars_of;

verus! {

/// The path without its last component, as `Path::parent` gives it: no
/// value where the path ends in a root or is empty.
pub uninterp spec fn path_parent(path: Seq<char>) -> Option<Seq<char>>;

/// The path that `PathBuf::push` makes of a directory and a name.
pub uninterp spec fn path_join(dir: Seq<char>, name: Seq<char>) -> Seq<char>;

/// The extension of the path's last component, as `Path::extension` gives
/// it: no value where there is none.
pub uninterp spec fn path_extension(path: Seq<char>) -> Option<Seq<char>>;

/// The path with its extension set, as `PathBuf::set_extension` leaves it
/// where the extension holds no path separator.
pub uninterp spec fn path_with_extension(path: Seq<char>, extension: Seq<char>) -> Seq<char>;

/// The last component of the path without its extension, as
/// `Path::file_stem` gives it: no value where the path has no file name.
pub uninterp spec fn path_file_stem(path: Seq<char>) -> Option<Seq<char>>;

/// `Path::parent` of the standard library, by the platform's rules for
/// paths. The rules are not spelt out here: the result is known by the name
/// [`path_parent`] only.
#[verifier::external_body]
pub(crate) fn parent_of(path: &str) -> (parent: Option<String>)
    ensures
        match parent {
            Some(p) => path_parent(path@) == Some(p@),
            None => path_parent(path@) is None,
        },
{
    match Path::new(path).parent() {
        Some(p) => Some(p.to_string_lossy().to_string()),
        None => None,
    }
}

/// `PathBuf::push` of the standard library on the path `dir`, by the
/// platform's rules for paths; the result is known by the name
/// [`path_join`] only.
#[verifier::external_body]
pub(crate) fn join(dir: &str, name: &str) -> (joined: String)
    ensures
        joined@ == path_join(dir@, name@),
{
    let mut path = PathBuf::from(dir);
    path.push(name);
    path.to_string_lossy().to_string()
}

/// `Path::extension` of the standard library; the result is known by the
/// name [`path_extension`] only.
#[verifier::external_body]
pub(crate) fn extension_of(path: &str) -> (extension: Option<String>)
    ensures
        match extension {
            Some(e) => path_extension(path@) == Some(e@),
            None => path_extension(path@) is None,
        },
{
    match Path::new(path).extension() {
        Some(e) => Some(e.to_string_lossy().to_string()),
        None => None,
    }
}

/// Whether a text can be set as the extension of a path: it holds no path
/// separator, neither a slash nor a backslash.
pub open spec fn is_extension_text(extension: Seq<char>) -> bool {
    forall|i: int| 0 <= i < extension.len() ==> extension[i] != '/' && extension[i] != '\\'
}

/// Whether a text can be set as the extension of a path.
pub fn can_be_extension(extension: &str) -> (fits: bool)
    ensures
        fits == is_extension_text(extension@),
{
    let chars = chars_of(extension);
    let mut i: usize = 0;
    while i < chars.len()
        invariant
            i <= chars@.len(),
            chars@ == extension@,
            forall|j: int| 0 <= j < i ==> chars@[j] != '/' && chars@[j] != '\\',
        decreases chars@.len() - i,
    {
        if chars[i] == '/' || chars[i] == '\\' {
            return false;
        }
        i += 1;
    }
    true
}

/// `PathBuf::set_extension` of the standard library on the path `path`; the
/// result is known by the name [`path_with_extension`] only. The call does
/// not return for an extension that holds a path separator, so such an
/// extension is not taken.
#[verifier::external_body]
pub(crate) fn with_extension(path: &str, extension: &str) -> (changed: String)
    requires
        is_extension_text(extension@),
    ensures
        changed@ == path_with_extension(path@, extension@),
{
    let mut buf = PathBuf::from(path);
    buf.set_extension(extension);
    buf.to_string_lossy().to_string()
}

/// `Path::file_stem` of the standard library; the result is known by the
/// name [`path_file_stem`] only.
#[verifier::external_body]
pub(crate) fn file_stem_of(path: &str) -> (stem: Option<String>)
    ensures
        match stem {
            Some(s) => path_file_stem(path@) == Some(s@),
            None => path_file_stem(path@) is None,
        },
{
    match Path::new(path).file_stem() {
        Some(s) => Some(s.to_string_lossy().to_string()),
        None => None,
    }
}

} // verus!
