//! Regular expressions, as the crate `regex` matches them.
//!
//! What a pattern matches is decided by that crate alone: the library knows
//! those results by name and reasons about what it does with them. How a
//! text is escaped is stated in full.

use vstd::prelude::*;

verus! {

/// What the first group of `pattern` holds at the leftmost match of the
/// pattern in `haystack`: no value where the pattern is no regular
/// expression, where it matches nowhere, or where the group took no part in
/// the match.
pub uninterp spec fn first_capture(pattern: Seq<char>, haystack: Seq<char>) -> Option<Seq<char>>;

/// `Regex::new`, `Regex::captures`, `Captures::get` and `Match::as_str` of
/// the crate `regex`, in a row: compiles `pattern`, searches `haystack` for
/// its leftmost match and hands out the text of group 1. The crate's
/// matching rules are not spelt out here; the result is known by the name
/// [`first_capture`] only, which says that it depends on the two texts alone.
#[verifier::external_body]
pub(crate) fn capture_first_group(pattern: &str, haystack: &str) -> (captured: Option<String>)
    ensures
        match captured {
            Some(text) => first_capture(pattern@, haystack@) == Some(text@),
            None => first_capture(pattern@, haystack@) is None,
        },
{
    let re = match regex::Regex::new(pattern) {
        Ok(re) => re,
        Err(_) => return None,
    };
    match re.captures(haystack) {
        Some(caps) => match caps.get(1) {
            Some(m) => Some(m.as_str().to_string()),
            None => None,
        },
        None => None,
    }
}

/// Whether `pattern` matches somewhere in `haystack`; no value where the
/// pattern is no regular expression.
pub uninterp spec fn regex_match(pattern: Seq<char>, haystack: Seq<char>) -> Option<bool>;

/// Whether a character has a meaning of its own in a regular expression.
pub open spec fn is_meta_character(c: char) -> bool {
    ||| c == '\\'
    ||| c == '.'
    ||| c == '+'
    ||| c == '*'
    ||| c == '?'
    ||| c == '('
    ||| c == ')'
    ||| c == '|'
    ||| c == '['
    ||| c == ']'
    ||| c == '{'
    ||| c == '}'
    ||| c == '^'
    ||| c == '$'
    ||| c == '#'
    ||| c == '&'
    ||| c == '-'
    ||| c == '~'
}

/// `text` with a backslash in front of every character that has a meaning
/// of its own in a regular expression.
pub open spec fn regex_escaped(text: Seq<char>) -> Seq<char>
    decreases text.len(),
{
    if text.len() == 0 {
        Seq::empty()
    } else if is_meta_character(text.last()) {
        regex_escaped(text.drop_last()).push('\\').push(text.last())
    } else {
        regex_escaped(text.drop_last()).push(text.last())
    }
}

/// `Regex::new` and `Regex::is_match` of the crate `regex`, in a row:
/// compiles `pattern` and says whether it matches anywhere in `haystack`.
/// The crate's matching rules are not spelt out here; the result is known by
/// the name [`regex_match`] only.
#[verifier::external_body]
pub(crate) fn pattern_matches(pattern: &str, haystack: &str) -> (matched: Option<bool>)
    ensures
        matched == regex_match(pattern@, haystack@),
{
    match regex::Regex::new(pattern) {
        Ok(re) => Some(re.is_match(haystack)),
        Err(_) => None,
    }
}

/// `escape` of the crate `regex`: the text, character by character, with a
/// backslash in front of each of the eighteen characters that have a meaning
/// of their own in a regular expression.
#[verifier::external_body]
pub(crate) fn escape_pattern(text: &str) -> (escaped: String)
    ensures
        escaped@ == regex_escaped(text@),
{
    regex::escape(text)
}

} // verus!
