//! Text as sequences of characters: the small operations that the rest of
//! the library reads and writes its texts with.

pub mod case;
pub mod decimal;
pub mod digits;
pub mod search;
pub mod strings;
pub mod whitespace;

pub use self::case::{
    ascii_lower, ascii_lower_code, ascii_lowercase, chars_eq_ignore_ascii_case,
    eq_ignoring_ascii_case, lowercase, to_ascii_lowercase,
};
pub(crate) use self::case::to_lowercase;
pub use self::decimal::{
    decimal_micros, fraction_micros, fraction_part, is_decimal, DECIMAL_ONE, DECIMAL_PLACES,
    parse_decimal, parsed_decimal, pow10, whole_part,
};
pub use self::digits::{
    all_digits, char_is_digit, decimal_string, decimal_text, digit_char, digit_value,
    digits_in_range, digits_only, digits_to_u64, digits_value, integer_string, integer_text,
    is_digit, lemma_digits_bound, lemma_digits_prefix, parse_i32, parse_u32, parsed_i32,
    parsed_u32, push_decimal, push_integer, unsigned_body,
};
pub use self::search::{
    chars_contain, contains_text, find_char, first_index, lemma_first_index, lemma_first_index_is,
    occurs_at, rows, split, split_chars,
};
pub use self::strings::{
    chars_of, concat2, join_texts, joined, push_string, push_text, slice_of, str_eq, string_of,
    texts,
};
pub use self::whitespace::{char_is_whitespace, is_whitespace, trim, trim_end, trim_start, trimmed};
