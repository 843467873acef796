//! Whole numbers as text: reading and writing them in base ten.

use vstd::prelude::*;
use crate::text::decimal::{pow10};

verus! {

/// Whether `c` is one of the ten ASCII digits.
pub open spec fn is_digit(c: char) -> bool {
    0x30 <= c as u32 <= 0x39
}

/// The value of an ASCII digit.
pub open spec fn digit_value(c: char) -> nat {
    (c as u32 - 0x30) as nat
}

/// Whether every character of `s` is an ASCII digit.
pub open spec fn all_digits(s: Seq<char>) -> bool {
    forall|i: int| 0 <= i < s.len() ==> is_digit(#[trigger] s[i])
}

/// The number that a string of ASCII digits writes in base ten.
pub open spec fn digits_value(s: Seq<char>) -> nat
    decreases s.len(),
{
    if s.len() == 0 {
        0
    } else {
        digits_value(s.drop_last()) * 10 + digit_value(s.last())
    }
}

/// A number written with more digits is not smaller than the one its first
/// digits write.
pub proof fn lemma_digits_prefix(s: Seq<char>, k: int)
    requires
        0 <= k <= s.len(),
    ensures
        digits_value(s.take(k)) <= digits_value(s),
    decreases s.len() - k,
{
    if k == s.len() {
        assert(s.take(k) =~= s);
    } else {
        lemma_digits_prefix(s.drop_last(), k);
        assert(s.drop_last().take(k) =~= s.take(k));
    }
}

/// A string of at most `k` digits writes a number below ten to the `k`.
pub proof fn lemma_digits_bound(s: Seq<char>)
    requires
        all_digits(s),
    ensures
        digits_value(s) < pow10(s.len()),
    decreases s.len(),
{
    if s.len() > 0 {
        let init = s.drop_last();
        assert forall|i: int| 0 <= i < init.len() implies is_digit(#[trigger] init[i]) by {
            assert(init[i] == s[i]);
        }
        lemma_digits_bound(init);
        assert(is_digit(s.last()));
    }
}

/// Whether `c` is an ASCII digit.
pub fn char_is_digit(c: char) -> (digit: bool)
    ensures
        digit == is_digit(c),
{
    let u: u32 = c as u32;
    0x30 <= u && u <= 0x39
}

/// Whether the characters of `s` from `from` up to `to` are all ASCII digits.
pub fn digits_only(s: &Vec<char>, from: usize, to: usize) -> (ok: bool)
    requires
        from <= to <= s@.len(),
    ensures
        ok == all_digits(s@.subrange(from as int, to as int)),
{
    let mut i: usize = from;
    while i < to
        invariant
            from <= i <= to <= s@.len(),
            forall|j: int| from <= j < i ==> is_digit(s@[j]),
        decreases to - i,
    {
        if !char_is_digit(s[i]) {
            assert(s@.subrange(from as int, to as int)[i - from] == s@[i as int]);
            return false;
        }
        i += 1;
    }
    true
}

/// The value of a string of digits that does not exceed `max`.
pub open spec fn digits_in_range(s: Seq<char>, max: nat) -> Option<u64> {
    if all_digits(s) && digits_value(s) <= max && max <= u64::MAX {
        Some(digits_value(s) as u64)
    } else {
        None
    }
}

/// The number that the characters of `s` from `from` up to `to` write in
/// base ten, where they are all digits and the number fits.
pub fn digits_to_u64(s: &Vec<char>, from: usize, to: usize) -> (value: Option<u64>)
    requires
        from <= to <= s@.len(),
    ensures
        value == digits_in_range(s@.subrange(from as int, to as int), u64::MAX as nat),
{
    let ghost sub = s@.subrange(from as int, to as int);
    let mut acc: u64 = 0;
    let mut i: usize = from;
    assert(sub.take(0) =~= Seq::<char>::empty());
    while i < to
        invariant
            from <= i <= to <= s@.len(),
            sub == s@.subrange(from as int, to as int),
            all_digits(sub.take(i - from)),
            acc == digits_value(sub.take(i - from)),
        decreases to - i,
    {
        let c = s[i];
        proof {
            assert(sub[i - from] == c);
            assert(sub.take(i - from + 1).drop_last() =~= sub.take(i - from));
            assert(sub.take(i - from + 1).last() == c);
            lemma_digits_prefix(sub, i - from + 1);
        }
        if !char_is_digit(c) {
            return None;
        }
        let d: u64 = (c as u32 - 0x30) as u64;
        if acc > (u64::MAX - d) / 10 {
            return None;
        }
        acc = acc * 10 + d;
        i += 1;
        proof {
            assert forall|j: int| 0 <= j < sub.take(i - from).len() implies is_digit(
                #[trigger] sub.take(i - from)[j],
            ) by {
                if j < i - from - 1 {
                    assert(sub.take(i - from - 1)[j] == sub.take(i - from)[j]);
                }
            }
        }
    }
    assert(sub.take(to - from) =~= sub);
    Some(acc)
}

/// The digits of a number that may have a plus sign in front.
pub open spec fn unsigned_body(s: Seq<char>) -> Seq<char> {
    if s.len() > 0 && s[0] == '+' {
        s.drop_first()
    } else {
        s
    }
}

/// The number that `s` writes with ASCII digits, with or without a plus
/// sign in front, where it writes one that 32 bits hold.
pub open spec fn parsed_u32(s: Seq<char>) -> Option<u32> {
    let body = unsigned_body(s);
    if body.len() > 0 && all_digits(body) && digits_value(body) <= u32::MAX {
        Some(digits_value(body) as u32)
    } else {
        None
    }
}

/// Reads an unsigned number of at most 32 bits.
pub fn parse_u32(s: &Vec<char>) -> (value: Option<u32>)
    ensures
        value == parsed_u32(s@),
{
    let n: usize = s.len();
    let from: usize = if n > 0 && s[0] == '+' {
        1
    } else {
        0
    };
    proof {
        assert(unsigned_body(s@) =~= s@.subrange(from as int, n as int));
    }
    if from == n {
        return None;
    }
    match digits_to_u64(s, from, n) {
        Some(v) => {
            if v > u32::MAX as u64 {
                None
            } else {
                Some(v as u32)
            }
        },
        None => None,
    }
}

/// The number that `s` writes with ASCII digits, with or without a sign in
/// front, where it writes one that 32 bits hold with a sign.
pub open spec fn parsed_i32(s: Seq<char>) -> Option<i32> {
    if s.len() > 0 && s[0] == '-' {
        let body = s.drop_first();
        if body.len() > 0 && all_digits(body) && digits_value(body) <= 0x8000_0000 {
            Some((-(digits_value(body) as int)) as i32)
        } else {
            None
        }
    } else {
        let body = unsigned_body(s);
        if body.len() > 0 && all_digits(body) && digits_value(body) <= i32::MAX {
            Some(digits_value(body) as i32)
        } else {
            None
        }
    }
}

/// Reads a signed number of at most 32 bits.
pub fn parse_i32(s: &Vec<char>) -> (value: Option<i32>)
    ensures
        value == parsed_i32(s@),
{
    let n: usize = s.len();
    if n > 0 && s[0] == '-' {
        proof {
            assert(s@.drop_first() =~= s@.subrange(1, n as int));
        }
        if n == 1 {
            return None;
        }
        match digits_to_u64(s, 1, n) {
            Some(v) => {
                if v > 0x8000_0000 {
                    None
                } else {
                    Some((0 - (v as i64)) as i32)
                }
            },
            None => None,
        }
    } else {
        let from: usize = if n > 0 && s[0] == '+' {
            1
        } else {
            0
        };
        proof {
            assert(unsigned_body(s@) =~= s@.subrange(from as int, n as int));
        }
        if from == n {
            return None;
        }
        match digits_to_u64(s, from, n) {
            Some(v) => {
                if v > i32::MAX as u64 {
                    None
                } else {
                    Some(v as i32)
                }
            },
            None => None,
        }
    }
}

/// The ASCII digit that writes `d`.
pub open spec fn digit_char(d: nat) -> char
    recommends
        d < 10,
{
    ((d + 0x30) as u8) as char
}

/// The digits that write `n` in base ten, without leading zeros.
pub open spec fn decimal_text(n: nat) -> Seq<char>
    decreases n,
{
    if n < 10 {
        seq![digit_char(n)]
    } else {
        decimal_text(n / 10).push(digit_char(n % 10))
    }
}

/// Appends the digits that write `n` in base ten to `out`.
pub fn push_decimal(out: &mut String, n: u64)
    ensures
        final(out)@ == old(out)@ + decimal_text(n as nat),
    decreases n,
{
    if n >= 10 {
        push_decimal(out, n / 10);
    }
    let d: u8 = (n % 10) as u8;
    let c: char = (d + 0x30) as char;
    out.push(c);
    proof {
        if n >= 10 {
            assert(old(out)@ + decimal_text(n as nat) =~= (old(out)@ + decimal_text((n / 10) as nat)).push(
                digit_char((n % 10) as nat),
            ));
        } else {
            assert(old(out)@ + decimal_text(n as nat) =~= old(out)@.push(digit_char(n as nat)));
        }
    }
}

/// The text that writes the integer `n` in base ten, with a minus sign in
/// front of a negative one.
pub open spec fn integer_text(n: int) -> Seq<char> {
    if n < 0 {
        seq!['-'] + decimal_text((-n) as nat)
    } else {
        decimal_text(n as nat)
    }
}

/// Appends the text of the integer `n` to `out`.
pub fn push_integer(out: &mut String, n: i64)
    ensures
        final(out)@ == old(out)@ + integer_text(n as int),
{
    if n < 0 {
        out.push('-');
        let magnitude: u64 = if n == i64::MIN {
            0x8000_0000_0000_0000
        } else {
            (-n) as u64
        };
        push_decimal(out, magnitude);
        proof {
            assert(old(out)@.push('-') + decimal_text(magnitude as nat) =~= old(out)@ + (seq!['-']
                + decimal_text(magnitude as nat)));
        }
    } else {
        push_decimal(out, n as u64);
    }
}

/// The text that writes `n` in base ten.
pub fn decimal_string(n: u64) -> (s: String)
    ensures
        s@ == decimal_text(n as nat),
{
    let mut s = String::new();
    push_decimal(&mut s, n);
    assert(Seq::<char>::empty() + decimal_text(n as nat) =~= decimal_text(n as nat));
    s
}

/// The text that writes the integer `n` in base ten.
pub fn integer_string(n: i64) -> (s: String)
    ensures
        s@ == integer_text(n as int),
{
    let mut s = String::new();
    push_integer(&mut s, n);
    assert(Seq::<char>::empty() + integer_text(n as int) =~= integer_text(n as int));
    s
}

} // verus!
