//! Decimal numbers as fixed-point integers with six places.

use vstd::prelude::*;
use crate::text::digits::{
    all_digits,
    digits_only,
    digits_to_u64,
    digits_value,
    is_digit,
    lemma_digits_bound,
};
use crate::text::search::{find_char, first_index};

verus! {

/// How many decimal places a fixed-point number keeps.
pub const DECIMAL_PLACES: usize = 6;

/// One, as a fixed-point number: ten to the power [`DECIMAL_PLACES`].
pub const DECIMAL_ONE: u64 = 1_000_000;

/// Ten to the power `n`.
pub open spec fn pow10(n: nat) -> nat
    decreases n,
{
    if n == 0 {
        1
    } else {
        10 * pow10((n - 1) as nat)
    }
}

/// The digits after the decimal point, as millionths; digits beyond the
/// sixth are dropped.
pub open spec fn fraction_micros(frac: Seq<char>) -> nat {
    let k = if frac.len() < 6 {
        frac.len() as int
    } else {
        6
    };
    digits_value(frac.take(k)) * pow10((6 - k) as nat)
}

/// The part of a decimal number in front of the decimal point.
pub open spec fn whole_part(s: Seq<char>) -> Seq<char> {
    s.take(first_index(s, '.'))
}

/// The part of a decimal number behind the decimal point; empty where there
/// is no point.
pub open spec fn fraction_part(s: Seq<char>) -> Seq<char> {
    let dot = first_index(s, '.');
    if dot < s.len() {
        s.skip(dot + 1)
    } else {
        Seq::empty()
    }
}

/// Whether `s` writes a decimal number: digits, then optionally a point and
/// more digits, with at least one digit in all.
pub open spec fn is_decimal(s: Seq<char>) -> bool {
    &&& all_digits(whole_part(s))
    &&& all_digits(fraction_part(s))
    &&& whole_part(s).len() + fraction_part(s).len() > 0
}

/// The number that `s` writes, in millionths.
pub open spec fn decimal_micros(s: Seq<char>) -> nat {
    digits_value(whole_part(s)) * 1_000_000 + fraction_micros(fraction_part(s))
}

/// What [`parse_decimal`] returns: the number in millionths, where `s`
/// writes one that fits into 64 bits.
pub open spec fn parsed_decimal(s: Seq<char>) -> Option<u64> {
    if is_decimal(s) && decimal_micros(s) <= u64::MAX {
        Some(decimal_micros(s) as u64)
    } else {
        None
    }
}

/// Ten to the power `n`, for `n` up to six.
fn pow10_small(n: usize) -> (p: u64)
    requires
        n <= 6,
    ensures
        p == pow10(n as nat),
        p <= 1_000_000,
{
    reveal_with_fuel(pow10, 8);
    if n == 0 {
        1
    } else if n == 1 {
        10
    } else if n == 2 {
        100
    } else if n == 3 {
        1_000
    } else if n == 4 {
        10_000
    } else if n == 5 {
        100_000
    } else {
        1_000_000
    }
}

/// Ten to a power of at most six is at most a million.
proof fn lemma_pow10_at_most(k: nat)
    requires
        k <= 6,
    ensures
        pow10(k) <= 1_000_000,
        pow10(k) >= 1,
{
    reveal_with_fuel(pow10, 8);
}

/// Ten to the `k` times ten to the `6 - k` is a million.
proof fn lemma_pow10_split(k: nat)
    requires
        k <= 6,
    ensures
        pow10((6 - k) as nat) * pow10(k) == 1_000_000,
        pow10((6 - k) as nat) >= 1,
{
    reveal_with_fuel(pow10, 8);
    assert(pow10(0) == 1 && pow10(1) == 10 && pow10(2) == 100 && pow10(3) == 1_000);
    assert(pow10(4) == 10_000 && pow10(5) == 100_000 && pow10(6) == 1_000_000);
    let rest = (6 - k) as nat;
    if k == 0 {
        assert(rest == 6 && pow10(rest) * pow10(k) == 1_000_000 * 1);
    } else if k == 1 {
        assert(rest == 5 && pow10(rest) * pow10(k) == 100_000 * 10);
    } else if k == 2 {
        assert(rest == 4 && pow10(rest) * pow10(k) == 10_000 * 100);
    } else if k == 3 {
        assert(rest == 3 && pow10(rest) * pow10(k) == 1_000 * 1_000);
    } else if k == 4 {
        assert(rest == 2 && pow10(rest) * pow10(k) == 100 * 10_000);
    } else if k == 5 {
        assert(rest == 1 && pow10(rest) * pow10(k) == 10 * 100_000);
    } else {
        assert(rest == 0 && pow10(rest) * pow10(k) == 1 * 1_000_000);
    }
}

/// Reads a decimal number with up to six places as a count of millionths.
pub fn parse_decimal(s: &Vec<char>) -> (value: Option<u64>)
    ensures
        value == parsed_decimal(s@),
{
    let n: usize = s.len();
    let dot: usize = find_char(s, '.', 0);
    proof {
        assert(s@.skip(0) =~= s@);
        assert(s@.take(dot as int) =~= s@.subrange(0, dot as int));
    }
    let frac_from: usize = if dot < n {
        dot + 1
    } else {
        n
    };
    let ghost frac = fraction_part(s@);
    assert(frac =~= s@.subrange(frac_from as int, n as int));
    if dot + (n - frac_from) == 0 {
        return None;
    }
    let kept: usize = if n - frac_from < DECIMAL_PLACES {
        n - frac_from
    } else {
        DECIMAL_PLACES
    };
    proof {
        assert(frac.take(kept as int) =~= s@.subrange(frac_from as int, frac_from + kept));
        assert(frac.skip(kept as int) =~= s@.subrange(frac_from + kept, n as int));
    }
    let tail_ok = digits_only(s, frac_from + kept, n);
    let head = digits_to_u64(s, frac_from, frac_from + kept);
    let whole = digits_to_u64(s, 0, dot);
    proof {
        if all_digits(frac) {
            assert forall|i: int| 0 <= i < frac.take(kept as int).len() implies is_digit(
                #[trigger] frac.take(kept as int)[i],
            ) by {
                assert(frac.take(kept as int)[i] == frac[i]);
            }
            assert forall|i: int| 0 <= i < frac.skip(kept as int).len() implies is_digit(
                #[trigger] frac.skip(kept as int)[i],
            ) by {
                assert(frac.skip(kept as int)[i] == frac[i + kept]);
            }
        }
        if all_digits(frac.take(kept as int)) && all_digits(frac.skip(kept as int)) {
            assert forall|i: int| 0 <= i < frac.len() implies is_digit(#[trigger] frac[i]) by {
                if i < kept {
                    assert(frac.take(kept as int)[i] == frac[i]);
                } else {
                    assert(frac.skip(kept as int)[i - kept] == frac[i]);
                }
            }
        }
        if all_digits(frac.take(kept as int)) {
            lemma_digits_bound(frac.take(kept as int));
            lemma_pow10_at_most(kept as nat);
        }
    }
    if !tail_ok {
        return None;
    }
    match (whole, head) {
        (Some(w), Some(h)) => {
            let scale = pow10_small(6 - kept);
            proof {
                lemma_pow10_split(kept as nat);
                assert(h * scale < 1_000_000) by (nonlinear_arith)
                    requires
                        h < pow10(kept as nat),
                        scale * pow10(kept as nat) == 1_000_000,
                        scale >= 1,
                ;
            }
            let f: u64 = h * scale;
            if w > (u64::MAX - f) / DECIMAL_ONE {
                return None;
            }
            Some(w * DECIMAL_ONE + f)
        },
        (None, Some(h)) => {
            proof {
                if all_digits(whole_part(s@)) {
                    assert(digits_value(whole_part(s@)) > u64::MAX);
                }
            }
            None
        },
        _ => None,
    }
}

} // verus!
