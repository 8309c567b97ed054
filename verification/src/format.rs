//! Token amounts as decimal text: whole units, a point, and the fraction.

use crate::decimal::{
    all_digits, decimal, decimal_value, is_digit, lemma_decimal_digits, lemma_decimal_last_digit,
    lemma_decimal_leading_digit, lemma_decimal_len_bound, lemma_decimal_len_lower,
    lemma_decimal_pow10_len, lemma_decimal_round_trip, lemma_pow10_positive, lemma_trim_zeros,
    lemma_value_leading_zeros, lemma_value_trailing_zeros, pow10, trim_zeros, zero_pad, zeros,
};
use crate::uint::U256;
use vstd::prelude::*;
use vstd::string::*;

verus! {

/// The number of fraction digits that a divisor calls for: one less than the
/// number of digits it is written with.
pub open spec fn fraction_width(divisor: nat) -> nat {
    (decimal(divisor).len() - 1) as nat
}

/// The fraction digits of a remainder: its notation, padded in front to the
/// width of the divisor, without the zeros at the end.
pub open spec fn fraction_text(remainder: nat, divisor: nat) -> Seq<char> {
    trim_zeros(zero_pad(decimal(remainder), fraction_width(divisor)))
}

/// The text of an amount of `raw` base units at `divisor` base units per
/// whole unit. A divisor of zero leaves the amount as it is.
pub open spec fn balance_text(raw: nat, divisor: nat) -> Seq<char> {
    if divisor == 0 {
        decimal(raw)
    } else if raw % divisor == 0 {
        decimal(raw / divisor)
    } else {
        let fraction = fraction_text(raw % divisor, divisor);
        if fraction.len() == 0 {
            decimal(raw / divisor)
        } else {
            decimal(raw / divisor) + seq!['.'] + fraction
        }
    }
}

/// The place of the first point in `text`, or its length if it has none.
pub open spec fn point_index(text: Seq<char>) -> nat
    decreases text.len(),
{
    if text.len() == 0 || text[0] == '.' {
        0
    } else {
        1 + point_index(text.subrange(1, text.len() as int))
    }
}

/// What stands before the first point of `text`.
pub open spec fn whole_part(text: Seq<char>) -> Seq<char> {
    text.subrange(0, point_index(text) as int)
}

/// What stands after the first point of `text`; empty if it has none.
pub open spec fn fraction_part(text: Seq<char>) -> Seq<char> {
    if point_index(text) < text.len() {
        text.subrange(point_index(text) as int + 1, text.len() as int)
    } else {
        Seq::<char>::empty()
    }
}

/// The number of base units for which the last of `digits` fraction digits
/// stands, where `width` digits reach down to one base unit.
pub open spec fn last_digit_unit(width: nat, digits: nat) -> nat {
    if digits <= width {
        pow10((width - digits) as nat)
    } else {
        1
    }
}

/// The number of base units that `text` denotes at `divisor` base units per
/// whole unit: the whole part counts whole units, and the fraction counts in
/// the unit of its last digit.
pub open spec fn base_units(text: Seq<char>, divisor: nat) -> nat {
    decimal_value(whole_part(text)) * divisor + decimal_value(fraction_part(text))
        * last_digit_unit(fraction_width(divisor), fraction_part(text).len())
}

/// `digits` with zeros put in front until it is `width` long.
pub fn pad_with_zeros(digits: &str, width: usize) -> (r: String)
    ensures
        r@ == zero_pad(digits@, width as nat),
{
    let len: usize = digits.unicode_len();
    let mut out: String = String::new();
    let mut filled: usize = len;
    proof {
        assert(out@ =~= zeros(0));
    }
    while filled < width
        invariant
            len <= filled,
            len < width ==> filled <= width,
            len >= width ==> filled == len,
            out@ == zeros((filled - len) as nat),
        decreases width - filled,
    {
        proof {
            reveal_strlit("0");
            assert("0"@ =~= seq!['0']);
            assert(zeros((filled - len) as nat) + seq!['0'] =~= zeros((filled + 1 - len) as nat));
        }
        out.append("0");
        filled = filled + 1;
    }
    proof {
        if len >= width {
            assert(out@ + digits@ =~= digits@);
        }
    }
    out.append(digits);
    out
}

/// `digits` without the zeros at its end.
pub fn strip_trailing_zeros(digits: &str) -> (r: String)
    ensures
        r@ == trim_zeros(digits@),
{
    let mut end: usize = digits.unicode_len();
    proof {
        assert(digits@.subrange(0, end as int) =~= digits@);
    }
    while end > 0 && digits.get_char(end - 1) == '0'
        invariant
            end <= digits@.len(),
            trim_zeros(digits@) == trim_zeros(digits@.subrange(0, end as int)),
        decreases end,
    {
        proof {
            let head = digits@.subrange(0, end as int);
            assert(head.last() == '0');
            assert(head.drop_last() =~= digits@.subrange(0, end - 1));
        }
        end = end - 1;
    }
    proof {
        let head = digits@.subrange(0, end as int);
        if end > 0 {
            assert(head.last() == digits@[end - 1]);
        }
        assert(trim_zeros(head) == head);
    }
    String::from_str(digits.substring_char(0, end))
}

/// Writes an amount of base units as whole units with a decimal fraction.
///
/// With a divisor of zero the amount is written as it is. Otherwise the
/// quotient is the whole part; a remainder other than zero follows it after a
/// point, padded in front to one digit less than the divisor has, and without
/// zeros at its end.
pub fn format_balance(balance: U256, divisor: U256) -> (text: String)
    ensures
        text@ == balance_text(balance@, divisor@),
{
    let (whole, remainder) = match balance.div_rem(&divisor) {
        Some(parts) => parts,
        None => {
            return balance.to_decimal_string();
        },
    };
    if remainder.is_zero() {
        whole.to_decimal_string()
    } else {
        let divisor_digits: String = divisor.to_decimal_string();
        proof {
            lemma_decimal_digits(divisor@);
        }
        let width: usize = divisor_digits.as_str().unicode_len() - 1;
        let remainder_digits: String = remainder.to_decimal_string();
        let padded: String = pad_with_zeros(remainder_digits.as_str(), width);
        let fraction: String = strip_trailing_zeros(padded.as_str());
        let mut text: String = whole.to_decimal_string();
        if fraction.as_str().unicode_len() == 0 {
            text
        } else {
            proof {
                reveal_strlit(".");
                assert("."@ =~= seq!['.']);
            }
            text.append(".");
            text.append(fraction.as_str());
            text
        }
    }
}

/// A string of digits has no point in it.
pub proof fn lemma_point_index_digits(digits: Seq<char>)
    requires
        all_digits(digits),
    ensures
        point_index(digits) == digits.len(),
    decreases digits.len(),
{
    if digits.len() > 0 {
        assert(is_digit(digits[0]));
        let rest = digits.subrange(1, digits.len() as int);
        assert forall|i: int| 0 <= i < rest.len() implies is_digit(#[trigger] rest[i]) by {
            assert(rest[i] == digits[i + 1]);
        }
        lemma_point_index_digits(rest);
    }
}

/// The first point of digits, a point and more text is the one written
/// between them.
pub proof fn lemma_point_index_joined(whole: Seq<char>, fraction: Seq<char>)
    requires
        all_digits(whole),
    ensures
        point_index(whole + seq!['.'] + fraction) == whole.len(),
    decreases whole.len(),
{
    let text = whole + seq!['.'] + fraction;
    if whole.len() == 0 {
        assert(text[0] == '.');
    } else {
        assert(text[0] == whole[0]);
        assert(is_digit(whole[0]));
        let rest = whole.subrange(1, whole.len() as int);
        assert forall|i: int| 0 <= i < rest.len() implies is_digit(#[trigger] rest[i]) by {
            assert(rest[i] == whole[i + 1]);
        }
        lemma_point_index_joined(rest, fraction);
        assert(text.subrange(1, text.len() as int) =~= rest + seq!['.'] + fraction);
    }
}

/// The fraction digits of a remainder other than zero are not empty and do
/// not end in a zero.
pub proof fn lemma_fraction_text_nonempty(remainder: nat, divisor: nat)
    requires
        remainder > 0,
    ensures
        fraction_text(remainder, divisor).len() > 0,
        fraction_text(remainder, divisor).last() != '0',
{
    let digits = decimal(remainder);
    let width = fraction_width(divisor);
    let padded = zero_pad(digits, width);
    let fraction = trim_zeros(padded);
    lemma_decimal_digits(remainder);
    lemma_decimal_leading_digit(remainder);
    lemma_trim_zeros(padded);
    // The first digit of the remainder is no zero, and it stands in the
    // padded text at the place where the padding ends.
    let at: int = padded.len() - digits.len();
    assert(padded[at] == digits[0]);
    if fraction.len() <= at {
        let tail = zeros((padded.len() - fraction.len()) as nat);
        assert(padded[at] == (fraction + tail)[at]);
        assert((fraction + tail)[at] == tail[at - fraction.len()]);
    }
}

/// With a divisor of zero the text of an amount is its decimal notation.
pub proof fn lemma_balance_text_zero_divisor(raw: nat)
    ensures
        balance_text(raw, 0) == decimal(raw),
{
}

/// With any divisor other than zero, the text of an amount starts with the
/// quotient, and a point follows exactly when the division leaves a
/// remainder.
pub proof fn lemma_balance_text_whole(raw: nat, divisor: nat)
    requires
        divisor > 0,
    ensures
        whole_part(balance_text(raw, divisor)) == decimal(raw / divisor),
        decimal_value(whole_part(balance_text(raw, divisor))) == raw / divisor,
        fraction_part(balance_text(raw, divisor)).len() > 0 <==> raw % divisor != 0,
        raw % divisor != 0 ==> fraction_part(balance_text(raw, divisor)) == fraction_text(
            raw % divisor,
            divisor,
        ),
{
    let whole = decimal(raw / divisor);
    let text = balance_text(raw, divisor);
    lemma_decimal_digits(raw / divisor);
    lemma_decimal_round_trip(raw / divisor);
    if raw % divisor == 0 {
        lemma_point_index_digits(whole);
        assert(text.subrange(0, text.len() as int) =~= text);
    } else {
        let fraction = fraction_text(raw % divisor, divisor);
        lemma_fraction_text_nonempty(raw % divisor, divisor);
        lemma_point_index_joined(whole, fraction);
        assert(text.subrange(0, whole.len() as int) =~= whole);
        assert(text.subrange(whole.len() as int + 1, text.len() as int) =~= fraction);
    }
}

/// The text of an amount denotes that amount: reading the whole part and the
/// fraction back gives every base unit.
///
/// This holds at any divisor other than zero, but for a remainder that is too
/// long for the width of the fraction and ends in zero: the zeros that such
/// a remainder loses are not padding. A divisor that is a power of ten leaves
/// no such remainder.
pub proof fn lemma_balance_text_round_trip(raw: nat, divisor: nat)
    requires
        divisor > 0,
        raw % divisor < pow10(fraction_width(divisor)) || (raw % divisor) % 10 != 0,
    ensures
        base_units(balance_text(raw, divisor), divisor) == raw,
{
    lemma_balance_text_whole(raw, divisor);
    let text = balance_text(raw, divisor);
    let width = fraction_width(divisor);
    let quotient = raw / divisor;
    let remainder = raw % divisor;
    assert(raw == quotient * divisor + remainder) by {
        vstd::arithmetic::div_mod::lemma_fundamental_div_mod(raw as int, divisor as int);
        assert(divisor * quotient == quotient * divisor) by (nonlinear_arith);
    }
    if remainder == 0 {
        assert(fraction_part(text).len() == 0);
        assert(decimal_value(fraction_part(text)) == 0);
        assert(0 * last_digit_unit(width, 0) == 0) by (nonlinear_arith);
    } else {
        let digits = decimal(remainder);
        let padded = zero_pad(digits, width);
        let fraction = trim_zeros(padded);
        assert(fraction_part(text) == fraction);
        lemma_decimal_round_trip(remainder);
        lemma_trim_zeros(padded);
        if remainder < pow10(width) {
            assert(width >= 1) by {
                if width == 0 {
                    assert(pow10(0) == 1);
                }
            }
            lemma_decimal_len_bound(remainder, width);
            lemma_value_leading_zeros((width - digits.len()) as nat, digits);
            assert(padded.len() == width);
            assert(decimal_value(padded) == remainder) by {
                if digits.len() >= width {
                    assert(padded == digits);
                }
            }
            lemma_value_trailing_zeros(fraction, (width - fraction.len()) as nat);
        } else {
            lemma_decimal_len_lower(remainder, width);
            lemma_decimal_last_digit(remainder);
            assert(padded == digits);
            assert(fraction == digits);
            assert(remainder * 1 == remainder) by (nonlinear_arith);
        }
    }
}

/// At a divisor of ten to the `places`, the text of every amount denotes
/// that amount, and its fraction has at most `places` digits.
pub proof fn lemma_balance_text_round_trip_decimal(raw: nat, places: nat)
    ensures
        fraction_part(balance_text(raw, pow10(places))).len() <= places,
        base_units(balance_text(raw, pow10(places)), pow10(places)) == raw,
{
    let divisor = pow10(places);
    lemma_pow10_positive(places);
    lemma_decimal_pow10_len(places);
    assert(fraction_width(divisor) == places);
    lemma_balance_text_round_trip(raw, divisor);
    lemma_balance_text_whole(raw, divisor);
    let remainder = raw % divisor;
    if remainder != 0 {
        assert(places >= 1) by {
            if places == 0 {
                assert(raw % 1 == 0);
            }
        }
        let padded = zero_pad(decimal(remainder), places);
        lemma_decimal_len_bound(remainder, places);
        lemma_trim_zeros(padded);
    }
}

} // verus!
