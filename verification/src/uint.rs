//! 256-bit amounts as four 64-bit words, with their mathematical value.

use crate::decimal::{decimal, digit_value, is_digit};
use vstd::prelude::*;

verus! {

/// 2^64, the weight of the second word.
pub open spec fn word1() -> nat {
    0x1_0000_0000_0000_0000nat
}

/// 2^128, the weight of the third word.
pub open spec fn word2() -> nat {
    0x1_0000_0000_0000_0000_0000_0000_0000_0000nat
}

/// 2^192, the weight of the fourth word.
pub open spec fn word3() -> nat {
    0x1_0000_0000_0000_0000_0000_0000_0000_0000_0000_0000_0000_0000nat
}

/// 2^255, the first value whose sign bit is set.
pub open spec fn sign_threshold() -> nat {
    0x8000_0000_0000_0000_0000_0000_0000_0000_0000_0000_0000_0000_0000_0000_0000_0000nat
}

/// 2^256, one more than the largest amount.
pub open spec fn modulus() -> nat {
    0x1_0000_0000_0000_0000_0000_0000_0000_0000_0000_0000_0000_0000_0000_0000_0000_0000nat
}

/// The number that four little-endian words stand for.
pub open spec fn words_value(w0: u64, w1: u64, w2: u64, w3: u64) -> nat {
    (w0 as nat) + (w1 as nat) * word1() + (w2 as nat) * word2() + (w3 as nat) * word3()
}

/// An unsigned 256-bit integer, least significant word first.
#[derive(Clone, Copy, Debug, PartialEq, Eq, Structural)]
pub struct U256 {
    pub w0: u64,
    pub w1: u64,
    pub w2: u64,
    pub w3: u64,
}

impl View for U256 {
    type V = nat;

    open spec fn view(&self) -> nat {
        words_value(self.w0, self.w1, self.w2, self.w3)
    }
}

/// Two amounts with the same value have the same words.
pub proof fn lemma_value_injective(a: U256, b: U256)
    requires
        a@ == b@,
    ensures
        a == b,
{
    assert(a.w0 == b.w0) by {
        assert(a@ % word1() == a.w0) by {
            vstd::arithmetic::div_mod::lemma_fundamental_div_mod_converse(
                a@ as int,
                word1() as int,
                (a.w1 as int) + (a.w2 as int) * word1() + (a.w3 as int) * word2(),
                a.w0 as int,
            );
        }
        assert(b@ % word1() == b.w0) by {
            vstd::arithmetic::div_mod::lemma_fundamental_div_mod_converse(
                b@ as int,
                word1() as int,
                (b.w1 as int) + (b.w2 as int) * word1() + (b.w3 as int) * word2(),
                b.w0 as int,
            );
        }
    }
    assert(a.w1 == b.w1 && a.w2 == b.w2 && a.w3 == b.w3) by {
        if a.w3 < b.w3 {
            assert(a@ < b@);
        }
        if b.w3 < a.w3 {
            assert(b@ < a@);
        }
        if a.w2 < b.w2 {
            assert(a@ < b@);
        }
        if b.w2 < a.w2 {
            assert(b@ < a@);
        }
    }
}

/// Why a string is not the decimal notation of an amount.
#[derive(Clone, Copy, Debug, PartialEq, Eq, Structural)]
pub enum DecimalError {
    /// A character of the string is not a decimal digit.
    InvalidCharacter,
    /// The digits denote a number of 2^256 or more.
    TooLarge,
}

/// The amount that a string denotes, read digit by digit from the left. The
/// first character that is no digit, or the first digit with which the number
/// reaches 2^256, ends the reading with an error. The empty string denotes
/// zero, and zeros in front are accepted.
pub open spec fn parse_decimal(s: Seq<char>) -> Result<nat, DecimalError>
    decreases s.len(),
{
    if s.len() == 0 {
        Ok(0)
    } else {
        match parse_decimal(s.drop_last()) {
            Err(e) => Err(e),
            Ok(v) => if !is_digit(s.last()) {
                Err(DecimalError::InvalidCharacter)
            } else if v * 10 + digit_value(s.last()) >= modulus() {
                Err(DecimalError::TooLarge)
            } else {
                Ok(v * 10 + digit_value(s.last()))
            },
        }
    }
}

/// `U256::from_dec_str` of ethers: reads the string byte by byte from the
/// left, fails with `InvalidCharacter` at the first byte that is no ASCII
/// digit and with `InvalidLength` at the first digit that overflows 256 bits.
/// Every byte of a character outside ASCII is itself no digit, so reading
/// characters gives the same answer.
#[verifier::external_body]
fn amount_from_dec_str(text: &str) -> (r: Result<U256, DecimalError>)
    ensures
        match r {
            Ok(a) => parse_decimal(text@) == Ok::<nat, DecimalError>(a@),
            Err(e) => parse_decimal(text@) == Err::<nat, DecimalError>(e),
        },
{
    match ethers::types::U256::from_dec_str(text) {
        Ok(v) => Ok(U256 { w0: v.0[0], w1: v.0[1], w2: v.0[2], w3: v.0[3] }),
        Err(ethers::abi::ethereum_types::FromDecStrErr::InvalidCharacter) => Err(
            DecimalError::InvalidCharacter,
        ),
        Err(ethers::abi::ethereum_types::FromDecStrErr::InvalidLength) => Err(
            DecimalError::TooLarge,
        ),
    }
}

/// `Display` of ethers' `U256`: the decimal digits of the value, most
/// significant first, "0" for zero, nothing else when no width is asked for.
#[verifier::external_body]
fn amount_to_string(a: &U256) -> (r: String)
    ensures
        r@ == decimal(a@),
{
    ethers::types::U256([a.w0, a.w1, a.w2, a.w3]).to_string()
}

/// `U256::div_mod` of ethers: quotient and remainder of the division. It
/// panics on a zero divisor, which the precondition leaves out.
#[verifier::external_body]
fn amount_div_mod(a: &U256, d: &U256) -> (r: (U256, U256))
    requires
        d@ != 0,
    ensures
        r.0@ == a@ / d@,
        r.1@ == a@ % d@,
{
    let (q, m) = ethers::types::U256([a.w0, a.w1, a.w2, a.w3]).div_mod(
        ethers::types::U256([d.w0, d.w1, d.w2, d.w3]),
    );
    (
        U256 { w0: q.0[0], w1: q.0[1], w2: q.0[2], w3: q.0[3] },
        U256 { w0: m.0[0], w1: m.0[1], w2: m.0[2], w3: m.0[3] },
    )
}

impl U256 {
    /// The amount zero.
    pub fn zero() -> (r: U256)
        ensures
            r@ == 0,
    {
        U256 { w0: 0, w1: 0, w2: 0, w3: 0 }
    }

    /// The largest amount, 2^256 - 1.
    pub open spec fn largest() -> U256 {
        U256 {
            w0: 0xffff_ffff_ffff_ffff,
            w1: 0xffff_ffff_ffff_ffff,
            w2: 0xffff_ffff_ffff_ffff,
            w3: 0xffff_ffff_ffff_ffff,
        }
    }

    /// The largest amount, 2^256 - 1.
    pub fn max_value() -> (r: U256)
        ensures
            r == U256::largest(),
            r@ == modulus() - 1,
    {
        U256 { w0: u64::MAX, w1: u64::MAX, w2: u64::MAX, w3: u64::MAX }
    }

    /// The amount with the value of `x`.
    pub fn from_u64(x: u64) -> (r: U256)
        ensures
            r@ == x,
    {
        U256 { w0: x, w1: 0, w2: 0, w3: 0 }
    }

    /// The amount with the value of `x`.
    pub fn from_u128(x: u128) -> (r: U256)
        ensures
            r@ == x,
    {
        let low: u64 = (x % 0x1_0000_0000_0000_0000) as u64;
        let high: u64 = (x / 0x1_0000_0000_0000_0000) as u64;
        U256 { w0: low, w1: high, w2: 0, w3: 0 }
    }

    /// Whether the amount is zero.
    pub fn is_zero(&self) -> (b: bool)
        ensures
            b == (self@ == 0),
    {
        self.w0 == 0 && self.w1 == 0 && self.w2 == 0 && self.w3 == 0
    }

    /// Whether `self` is strictly below `other`.
    pub fn lt(&self, other: &U256) -> (b: bool)
        ensures
            b == (self@ < other@),
    {
        if self.w3 != other.w3 {
            self.w3 < other.w3
        } else if self.w2 != other.w2 {
            self.w2 < other.w2
        } else if self.w1 != other.w1 {
            self.w1 < other.w1
        } else {
            self.w0 < other.w0
        }
    }

    /// Reads an amount from its decimal notation.
    pub fn from_dec_str(text: &str) -> (r: Result<U256, DecimalError>)
        ensures
            match r {
                Ok(a) => parse_decimal(text@) == Ok::<nat, DecimalError>(a@),
                Err(e) => parse_decimal(text@) == Err::<nat, DecimalError>(e),
            },
    {
        amount_from_dec_str(text)
    }

    /// The decimal notation of the amount.
    pub fn to_decimal_string(&self) -> (r: String)
        ensures
            r@ == decimal(self@),
    {
        amount_to_string(self)
    }

    /// Quotient and remainder of the division; none for a divisor of zero.
    pub fn div_rem(&self, divisor: &U256) -> (r: Option<(U256, U256)>)
        ensures
            match r {
                Some((quotient, remainder)) => {
                    &&& divisor@ != 0
                    &&& quotient@ == self@ / divisor@
                    &&& remainder@ == self@ % divisor@
                },
                None => divisor@ == 0,
            },
    {
        if divisor.is_zero() {
            None
        } else {
            Some(amount_div_mod(self, divisor))
        }
    }

    /// Whether both amounts have the same value.
    pub fn same(&self, other: &U256) -> (b: bool)
        ensures
            b == (self@ == other@),
    {
        proof {
            if self@ == other@ {
                lemma_value_injective(*self, *other);
            }
        }
        *self == *other
    }
}

/// A signed 256-bit integer in two's complement, held as its bit pattern.
#[derive(Clone, Copy, Debug, PartialEq, Eq, Structural)]
pub struct I256 {
    pub raw: U256,
}

impl View for I256 {
    type V = int;

    open spec fn view(&self) -> int {
        if self.raw@ < sign_threshold() {
            self.raw@ as int
        } else {
            self.raw@ - modulus()
        }
    }
}

impl I256 {
    /// The signed integer with the given bit pattern.
    pub fn from_raw(raw: U256) -> (r: I256)
        ensures
            r.raw == raw,
    {
        I256 { raw }
    }

    /// The signed integer with the value of `x`.
    pub fn from_i128(x: i128) -> (r: I256)
        ensures
            r@ == x,
    {
        if x >= 0 {
            I256 { raw: U256::from_u128(x as u128) }
        } else {
            // -(x + 1) is the bitwise complement of x, so the low words are
            // those of 2^128 - 1 - (-(x + 1)) and the high words are all ones.
            let below: u128 = (-(x + 1)) as u128;
            let low: U256 = U256::from_u128(u128::MAX - below);
            I256 { raw: U256 { w0: low.w0, w1: low.w1, w2: u64::MAX, w3: u64::MAX } }
        }
    }

    /// Whether the integer is below zero.
    pub fn is_negative(&self) -> (b: bool)
        ensures
            b == (self@ < 0),
    {
        self.raw.w3 >= 0x8000_0000_0000_0000
    }

    /// The integer as an amount, with every negative integer taken to zero.
    pub open spec fn clamped(self) -> U256 {
        if self@ < 0 {
            U256 { w0: 0, w1: 0, w2: 0, w3: 0 }
        } else {
            self.raw
        }
    }

    /// The integer as an amount, with every negative integer taken to zero.
    pub fn clamp_to_amount(&self) -> (r: U256)
        ensures
            r == self.clamped(),
            r@ == if self@ < 0 { 0 } else { self@ },
    {
        if self.is_negative() {
            U256::zero()
        } else {
            self.raw
        }
    }
}

} // verus!
