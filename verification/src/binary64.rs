//! IEEE 754 binary64 numbers, held by their bit pattern.
//!
//! Ratios reach this crate as binary64 numbers. They are kept as the 64 bits
//! that encode them, and every decision about them is taken in integer
//! arithmetic on the number that the bits stand for, without rounding.
//!
//! A finite binary64 number is a whole multiple of 2^-1074, the smallest
//! positive one. [`Binary64::scaled`] is that multiple, so that the number
//! itself is `scaled() / 2^1074`, and comparisons of numbers, and of their
//! products, become comparisons of integers.

use vstd::arithmetic::power2::*;
use vstd::bits::*;
use vstd::prelude::*;
use vstd::string::StringExecFns;

use crate::text::{decimal, decimal_text, hexadecimal, hexadecimal_text};

verus! {

/// The bit that holds the sign.
pub const SIGN_BIT: u64 = 0x8000_0000_0000_0000;

/// The weight of the exponent field, and the implicit leading bit of the
/// significand of a normal number: 2^52.
pub const HIDDEN_BIT: u64 = 0x0010_0000_0000_0000;

/// The bits of positive infinity; larger magnitudes are NaNs.
pub const INFINITY_BITS: u64 = 0x7FF0_0000_0000_0000;

/// The bits of the number one.
pub const ONE_BITS: u64 = 0x3FF0_0000_0000_0000;

/// The power of two by which a number is scaled to a whole number.
pub const SCALE: u64 = 1074;

/// An upper bound of every significand: 2^53.
pub const SIGNIFICAND_LIMIT: u64 = 0x0020_0000_0000_0000;

/// An upper bound of every product of two significands: 2^106.
pub const PRODUCT_LIMIT: u128 = 0x0400_0000_0000_0000_0000_0000_0000;

/// Multiplying both sides of a comparison by a power of two changes nothing:
/// the common part of two powers can be taken out.
pub proof fn lemma_cancel_common_power(left: nat, left_shift: nat, right: nat, right_shift: nat)
    ensures
        right_shift >= left_shift ==> (left * pow2(left_shift) <= right * pow2(right_shift) <==> left
            <= right * pow2((right_shift - left_shift) as nat)),
        right_shift < left_shift ==> (left * pow2(left_shift) <= right * pow2(right_shift) <==> left
            * pow2((left_shift - right_shift) as nat) <= right),
{
    if right_shift >= left_shift {
        let common = pow2(left_shift);
        let rest = pow2((right_shift - left_shift) as nat);
        lemma_pow2_pos(left_shift);
        lemma_pow2_adds((right_shift - left_shift) as nat, left_shift);
        assert(pow2(right_shift) == rest * common);
        assert(right * (rest * common) == (right * rest) * common) by (nonlinear_arith);
        assert(left * common <= (right * rest) * common <==> left <= right * rest)
            by (nonlinear_arith)
            requires
                common > 0,
        ;
    } else {
        let common = pow2(right_shift);
        let rest = pow2((left_shift - right_shift) as nat);
        lemma_pow2_pos(right_shift);
        lemma_pow2_adds((left_shift - right_shift) as nat, right_shift);
        assert(pow2(left_shift) == rest * common);
        assert(left * (rest * common) == (left * rest) * common) by (nonlinear_arith);
        assert((left * rest) * common <= right * common <==> left * rest <= right)
            by (nonlinear_arith)
            requires
                common > 0,
        ;
    }
}

/// Decides `left * 2^left_shift <= right * 2^right_shift` without computing
/// either side.
pub fn scaled_at_most(left: u64, left_shift: u64, right: u128, right_shift: u64) -> (at_most: bool)
    requires
        left < SIGNIFICAND_LIMIT,
        right < PRODUCT_LIMIT,
    ensures
        at_most == (left * pow2(left_shift as nat) <= right * pow2(right_shift as nat)),
{
    proof {
        lemma_cancel_common_power(left as nat, left_shift as nat, right as nat, right_shift as nat);
        lemma2_to64();
        lemma2_to64_rest();
        lemma_pow2_adds(53, 53);
    }
    if right_shift >= left_shift {
        let gap: u64 = right_shift - left_shift;
        let ghost weight = pow2(gap as nat);
        proof {
            lemma_pow2_pos(gap as nat);
        }
        if right == 0 {
            assert(right * weight == 0);
            left == 0
        } else if gap >= 53 || right >= SIGNIFICAND_LIMIT as u128 {
            proof {
                if gap > 53 {
                    lemma_pow2_strictly_increases(53, gap as nat);
                }
                assert(right * weight >= pow2(53)) by (nonlinear_arith)
                    requires
                        right >= 1,
                        weight >= 1,
                        right >= pow2(53) || weight >= pow2(53),
                ;
            }
            true
        } else {
            proof {
                lemma_pow2_strictly_increases(gap as nat, 53);
                lemma_u64_shl_is_mul(1, gap);
                assert(right * weight < PRODUCT_LIMIT) by (nonlinear_arith)
                    requires
                        right < pow2(53),
                        weight < pow2(53),
                        pow2(53) * pow2(53) == PRODUCT_LIMIT,
                ;
            }
            let factor: u64 = 1u64 << gap;
            left as u128 <= right * (factor as u128)
        }
    } else {
        let gap: u64 = left_shift - right_shift;
        let ghost weight = pow2(gap as nat);
        proof {
            lemma_pow2_pos(gap as nat);
        }
        if gap >= 106 {
            proof {
                if gap > 106 {
                    lemma_pow2_strictly_increases(106, gap as nat);
                }
                assert(left >= 1 ==> left * weight >= weight) by (nonlinear_arith);
                assert(left == 0 ==> left * weight == 0);
            }
            left == 0
        } else {
            proof {
                lemma_u128_shr_is_div(right, gap as u128);
                assert(left * weight <= right <==> left <= right as nat / weight)
                    by (nonlinear_arith)
                    requires
                        weight > 0,
                ;
            }
            left as u128 <= right >> (gap as u128)
        }
    }
}

/// A binary64 number, identified by its bits. Two values are equal when
/// their bits are.
#[derive(Debug, Clone, Copy, PartialEq, Eq, Hash, Structural)]
pub struct Binary64 {
    pub bits: u64,
}

impl Binary64 {
    /// The bits without the sign.
    pub open spec fn magnitude_bits(&self) -> nat {
        (self.bits % SIGN_BIT) as nat
    }

    /// The biased exponent, from 0 to 2047.
    pub open spec fn exponent_field(&self) -> nat {
        self.magnitude_bits() / (HIDDEN_BIT as nat)
    }

    /// The 52 stored bits of the significand.
    pub open spec fn fraction_field(&self) -> nat {
        self.magnitude_bits() % (HIDDEN_BIT as nat)
    }

    /// Whether the sign bit is set; true of negative numbers, of negative
    /// zero, and of some NaNs.
    pub open spec fn spec_is_sign_negative(&self) -> bool {
        self.bits >= SIGN_BIT
    }

    /// Whether the bits encode no number.
    pub open spec fn spec_is_nan(&self) -> bool {
        self.magnitude_bits() > INFINITY_BITS
    }

    /// Whether the bits encode a number that is not infinite.
    pub open spec fn spec_is_finite(&self) -> bool {
        self.magnitude_bits() < INFINITY_BITS
    }

    /// The significand as a whole number: the stored fraction, with the
    /// implicit leading bit for a normal number.
    pub open spec fn significand(&self) -> nat {
        if self.exponent_field() == 0 {
            self.fraction_field()
        } else {
            HIDDEN_BIT as nat + self.fraction_field()
        }
    }

    /// The power of two that multiplies the significand in `scaled`.
    pub open spec fn shift(&self) -> nat {
        if self.exponent_field() == 0 {
            0
        } else {
            (self.exponent_field() - 1) as nat
        }
    }

    /// The absolute value of a finite number, as a multiple of 2^-1074.
    pub open spec fn scaled_magnitude(&self) -> nat {
        self.significand() * pow2(self.shift())
    }

    /// A finite number as a multiple of 2^-1074: the number is
    /// `scaled() / 2^1074`.
    pub open spec fn scaled(&self) -> int {
        if self.spec_is_sign_negative() {
            -(self.scaled_magnitude() as int)
        } else {
            self.scaled_magnitude() as int
        }
    }

    /// Whether the bits encode an infinity.
    pub open spec fn spec_is_infinite(&self) -> bool {
        self.magnitude_bits() == INFINITY_BITS
    }

    /// Whether the bits encode a number greater than zero: a finite one, or
    /// positive infinity. False of a NaN.
    pub open spec fn spec_is_positive(&self) -> bool {
        if self.spec_is_finite() {
            self.scaled() > 0
        } else {
            self.spec_is_infinite() && !self.spec_is_sign_negative()
        }
    }

    /// Whether the bits encode a number that is at least one: a finite one,
    /// or positive infinity. False of a NaN.
    pub open spec fn spec_is_at_least_one(&self) -> bool {
        if self.spec_is_finite() {
            self.scaled() >= pow2(SCALE as nat)
        } else {
            self.spec_is_infinite() && !self.spec_is_sign_negative()
        }
    }

    /// Whether the bits encode a number that is zero or less: a finite one,
    /// or negative infinity. False of a NaN.
    pub open spec fn is_at_most_zero(&self) -> bool {
        if self.spec_is_finite() {
            self.scaled() <= 0
        } else {
            self.spec_is_infinite() && self.spec_is_sign_negative()
        }
    }

    /// Whether the bits encode a number below one: a finite one, or negative
    /// infinity. False of a NaN.
    pub open spec fn is_below_one(&self) -> bool {
        if self.spec_is_finite() {
            self.scaled() < pow2(SCALE as nat)
        } else {
            self.spec_is_infinite() && self.spec_is_sign_negative()
        }
    }

    /// The sign as it is written: a minus where the sign bit is set.
    pub open spec fn sign_text(&self) -> Seq<char> {
        if self.spec_is_sign_negative() {
            "-"@
        } else {
            Seq::empty()
        }
    }

    /// The power of two of a finite number as it is written: the exponent
    /// of the leading bit, in decimal and with its sign. A subnormal number
    /// is written with the least exponent of the normal ones.
    pub open spec fn exponent_text(&self) -> Seq<char> {
        if self.exponent_field() == 0 {
            "-1022"@
        } else if self.exponent_field() >= 1023 {
            "+"@ + decimal((self.exponent_field() - 1023) as nat)
        } else {
            "-"@ + decimal((1023 - self.exponent_field()) as nat)
        }
    }

    /// The number as it is written: in hexadecimal floating-point notation,
    /// which gives every finite number exactly. After the sign and `0x` come
    /// the leading bit, a point, the thirteen hexadecimal digits of the
    /// fraction, `p` and the power of two; zero is `0x0.0p+0`, and what is
    /// not finite is `inf`, `-inf` or `NaN`.
    pub open spec fn spec_text(&self) -> Seq<char> {
        if self.spec_is_nan() {
            "NaN"@
        } else if !self.spec_is_finite() {
            self.sign_text() + "inf"@
        } else if self.magnitude_bits() == 0 {
            self.sign_text() + "0x0.0p+0"@
        } else {
            self.sign_text() + (if self.exponent_field() == 0 {
                "0x0."@
            } else {
                "0x1."@
            }) + hexadecimal(self.fraction_field(), 13) + "p"@ + self.exponent_text()
        }
    }

    /// The number with the given bits.
    pub fn from_bits(bits: u64) -> (number: Binary64)
        ensures
            number.bits == bits,
    {
        Binary64 { bits }
    }

    /// The bits of the number.
    pub fn to_bits(&self) -> (bits: u64)
        ensures
            bits == self.bits,
    {
        self.bits
    }

    /// Whether the sign bit is set.
    #[verifier::when_used_as_spec(spec_is_sign_negative)]
    pub fn is_sign_negative(&self) -> (negative: bool)
        ensures
            negative == self.spec_is_sign_negative(),
    {
        self.bits >= SIGN_BIT
    }

    /// Whether the bits encode no number.
    #[verifier::when_used_as_spec(spec_is_nan)]
    pub fn is_nan(&self) -> (nan: bool)
        ensures
            nan == self.spec_is_nan(),
    {
        self.bits % SIGN_BIT > INFINITY_BITS
    }

    /// Whether the bits encode a number that is not infinite.
    #[verifier::when_used_as_spec(spec_is_finite)]
    pub fn is_finite(&self) -> (finite: bool)
        ensures
            finite == self.spec_is_finite(),
    {
        self.bits % SIGN_BIT < INFINITY_BITS
    }

    /// Whether the bits encode an infinity.
    #[verifier::when_used_as_spec(spec_is_infinite)]
    pub fn is_infinite(&self) -> (infinite: bool)
        ensures
            infinite == self.spec_is_infinite(),
    {
        self.bits % SIGN_BIT == INFINITY_BITS
    }

    /// Whether the number is greater than zero, positive infinity included.
    #[verifier::when_used_as_spec(spec_is_positive)]
    pub fn is_positive(&self) -> (positive: bool)
        ensures
            positive == self.spec_is_positive(),
    {
        proof {
            self.lemma_scaled_magnitude_bounds();
        }
        0 < self.bits && self.bits <= INFINITY_BITS
    }

    /// Whether the number is at least one, positive infinity included.
    #[verifier::when_used_as_spec(spec_is_at_least_one)]
    pub fn is_at_least_one(&self) -> (at_least_one: bool)
        ensures
            at_least_one == self.spec_is_at_least_one(),
    {
        proof {
            self.lemma_scaled_magnitude_bounds();
            lemma_pow2_pos(1074);
            let exponent = self.exponent_field();
            if self.bits < INFINITY_BITS {
                assert(self.magnitude_bits() == self.bits);
                assert(exponent >= 1023 <==> self.bits >= ONE_BITS);
                if exponent >= 1023 {
                    if exponent > 1023 {
                        lemma_pow2_strictly_increases(1074, exponent + 51);
                    }
                    assert(self.scaled_magnitude() >= pow2(1074));
                } else if exponent >= 1 {
                    if exponent < 1022 {
                        lemma_pow2_strictly_increases(exponent + 52, 1074);
                    }
                    assert(self.scaled_magnitude() < pow2(1074));
                } else {
                    lemma2_to64_rest();
                    lemma_pow2_strictly_increases(52, 1074);
                    assert(self.scaled_magnitude() < pow2(1074));
                }
            }
        }
        ONE_BITS <= self.bits && self.bits <= INFINITY_BITS
    }

    /// Renders the number exactly, in hexadecimal floating-point notation.
    ///
    /// The messages of the faults do not use this notation: they take their
    /// numbers as the caller writes them.
    pub fn to_string(&self) -> (text: String)
        ensures
            text@ == self.spec_text(),
    {
        let magnitude: u64 = self.bits % SIGN_BIT;
        if magnitude > INFINITY_BITS {
            return String::from_str("NaN");
        }
        let mut text = String::new();
        if self.bits >= SIGN_BIT {
            text.append("-");
        }
        assert(text@ =~= self.sign_text());
        if magnitude == INFINITY_BITS {
            text.append("inf");
            return text;
        }
        if magnitude == 0 {
            text.append("0x0.0p+0");
            return text;
        }
        let exponent: u64 = magnitude / HIDDEN_BIT;
        let fraction: u64 = magnitude % HIDDEN_BIT;
        let power: String = if exponent == 0 {
            String::from_str("-1022")
        } else if exponent >= 1023 {
            String::from_str("+").concat(decimal_text(exponent - 1023).as_str())
        } else {
            String::from_str("-").concat(decimal_text(1023 - exponent).as_str())
        };
        text.append(if exponent == 0 {
            "0x0."
        } else {
            "0x1."
        });
        text.append(hexadecimal_text(fraction, 13).as_str());
        text.append("p");
        text.append(power.as_str());
        text
    }

    /// The significand of the number.
    pub fn significand_bits(&self) -> (significand: u64)
        ensures
            significand == self.significand(),
            significand < SIGNIFICAND_LIMIT,
    {
        let magnitude: u64 = self.bits % SIGN_BIT;
        if magnitude / HIDDEN_BIT == 0 {
            magnitude % HIDDEN_BIT
        } else {
            HIDDEN_BIT + magnitude % HIDDEN_BIT
        }
    }

    /// The power of two that multiplies the significand.
    pub fn shift_bits(&self) -> (shift: u64)
        ensures
            shift == self.shift(),
            shift < 2047,
    {
        let magnitude: u64 = self.bits % SIGN_BIT;
        let exponent: u64 = magnitude / HIDDEN_BIT;
        if exponent == 0 {
            0
        } else {
            exponent - 1
        }
    }

    /// Whether the size of this number is at most the product of the sizes
    /// of `first` and `second`, signs set aside. The product is taken
    /// exactly: nothing is rounded.
    pub fn magnitude_at_most_product(&self, first: &Binary64, second: &Binary64) -> (at_most: bool)
        ensures
            at_most == (self.scaled_magnitude() * pow2(SCALE as nat) <= first.scaled_magnitude()
                * second.scaled_magnitude()),
    {
        let left: u64 = self.significand_bits();
        let left_shift: u64 = self.shift_bits() + SCALE;
        let first_significand: u64 = first.significand_bits();
        let second_significand: u64 = second.significand_bits();
        proof {
            lemma2_to64_rest();
            lemma_pow2_adds(53, 53);
            assert(first_significand * second_significand < PRODUCT_LIMIT) by (nonlinear_arith)
                requires
                    first_significand < pow2(53),
                    second_significand < pow2(53),
                    pow2(53) * pow2(53) == PRODUCT_LIMIT,
            ;
        }
        let right: u128 = (first_significand as u128) * (second_significand as u128);
        let right_shift: u64 = first.shift_bits() + second.shift_bits();
        proof {
            let a = first.significand();
            let b = second.significand();
            let x = pow2(first.shift());
            let y = pow2(second.shift());
            lemma_pow2_adds(first.shift(), second.shift());
            lemma_pow2_adds(self.shift(), SCALE as nat);
            assert((a * x) * (b * y) == (a * b) * (x * y)) by (nonlinear_arith);
            assert((self.significand() * pow2(self.shift())) * pow2(SCALE as nat)
                == self.significand() * (pow2(self.shift()) * pow2(SCALE as nat)))
                by (nonlinear_arith);
        }
        scaled_at_most(left, left_shift, right, right_shift)
    }

    /// The scaled magnitude lies in the binade that the exponent field names:
    /// a normal number with exponent field `e` is at least `2^(e + 51)` and
    /// below `2^(e + 52)`; a subnormal one equals its fraction field.
    pub proof fn lemma_scaled_magnitude_bounds(&self)
        ensures
            self.exponent_field() < 2048,
            self.fraction_field() < HIDDEN_BIT,
            self.magnitude_bits() == self.exponent_field() * HIDDEN_BIT + self.fraction_field(),
            self.significand() < 2 * HIDDEN_BIT,
            self.exponent_field() == 0 ==> self.scaled_magnitude() == self.fraction_field(),
            self.exponent_field() > 0 ==> pow2(self.exponent_field() + 51)
                <= self.scaled_magnitude() < pow2(self.exponent_field() + 52),
            self.scaled_magnitude() > 0 <==> self.magnitude_bits() > 0,
    {
        lemma2_to64();
        lemma2_to64_rest();
        let exponent = self.exponent_field();
        let significand = self.significand();
        if exponent == 0 {
            assert(self.shift() == 0);
            assert(self.scaled_magnitude() == self.fraction_field() * 1);
        } else {
            let weight = pow2((exponent - 1) as nat);
            assert(self.shift() == exponent - 1);
            assert(self.scaled_magnitude() == significand * weight);
            lemma_pow2_pos((exponent - 1) as nat);
            lemma_pow2_pos(exponent + 51);
            assert(52 + (exponent - 1) as nat == exponent + 51);
            assert(53 + (exponent - 1) as nat == exponent + 52);
            lemma_pow2_adds(52, (exponent - 1) as nat);
            lemma_pow2_adds(53, (exponent - 1) as nat);
            assert(pow2(52) * weight <= significand * weight) by (nonlinear_arith)
                requires
                    pow2(52) <= significand,
            ;
            assert(significand * weight < pow2(53) * weight) by (nonlinear_arith)
                requires
                    significand < pow2(53),
                    weight > 0,
            ;
        }
    }
}

} // verus!
