//! The values that travel between this crate and the store.
//!
//! A statement's parameters and the columns of a returned row are values of the
//! store's five storage classes. Floating point values are held by their
//! IEEE-754 bit patterns and are never computed with here.

use vstd::prelude::*;
use vstd::arithmetic::div_mod::{
    lemma_div_is_ordered, lemma_div_is_ordered_by_denominator, lemma_fundamental_div_mod,
};
use vstd::arithmetic::power2::{lemma2_to64, lemma_pow2_pos, lemma_pow2_strictly_increases, pow2};
use vstd::bits::lemma_u64_shr_is_div;

verus! {

/// A double-precision value, held by its IEEE-754 bit pattern.
#[derive(Clone, Copy, Debug, PartialEq, Eq, Structural)]
pub struct Real {
    pub bits: u64,
}

impl Real {
    /// The place of this value in the total order of IEEE-754: negative values
    /// before positive ones, and among values of one sign by magnitude. Minus
    /// zero comes directly before plus zero; the not-a-number patterns lie
    /// beyond the infinities.
    pub open spec fn ordinal(self) -> int {
        if self.bits < 0x8000_0000_0000_0000 {
            self.bits as int
        } else {
            0x7fff_ffff_ffff_ffff - self.bits
        }
    }

    /// Whether the sign bit is set.
    pub open spec fn is_negative(self) -> bool {
        self.bits >= 0x8000_0000_0000_0000
    }

    /// The eleven exponent bits, as a number.
    pub open spec fn exponent(self) -> int {
        (self.bits as int / 0x10_0000_0000_0000) % 2048
    }

    /// The fifty-two fraction bits, as a number.
    pub open spec fn fraction(self) -> int {
        self.bits as int % 0x10_0000_0000_0000
    }

    /// Whether the pattern stands for no number.
    pub open spec fn is_nan(self) -> bool {
        self.exponent() == 2047 && self.fraction() != 0
    }

    /// The magnitude of the value without its fractional part. A normal value
    /// is its significand times two to the power of its exponent less 1075;
    /// values below one, the subnormal ones among them, have no whole part.
    /// For an infinity this is a number beyond every machine integer.
    pub open spec fn whole_part(self) -> int {
        let significand = 0x10_0000_0000_0000 + self.fraction();
        if self.exponent() < 1023 {
            0
        } else if self.exponent() <= 1075 {
            significand / (pow2((1075 - self.exponent()) as nat) as int)
        } else {
            significand * pow2((self.exponent() - 1075) as nat)
        }
    }

    /// The value as a 32-bit whole number: rounded toward zero, held to the
    /// bounds of the type, and zero for a pattern that stands for no number.
    pub open spec fn truncated(self) -> int {
        if self.is_nan() {
            0
        } else if self.is_negative() {
            if self.whole_part() > 0x8000_0000 {
                -0x8000_0000
            } else {
                -self.whole_part()
            }
        } else {
            if self.whole_part() > 0x7fff_ffff {
                0x7fff_ffff
            } else {
                self.whole_part()
            }
        }
    }

    /// Converts the value to a 32-bit whole number.
    pub fn to_i32(&self) -> (whole: i32)
        ensures
            whole == self.truncated(),
    {
        let exponent: u64 = (self.bits / 0x10_0000_0000_0000) % 2048;
        let fraction: u64 = self.bits % 0x10_0000_0000_0000;
        let negative: bool = self.bits >= 0x8000_0000_0000_0000;
        if exponent == 2047 && fraction != 0 {
            return 0;
        }
        if exponent < 1023 {
            return 0;
        }
        let significand: u64 = 0x10_0000_0000_0000 + fraction;
        if exponent >= 1054 {
            proof {
                lemma2_to64();
                if exponent <= 1075 {
                    let shift = (1075 - exponent) as nat;
                    if shift < 21 {
                        lemma_pow2_strictly_increases(shift, 21);
                    }
                    lemma_pow2_pos(shift);
                    lemma_div_is_ordered_by_denominator(
                        significand as int,
                        pow2(shift) as int,
                        0x20_0000,
                    );
                    lemma_div_is_ordered(0x10_0000_0000_0000, significand as int, 0x20_0000);
                    assert(self.whole_part() >= 0x8000_0000);
                } else {
                    let shift = (exponent - 1075) as nat;
                    lemma_pow2_pos(shift);
                    assert(significand * pow2(shift) >= significand) by (nonlinear_arith)
                        requires
                            pow2(shift) >= 1,
                            significand >= 0,
                    ;
                    assert(self.whole_part() >= 0x8000_0000);
                }
            }
            return if negative {
                i32::MIN
            } else {
                i32::MAX
            };
        }
        let shift: u64 = 1075 - exponent;
        let magnitude: u64 = significand >> shift;
        proof {
            lemma_u64_shr_is_div(significand, shift);
            lemma2_to64();
            if 22 < shift {
                lemma_pow2_strictly_increases(22, shift as nat);
            }
            lemma_div_is_ordered_by_denominator(
                significand as int,
                0x40_0000,
                pow2(shift as nat) as int,
            );
            assert(magnitude == self.whole_part());
            assert(magnitude < 0x8000_0000);
        }
        if negative {
            -(magnitude as i32)
        } else {
            magnitude as i32
        }
    }

    /// Computes the place of this value in the total order.
    pub fn to_ordinal(&self) -> (place: i64)
        ensures
            place == self.ordinal(),
    {
        if self.bits < 0x8000_0000_0000_0000 {
            self.bits as i64
        } else {
            let magnitude: i64 = (self.bits - 0x8000_0000_0000_0000) as i64;
            -magnitude - 1
        }
    }
}

/// Among values without a sign the total order is the order of magnitude: by
/// exponent, and at the same exponent by fraction. Among values with a sign it
/// is the reverse, and every value with a sign comes before every value
/// without.
pub proof fn lemma_ordinal_orders_by_magnitude(a: Real, b: Real)
    ensures
        !a.is_negative() && !b.is_negative() ==> (a.ordinal() < b.ordinal() <==> a.exponent()
            < b.exponent() || (a.exponent() == b.exponent() && a.fraction() < b.fraction())),
        a.is_negative() && b.is_negative() ==> (a.ordinal() < b.ordinal() <==> a.exponent()
            > b.exponent() || (a.exponent() == b.exponent() && a.fraction() > b.fraction())),
        a.is_negative() && !b.is_negative() ==> a.ordinal() < b.ordinal(),
        a.ordinal() == b.ordinal() <==> a == b,
{
    lemma_bits_of_real(a);
    lemma_bits_of_real(b);
}

/// The pattern of a value is made of its sign, its exponent and its fraction.
proof fn lemma_bits_of_real(r: Real)
    ensures
        0 <= r.exponent() < 2048,
        0 <= r.fraction() < 0x10_0000_0000_0000,
        r.bits == (if r.is_negative() {
            0x8000_0000_0000_0000int
        } else {
            0int
        }) + r.exponent() * 0x10_0000_0000_0000 + r.fraction(),
{
    let bits = r.bits as int;
    let upper = bits / 0x10_0000_0000_0000;
    lemma_fundamental_div_mod(bits, 0x10_0000_0000_0000);
    lemma_fundamental_div_mod(upper, 2048);
    assert(0 <= upper < 4096);
    assert(upper / 2048 == if r.is_negative() {
        1int
    } else {
        0int
    });
}

/// One column of a row, or one parameter of a statement.
#[derive(Clone, Debug, PartialEq)]
pub enum SqlValue {
    Null,
    Integer(i64),
    Real(Real),
    Text(String),
    Blob(Vec<u8>),
}

/// What a `SqlValue` holds, with text and blobs as sequences.
pub enum SqlValueView {
    Null,
    Integer(i64),
    Real(Real),
    Text(Seq<char>),
    Blob(Seq<u8>),
}

impl View for SqlValue {
    type V = SqlValueView;

    open spec fn view(&self) -> SqlValueView {
        match *self {
            SqlValue::Null => SqlValueView::Null,
            SqlValue::Integer(i) => SqlValueView::Integer(i),
            SqlValue::Real(r) => SqlValueView::Real(r),
            SqlValue::Text(s) => SqlValueView::Text(s@),
            SqlValue::Blob(b) => SqlValueView::Blob(b@),
        }
    }
}

impl DeepView for SqlValue {
    type V = SqlValueView;

    open spec fn deep_view(&self) -> SqlValueView {
        self.view()
    }
}

/// A row as the store returns it: its columns in the order of the result set.
pub type Row = Vec<SqlValue>;

} // verus!
