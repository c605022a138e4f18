//! The scalar type and its saturating arithmetic.

use vstd::prelude::*;

verus! {

/// Raw pattern of the value one: `2^32`.
pub const ONE_BITS: i64 = 0x1_0000_0000i64;

/// A signed fixed-point number with 32 integer bits and 32 fractional bits.
///
/// The value denoted is `bits / 2^32`. Every bit pattern is a valid value.
#[derive(Clone, Copy, Debug, PartialEq, Eq, Structural, Ord, Hash)]
pub struct Fx {
    pub bits: i64,
}

impl View for Fx {
    type V = int;

    /// The raw pattern as a mathematical integer.
    open spec fn view(&self) -> int {
        self.bits as int
    }
}

/// The nearest representable raw pattern to `v`.
pub open spec fn clamp_raw(v: int) -> int {
    if v < i64::MIN {
        i64::MIN as int
    } else if v > i64::MAX {
        i64::MAX as int
    } else {
        v
    }
}

/// Quotient rounded towards zero.
pub open spec fn trunc_div(x: int, d: int) -> int
    recommends
        d != 0,
{
    if x >= 0 && d > 0 {
        x / d
    } else if x < 0 && d < 0 {
        (-x) / (-d)
    } else if x < 0 {
        -((-x) / d)
    } else {
        -(x / (-d))
    }
}

/// Remainder that goes with `trunc_div`: it has the sign of `x`.
pub open spec fn trunc_rem(x: int, d: int) -> int
    recommends
        d != 0,
{
    if x >= 0 && d > 0 {
        x % d
    } else if x < 0 && d < 0 {
        -((-x) % (-d))
    } else if x < 0 {
        -((-x) % d)
    } else {
        x % (-d)
    }
}

/// Raw pattern of a saturating sum.
pub open spec fn add_raw(a: int, b: int) -> int {
    clamp_raw(a + b)
}

/// Raw pattern of a saturating difference.
pub open spec fn sub_raw(a: int, b: int) -> int {
    clamp_raw(a - b)
}

/// Raw pattern of a saturating product: the exact product of the two values,
/// rounded down to a multiple of `2^-32`, then clamped.
pub open spec fn mul_raw(a: int, b: int) -> int {
    clamp_raw((a * b) / 0x1_0000_0000)
}

/// Raw pattern of a quotient. A zero divisor gives the bound on the side of
/// the dividend's sign; otherwise the exact quotient is rounded towards zero
/// to a multiple of `2^-32`, then clamped.
pub open spec fn div_raw(a: int, b: int) -> int {
    if b == 0 {
        if a > 0 {
            i64::MAX as int
        } else if a < 0 {
            i64::MIN as int
        } else {
            0
        }
    } else {
        clamp_raw(trunc_div(a * 0x1_0000_0000, b))
    }
}

/// Raw pattern of a remainder: zero for a zero divisor, else the remainder
/// of the raw patterns with the sign of the dividend.
pub open spec fn rem_raw(a: int, b: int) -> int {
    if b == 0 {
        0
    } else {
        trunc_rem(a, b)
    }
}

/// Raw pattern of a saturating negation.
pub open spec fn neg_raw(a: int) -> int {
    clamp_raw(-a)
}

/// Raw pattern of a saturating absolute value.
pub open spec fn abs_raw(a: int) -> int {
    if a >= 0 {
        a
    } else {
        clamp_raw(-a)
    }
}

/// Raw pattern of the sign: one, zero or minus one as fixed-point values.
pub open spec fn signum_raw(a: int) -> int {
    if a > 0 {
        0x1_0000_0000
    } else if a < 0 {
        -0x1_0000_0000
    } else {
        0
    }
}

proof fn lemma_product_fits(a: int, b: int)
    requires
        i64::MIN <= a <= i64::MAX,
        i64::MIN <= b <= i64::MAX,
    ensures
        -0x4000_0000_0000_0000_0000_0000_0000_0000 <= a * b
            <= 0x4000_0000_0000_0000_0000_0000_0000_0000,
{
    let m: int = 0x8000_0000_0000_0000;
    assert((m - a) * (m - b) >= 0) by (nonlinear_arith)
        requires
            m - a >= 0,
            m - b >= 0,
    ;
    assert((m + a) * (m + b) >= 0) by (nonlinear_arith)
        requires
            m + a >= 0,
            m + b >= 0,
    ;
    assert((m - a) * (m + b) >= 0) by (nonlinear_arith)
        requires
            m - a >= 0,
            m + b >= 0,
    ;
    assert((m + a) * (m - b) >= 0) by (nonlinear_arith)
        requires
            m + a >= 0,
            m - b >= 0,
    ;
    assert((m - a) * (m - b) == m * m - m * b - a * m + a * b) by (nonlinear_arith);
    assert((m + a) * (m + b) == m * m + m * b + a * m + a * b) by (nonlinear_arith);
    assert((m - a) * (m + b) == m * m + m * b - a * m - a * b) by (nonlinear_arith);
    assert((m + a) * (m - b) == m * m - m * b + a * m - a * b) by (nonlinear_arith);
    assert(m * m == 0x4000_0000_0000_0000_0000_0000_0000_0000) by (nonlinear_arith)
        requires
            m == 0x8000_0000_0000_0000,
    ;
}

proof fn lemma_quotient_bounded(x: int, d: int)
    requires
        x >= 0,
        d > 0,
    ensures
        0 <= x / d <= x,
{
    assert(0 <= x / d <= x) by (nonlinear_arith)
        requires
            x >= 0,
            d > 0,
    ;
}

proof fn lemma_remainder_bounded(x: int, d: int)
    requires
        x >= 0,
        d > 0,
    ensures
        0 <= x % d < d,
        x == 0 ==> x % d == 0,
{
    assert(0int % d == 0) by (nonlinear_arith)
        requires
            d > 0,
    ;
    assert(0 <= x % d < d) by (nonlinear_arith)
        requires
            x >= 0,
            d > 0,
    ;
}

pub(crate) fn clamp_wide(v: i128) -> (r: i64)
    ensures
        r as int == clamp_raw(v as int),
{
    if v < -0x8000_0000_0000_0000i128 {
        i64::MIN
    } else if v > 0x7fff_ffff_ffff_ffffi128 {
        i64::MAX
    } else {
        v as i64
    }
}

impl Default for Fx {
    /// The default value is zero.
    fn default() -> (r: Fx)
        ensures
            r@ == 0,
    {
        Fx { bits: 0 }
    }
}

impl Fx {
    /// The value with the given raw pattern.
    pub fn from_bits(bits: i64) -> (r: Fx)
        ensures
            r.bits == bits,
    {
        Fx { bits }
    }

    /// The raw pattern of the value.
    pub fn to_bits(&self) -> (r: i64)
        ensures
            r == self.bits,
    {
        self.bits
    }

    /// Zero: the one value whose raw pattern is 0.
    pub fn zero() -> (r: Fx)
        ensures
            r@ == 0,
    {
        Fx { bits: 0 }
    }

    /// One.
    pub fn one() -> (r: Fx)
        ensures
            r@ == 0x1_0000_0000,
    {
        Fx { bits: ONE_BITS }
    }

    /// The least representable value.
    pub fn min_value() -> (r: Fx)
        ensures
            r@ == i64::MIN,
    {
        Fx { bits: i64::MIN }
    }

    /// The greatest representable value.
    pub fn max_value() -> (r: Fx)
        ensures
            r@ == i64::MAX,
    {
        Fx { bits: i64::MAX }
    }

    /// Whether the value is zero.
    pub fn is_zero(&self) -> (r: bool)
        ensures
            r == (self@ == 0),
    {
        self.bits == 0
    }

    /// Saturating sum.
    pub fn add(self, rhs: Fx) -> (r: Fx)
        ensures
            r@ == add_raw(self@, rhs@),
    {
        match self.bits.checked_add(rhs.bits) {
            Some(v) => Fx { bits: v },
            None => if rhs.bits > 0 {
                Fx { bits: i64::MAX }
            } else {
                Fx { bits: i64::MIN }
            },
        }
    }

    /// Saturating difference.
    pub fn sub(self, rhs: Fx) -> (r: Fx)
        ensures
            r@ == sub_raw(self@, rhs@),
    {
        match self.bits.checked_sub(rhs.bits) {
            Some(v) => Fx { bits: v },
            None => if rhs.bits < 0 {
                Fx { bits: i64::MAX }
            } else {
                Fx { bits: i64::MIN }
            },
        }
    }

    /// Saturating product, rounded down to the next representable value.
    pub fn mul(self, rhs: Fx) -> (r: Fx)
        ensures
            r@ == mul_raw(self@, rhs@),
    {
        proof {
            lemma_product_fits(self@, rhs@);
        }
        let wide: i128 = (self.bits as i128) * (rhs.bits as i128);
        match wide.checked_div_euclid(0x1_0000_0000i128) {
            Some(q) => Fx { bits: clamp_wide(q) },
            None => Fx { bits: 0 },
        }
    }

    /// Quotient, total: a zero divisor saturates towards the sign of the
    /// dividend, and a zero dividend over zero gives zero. Otherwise the
    /// quotient is rounded towards zero and saturates.
    pub fn div(self, rhs: Fx) -> (r: Fx)
        ensures
            r@ == div_raw(self@, rhs@),
    {
        if rhs.bits != 0 {
            let wide: i128 = (self.bits as i128) * 0x1_0000_0000i128;
            proof {
                let x: int = wide as int;
                let d: int = rhs.bits as int;
                if x >= 0 && d > 0 {
                    lemma_quotient_bounded(x, d);
                } else if x < 0 && d < 0 {
                    lemma_quotient_bounded(-x, -d);
                } else if x < 0 {
                    lemma_quotient_bounded(-x, d);
                } else {
                    lemma_quotient_bounded(x, -d);
                }
            }
            match wide.checked_div(rhs.bits as i128) {
                Some(q) => Fx { bits: clamp_wide(q) },
                None => Fx { bits: 0 },
            }
        } else if self.bits > 0 {
            Fx::max_value()
        } else if self.bits < 0 {
            Fx::min_value()
        } else {
            Fx::zero()
        }
    }

    /// Remainder with the sign of the dividend; zero for a zero divisor.
    pub fn rem(self, rhs: Fx) -> (r: Fx)
        ensures
            r@ == rem_raw(self@, rhs@),
    {
        proof {
            let x: int = self@;
            let d: int = rhs@;
            if d != 0 {
                lemma_remainder_bounded(
                    if x >= 0 { x } else { -x },
                    if d > 0 { d } else { -d },
                );
            }
        }
        if rhs.bits == 0 || rhs.bits == -1 {
            Fx::zero()
        } else {
            match self.bits.checked_rem(rhs.bits) {
                Some(v) => Fx { bits: v },
                None => Fx { bits: 0 },
            }
        }
    }

    /// Saturating negation: the least value negates to the greatest.
    pub fn neg(self) -> (r: Fx)
        ensures
            r@ == neg_raw(self@),
    {
        if self.bits == i64::MIN {
            Fx { bits: i64::MAX }
        } else {
            Fx { bits: -self.bits }
        }
    }
}

} // verus!
