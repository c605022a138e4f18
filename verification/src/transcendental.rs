//! Square root, exponential and circular functions.
//!
//! The digit-by-digit routines are those of the `cordic` crate, run on the
//! `fixed` crate's 32.32 type. Each routine is a fixed sequence of integer
//! steps on the raw pattern, so its result is a function of the raw pattern
//! of its argument; that function has a name here and no definition. The
//! routines use the wrapping operators of `fixed`, which fail on overflow
//! in a build with overflow checks; each entry point keeps to the inputs on
//! which no step overflows.

use vstd::prelude::*;
use crate::fx::{Fx, ONE_BITS, div_raw, sub_raw};
use crate::consts::{FRAC_PI_2_BITS, PI_BITS};
use crate::equality::abs_diff_eq_spec;

verus! {

/// What `cordic::sqrt` returns on the 32.32 value with raw pattern `bits`.
pub uninterp spec fn cordic_sqrt(bits: i64) -> i64;

/// What `cordic::exp` returns on the 32.32 value with raw pattern `bits`.
pub uninterp spec fn cordic_exp(bits: i64) -> i64;

/// What `cordic::sin_cos` returns on the 32.32 value with raw pattern
/// `bits`: the sine, then the cosine.
pub uninterp spec fn cordic_sin_cos(bits: i64) -> (i64, i64);

/// What `cordic::asin` returns on the 32.32 value with raw pattern `bits`.
pub uninterp spec fn cordic_asin(bits: i64) -> i64;

/// What `cordic::atan` returns on the 32.32 value with raw pattern `bits`.
pub uninterp spec fn cordic_atan(bits: i64) -> i64;

/// What `cordic::atan2` returns on the 32.32 values with raw patterns `y`
/// and `x`.
pub uninterp spec fn cordic_atan2(y: i64, x: i64) -> i64;

/// Raw pattern of `2^30`: the square root is computed below it.
pub const SQRT_LIMIT_BITS: i64 = 0x4000_0000_0000_0000i64;

/// Raw pattern of 21: the exponential is computed below it.
pub const EXP_LIMIT_BITS: i64 = 0x15_0000_0000i64;

/// Raw pattern of `2^29`: the arcsine is computed up to this magnitude.
pub const ASIN_LIMIT_BITS: i64 = 0x2000_0000_0000_0000i64;

/// Raw pattern of `2^30`: the arctangent is computed up to this magnitude.
pub const ATAN_LIMIT_BITS: i64 = 0x4000_0000_0000_0000i64;

/// Raw pattern of the sine: the first component of the pair computed
/// together.
pub open spec fn sin_raw(bits: i64) -> i64 {
    cordic_sin_cos(bits).0
}

/// Raw pattern of the cosine: the second component of the pair computed
/// together.
pub open spec fn cos_raw(bits: i64) -> i64 {
    cordic_sin_cos(bits).1
}

/// The inputs of the square root: zero or above, and below `2^30`.
pub open spec fn sqrt_defined(a: int) -> bool {
    0 <= a < SQRT_LIMIT_BITS
}

/// The inputs of the exponential: below 21.
pub open spec fn exp_defined(a: int) -> bool {
    a < EXP_LIMIT_BITS
}

/// The inputs of the arcsine and of the arccosine.
pub open spec fn asin_defined(a: int) -> bool {
    -ASIN_LIMIT_BITS <= a <= ASIN_LIMIT_BITS
}

/// The inputs of the arctangent.
pub open spec fn atan_defined(a: int) -> bool {
    -ATAN_LIMIT_BITS <= a <= ATAN_LIMIT_BITS
}

/// The inputs of the two-argument arctangent: one of the two is zero, or
/// neither is the least value and the quotient `y / x` is an input of the
/// arctangent.
pub open spec fn atan2_defined(y: int, x: int) -> bool {
    x == 0 || y == 0 || (y != i64::MIN && x != i64::MIN && atan_defined(div_raw(y, x)))
}

/// Raw pattern of the angle of a point on an axis: a quarter turn down for
/// a point below the origin, a quarter turn up for one above it or on it,
/// else zero for a point to the right and a half turn for one to the left.
pub open spec fn atan2_on_axis(y: int, x: int) -> int
    recommends
        x == 0 || y == 0,
{
    if x == 0 {
        if y < 0 {
            -FRAC_PI_2_BITS
        } else {
            FRAC_PI_2_BITS as int
        }
    } else if x >= 0 {
        0
    } else {
        PI_BITS as int
    }
}

/// Calls `cordic::sqrt`. The result is named, not stated, but for zero
/// and one, which the routine hands back as they are. Left out: a negative
/// input, on which the routine's first loop never ends, and an input of
/// `2^30` or more, on which it squares `2^16`.
#[verifier::external_body]
fn sqrt_bits(bits: i64) -> (r: i64)
    requires
        sqrt_defined(bits as int),
    ensures
        r == cordic_sqrt(bits),
        bits == 0 || bits == ONE_BITS ==> r == bits,
{
    cordic::sqrt(fixed::types::I32F32::from_bits(bits)).to_bits()
}

/// Calls `cordic::exp`. The result is named, not stated. The routine
/// multiplies by `e` once for each whole unit of its argument; left out are
/// the inputs of 21 or more, a whole number short of where the product
/// passes the greatest value. A negative input costs one division for each
/// whole unit below zero.
#[verifier::external_body]
fn exp_bits(bits: i64) -> (r: i64)
    requires
        exp_defined(bits as int),
    ensures
        r == cordic_exp(bits),
{
    cordic::exp(fixed::types::I32F32::from_bits(bits)).to_bits()
}

/// Calls `cordic::sin_cos`, which first brings the angle into a half turn
/// around zero and so takes every input. The result is named, not stated.
#[verifier::external_body]
fn sin_cos_bits(bits: i64) -> (r: (i64, i64))
    ensures
        r == cordic_sin_cos(bits),
{
    let (s, c) = cordic::sin_cos(fixed::types::I32F32::from_bits(bits));
    (s.to_bits(), c.to_bits())
}

/// Calls `cordic::asin`. The result is named, not stated. The routine
/// scales its argument up by a factor below 4 as it goes; left out are the
/// inputs above `2^29` in magnitude.
#[verifier::external_body]
fn asin_bits(bits: i64) -> (r: i64)
    requires
        asin_defined(bits as int),
    ensures
        r == cordic_asin(bits),
{
    cordic::asin(fixed::types::I32F32::from_bits(bits)).to_bits()
}

/// Calls `cordic::atan`. The result is named, not stated. The routine
/// turns the vector `(1, x)` onto the axis, which stretches it by a factor
/// below 2; left out are the inputs above `2^30` in magnitude.
#[verifier::external_body]
fn atan_bits(bits: i64) -> (r: i64)
    requires
        atan_defined(bits as int),
    ensures
        r == cordic_atan(bits),
{
    cordic::atan(fixed::types::I32F32::from_bits(bits)).to_bits()
}

/// Calls `cordic::atan2`. On an axis the routine answers at once, and the
/// answer is stated: a quarter turn up or down where `x` is zero, else
/// zero or a half turn where `y` is zero. Elsewhere the result is named,
/// not stated: the routine negates its arguments and takes the arctangent
/// of their quotient, and left out are the pairs on which one of these
/// steps overflows.
#[verifier::external_body]
fn atan2_bits(y: i64, x: i64) -> (r: i64)
    requires
        atan2_defined(y as int, x as int),
    ensures
        r == cordic_atan2(y, x),
        x == 0 || y == 0 ==> r == atan2_on_axis(y as int, x as int),
{
    cordic::atan2(fixed::types::I32F32::from_bits(y), fixed::types::I32F32::from_bits(x)).to_bits()
}

impl Fx {
    /// Whether `sqrt` takes the value.
    pub fn has_sqrt(&self) -> (r: bool)
        ensures
            r == sqrt_defined(self@),
    {
        0 <= self.bits && self.bits < SQRT_LIMIT_BITS
    }

    /// Whether `exp` takes the value.
    pub fn has_exp(&self) -> (r: bool)
        ensures
            r == exp_defined(self@),
    {
        self.bits < EXP_LIMIT_BITS
    }

    /// Whether `asin` and `acos` take the value.
    pub fn has_asin(&self) -> (r: bool)
        ensures
            r == asin_defined(self@),
    {
        -ASIN_LIMIT_BITS <= self.bits && self.bits <= ASIN_LIMIT_BITS
    }

    /// Whether `atan` takes the value.
    pub fn has_atan(&self) -> (r: bool)
        ensures
            r == atan_defined(self@),
    {
        -ATAN_LIMIT_BITS <= self.bits && self.bits <= ATAN_LIMIT_BITS
    }

    /// Whether `atan2` takes the pair, `self` over `other`.
    pub fn has_atan2(&self, other: &Fx) -> (r: bool)
        ensures
            r == atan2_defined(self@, other@),
    {
        if other.bits == 0 || self.bits == 0 {
            true
        } else if self.bits == i64::MIN || other.bits == i64::MIN {
            false
        } else {
            (*self / *other).has_atan()
        }
    }

    /// The square root, for a value that is zero or above and below `2^30`.
    /// On a negative value the digit-by-digit routine has no result at all,
    /// on any machine: use `try_sqrt` where the sign is not known.
    pub fn sqrt(self) -> (r: Fx)
        requires
            sqrt_defined(self@),
        ensures
            r.bits == cordic_sqrt(self.bits),
            self@ == 0 || self@ == ONE_BITS ==> r == self,
    {
        Fx { bits: sqrt_bits(self.bits) }
    }

    /// The square root where there is one: none for a negative value.
    pub fn try_sqrt(self) -> (r: Option<Fx>)
        requires
            self@ < SQRT_LIMIT_BITS,
        ensures
            self@ < 0 ==> r.is_none(),
            self@ >= 0 ==> r == Some(Fx { bits: cordic_sqrt(self.bits) }),
            self@ == 0 || self@ == ONE_BITS ==> r == Some(self),
    {
        if self.bits >= 0 {
            Some(self.sqrt())
        } else {
            None
        }
    }

    /// The exponential, for a value below 21.
    pub fn exp(self) -> (r: Fx)
        requires
            exp_defined(self@),
        ensures
            r.bits == cordic_exp(self.bits),
    {
        Fx { bits: exp_bits(self.bits) }
    }

    /// The sine and the cosine of an angle, computed together.
    pub fn sin_cos(self) -> (r: (Fx, Fx))
        ensures
            r.0.bits == cordic_sin_cos(self.bits).0,
            r.1.bits == cordic_sin_cos(self.bits).1,
    {
        let (s, c) = sin_cos_bits(self.bits);
        (Fx { bits: s }, Fx { bits: c })
    }

    /// The sine: the first component of `sin_cos`.
    pub fn sin(self) -> (r: Fx)
        ensures
            r.bits == sin_raw(self.bits),
    {
        self.sin_cos().0
    }

    /// The cosine: the second component of `sin_cos`.
    pub fn cos(self) -> (r: Fx)
        ensures
            r.bits == cos_raw(self.bits),
    {
        self.sin_cos().1
    }

    /// The tangent: the sine over the cosine, by the total quotient, so a
    /// cosine of zero gives a bound and not a failure.
    pub fn tan(self) -> (r: Fx)
        ensures
            r@ == div_raw(sin_raw(self.bits) as int, cos_raw(self.bits) as int),
    {
        let (s, c) = self.sin_cos();
        s.div(c)
    }

    /// The arcsine, for a value of magnitude up to `2^29`. It is an angle
    /// only where the magnitude is at most one.
    pub fn asin(self) -> (r: Fx)
        requires
            asin_defined(self@),
        ensures
            r.bits == cordic_asin(self.bits),
    {
        Fx { bits: asin_bits(self.bits) }
    }

    /// The arccosine: a quarter turn less the arcsine.
    pub fn acos(self) -> (r: Fx)
        requires
            asin_defined(self@),
        ensures
            r@ == sub_raw(FRAC_PI_2_BITS as int, cordic_asin(self.bits) as int),
    {
        Fx::frac_pi_2().sub(self.asin())
    }

    /// The arctangent, for a value of magnitude up to `2^30`.
    pub fn atan(self) -> (r: Fx)
        requires
            atan_defined(self@),
        ensures
            r.bits == cordic_atan(self.bits),
    {
        Fx { bits: atan_bits(self.bits) }
    }

    /// The angle of the point `(other, self)`, by quadrant.
    pub fn atan2(self, other: Fx) -> (r: Fx)
        requires
            atan2_defined(self@, other@),
        ensures
            r.bits == cordic_atan2(self.bits, other.bits),
            self@ == 0 || other@ == 0 ==> r@ == atan2_on_axis(self@, other@),
    {
        Fx { bits: atan2_bits(self.bits, other.bits) }
    }

    /// Always true: no value stands for an infinity or for a failed
    /// computation.
    pub fn is_finite(&self) -> (r: bool)
        ensures
            r,
    {
        true
    }
}

/// The sine and the cosine computed apart are the two components computed
/// together, bit for bit, and so within any tolerance of zero or more.
pub proof fn sin_cos_agrees_with_sin_and_cos(x: Fx, epsilon: Fx)
    requires
        epsilon@ >= 0,
    ensures
        sin_raw(x.bits) == cordic_sin_cos(x.bits).0,
        cos_raw(x.bits) == cordic_sin_cos(x.bits).1,
        abs_diff_eq_spec(sin_raw(x.bits) as int, cordic_sin_cos(x.bits).0 as int, epsilon@),
        abs_diff_eq_spec(cos_raw(x.bits) as int, cordic_sin_cos(x.bits).1 as int, epsilon@),
{
}

} // verus!
