//! The scalar as a real number among complex numbers, as a subset of
//! itself, and as a vector of one lane.

use vstd::prelude::*;
use crate::fx::{Fx, mul_raw, div_raw, abs_raw, neg_raw};
use crate::consts::PI_BITS;

verus! {

impl Fx {
    /// Number of lanes: one.
    pub fn lanes() -> (r: usize)
        ensures
            r == 1,
    {
        1
    }

    /// The vector whose one lane holds `val`.
    pub fn splat(val: Fx) -> (r: Fx)
        ensures
            r == val,
    {
        val
    }

    /// The one lane, whatever the index.
    pub fn extract(&self, _i: usize) -> (r: Fx)
        ensures
            r == *self,
    {
        *self
    }

    /// Sets the one lane, whatever the index.
    pub fn replace(&mut self, _i: usize, val: Fx)
        ensures
            *final(self) == val,
    {
        *self = val;
    }

    /// `self` where `cond` holds, else `other`.
    pub fn select(self, cond: bool, other: Fx) -> (r: Fx)
        ensures
            r == if cond { self } else { other },
    {
        if cond {
            self
        } else {
            other
        }
    }

    /// The value with the given real part and no imaginary part.
    pub fn from_real(re: Fx) -> (r: Fx)
        ensures
            r == re,
    {
        re
    }

    /// The real part: the value itself.
    pub fn real_part(self) -> (r: Fx)
        ensures
            r == self,
    {
        self
    }

    /// The imaginary part: always zero.
    pub fn imaginary(self) -> (r: Fx)
        ensures
            r@ == 0,
    {
        Fx::zero()
    }

    /// The 1-norm: the saturating magnitude.
    pub fn norm1(self) -> (r: Fx)
        ensures
            r@ == abs_raw(self@),
    {
        self.abs()
    }

    /// The modulus: the saturating magnitude.
    pub fn modulus(self) -> (r: Fx)
        ensures
            r@ == abs_raw(self@),
    {
        self.abs()
    }

    /// The square of the modulus, saturating.
    pub fn modulus_squared(self) -> (r: Fx)
        ensures
            r@ == mul_raw(self@, self@),
    {
        self * self
    }

    /// The argument: zero for a value of zero or above, pi below.
    pub fn argument(self) -> (r: Fx)
        ensures
            r@ == if self@ >= 0 { 0 } else { PI_BITS as int },
    {
        if self.bits >= 0 {
            Fx::zero()
        } else {
            Fx::pi()
        }
    }

    /// Magnitude and sign: `(self, 1)` for zero or above, `(-self, -1)`
    /// below.
    pub fn to_exp(self) -> (r: (Fx, Fx))
        ensures
            self@ >= 0 ==> r.0 == self && r.1@ == 0x1_0000_0000,
            self@ < 0 ==> r.0@ == neg_raw(self@) && r.1@ == -0x1_0000_0000,
    {
        if self.bits >= 0 {
            (self, Fx::one())
        } else {
            (self.neg(), Fx::one().neg())
        }
    }

    /// The conjugate: the value itself.
    pub fn conjugate(self) -> (r: Fx)
        ensures
            r == self,
    {
        self
    }

    /// The product with a real factor, saturating.
    pub fn scale(self, factor: Fx) -> (r: Fx)
        ensures
            r@ == mul_raw(self@, factor@),
    {
        self * factor
    }

    /// The quotient by a real factor, total.
    pub fn unscale(self, factor: Fx) -> (r: Fx)
        ensures
            r@ == div_raw(self@, factor@),
    {
        self / factor
    }

    /// The value in the set of all scalars: itself.
    pub fn to_superset(&self) -> (r: Fx)
        ensures
            r == *self,
    {
        *self
    }

    /// The value taken back from the set of all scalars: always there.
    pub fn from_superset(element: &Fx) -> (r: Option<Fx>)
        ensures
            r == Some(*element),
    {
        Some(*element)
    }

    /// The value taken back from the set of all scalars.
    pub fn from_superset_unchecked(element: &Fx) -> (r: Fx)
        ensures
            r == *element,
    {
        *element
    }

    /// Always true: every scalar is a scalar.
    pub fn is_in_subset(_element: &Fx) -> (r: bool)
        ensures
            r,
    {
        true
    }
}

} // verus!
