//! In-place arithmetic, sign, magnitude and order.

use vstd::prelude::*;
use crate::fx::{Fx, add_raw, sub_raw, mul_raw, div_raw, rem_raw, neg_raw, abs_raw, signum_raw};

verus! {

impl Fx {
    /// In-place saturating sum.
    pub fn add_assign(&mut self, rhs: Fx)
        ensures
            final(self)@ == add_raw(old(self)@, rhs@),
    {
        *self = self.add(rhs);
    }

    /// In-place saturating difference.
    pub fn sub_assign(&mut self, rhs: Fx)
        ensures
            final(self)@ == sub_raw(old(self)@, rhs@),
    {
        *self = self.sub(rhs);
    }

    /// In-place saturating product.
    pub fn mul_assign(&mut self, rhs: Fx)
        ensures
            final(self)@ == mul_raw(old(self)@, rhs@),
    {
        *self = self.mul(rhs);
    }

    /// In-place total quotient.
    pub fn div_assign(&mut self, rhs: Fx)
        ensures
            final(self)@ == div_raw(old(self)@, rhs@),
    {
        *self = self.div(rhs);
    }

    /// In-place total remainder.
    pub fn rem_assign(&mut self, rhs: Fx)
        ensures
            final(self)@ == rem_raw(old(self)@, rhs@),
    {
        *self = self.rem(rhs);
    }

    /// Saturating absolute value: the least value has the greatest as its
    /// magnitude.
    pub fn abs(self) -> (r: Fx)
        ensures
            r@ == abs_raw(self@),
    {
        if self.bits >= 0 {
            self
        } else {
            self.neg()
        }
    }

    /// The magnitude of `self` less `other`, saturating.
    pub fn abs_sub(self, other: Fx) -> (r: Fx)
        ensures
            r@ == sub_raw(abs_raw(self@), other@),
    {
        self.abs() - other
    }

    /// One, zero or minus one, after the sign of the value.
    pub fn signum(self) -> (r: Fx)
        ensures
            r@ == signum_raw(self@),
    {
        if self.bits > 0 {
            Fx { bits: 0x1_0000_0000i64 }
        } else if self.bits < 0 {
            Fx { bits: -0x1_0000_0000i64 }
        } else {
            Fx { bits: 0 }
        }
    }

    /// Whether the value is zero or above. Zero counts as positive here.
    pub fn is_positive(&self) -> (r: bool)
        ensures
            r == (self@ >= 0),
    {
        self.bits >= 0
    }

    /// Whether the value is zero or below. Zero counts as negative here.
    pub fn is_negative(&self) -> (r: bool)
        ensures
            r == (self@ <= 0),
    {
        self.bits <= 0
    }

    /// Whether the value is strictly above zero.
    pub fn is_sign_positive(self) -> (r: bool)
        ensures
            r == (self@ > 0),
    {
        self.bits > 0
    }

    /// Whether the value is strictly below zero.
    pub fn is_sign_negative(self) -> (r: bool)
        ensures
            r == (self@ < 0),
    {
        self.bits < 0
    }

    /// The magnitude of `self` with the sign of `sign`; a zero `sign` counts
    /// as positive.
    pub fn copysign(self, sign: Fx) -> (r: Fx)
        ensures
            r@ == if sign@ >= 0 {
                abs_raw(self@)
            } else {
                neg_raw(abs_raw(self@))
            },
    {
        if sign.bits >= 0 {
            self.abs()
        } else {
            self.abs().neg()
        }
    }

    /// `self * a + b`, each step saturating.
    pub fn mul_add(self, a: Fx, b: Fx) -> (r: Fx)
        ensures
            r@ == add_raw(mul_raw(self@, a@), b@),
    {
        self * a + b
    }

    /// The reciprocal; the reciprocal of zero is the greatest value.
    pub fn recip(self) -> (r: Fx)
        ensures
            r@ == div_raw(0x1_0000_0000, self@),
    {
        Fx::one() / self
    }
}

} // verus!
