//! Rounding to whole numbers.

use vstd::prelude::*;
use crate::fx::{Fx, clamp_raw};

verus! {

/// Raw pattern of the greatest whole number at or below the value.
pub open spec fn floor_raw(a: int) -> int {
    a - a % 0x1_0000_0000
}

/// Raw pattern of the part of the value above its floor: in `[0, 1)`.
pub open spec fn fract_raw(a: int) -> int {
    a % 0x1_0000_0000
}

/// Raw pattern of the least whole number at or above the value, saturating.
pub open spec fn ceil_raw(a: int) -> int {
    if a % 0x1_0000_0000 == 0 {
        a
    } else {
        clamp_raw(floor_raw(a) + 0x1_0000_0000)
    }
}

/// Raw pattern of the nearest whole number, a tie going away from zero,
/// saturating.
pub open spec fn round_raw(a: int) -> int {
    let f = a % 0x1_0000_0000;
    if f < 0x8000_0000 || (f == 0x8000_0000 && a < 0) {
        floor_raw(a)
    } else {
        clamp_raw(floor_raw(a) + 0x1_0000_0000)
    }
}

/// The floor and the fractional part make up the value: the floor is a
/// whole number at or below it, the fractional part lies in `[0, 1)`, and
/// the ceiling and the rounded value are whole, or the greatest value.
pub proof fn floor_and_fraction_make_the_value(a: Fx)
    ensures
        floor_raw(a@) + fract_raw(a@) == a@,
        0 <= fract_raw(a@) < 0x1_0000_0000,
        floor_raw(a@) % 0x1_0000_0000 == 0,
        i64::MIN <= floor_raw(a@) <= a@,
        ceil_raw(a@) >= a@,
        ceil_raw(a@) % 0x1_0000_0000 == 0 || ceil_raw(a@) == i64::MAX,
        round_raw(a@) % 0x1_0000_0000 == 0 || round_raw(a@) == i64::MAX,
{
}

impl Fx {
    /// The part above the floor, never negative: `-2.25` gives `0.75`.
    pub fn fract(self) -> (r: Fx)
        ensures
            r@ == fract_raw(self@),
    {
        match self.bits.checked_rem_euclid(0x1_0000_0000i64) {
            Some(f) => Fx { bits: f },
            None => Fx { bits: 0 },
        }
    }

    /// The greatest whole number at or below the value.
    pub fn floor(self) -> (r: Fx)
        ensures
            r@ == floor_raw(self@),
    {
        let f: i64 = self.fract().bits;
        Fx { bits: self.bits - f }
    }

    /// The whole part of the value. Fractional bits are dropped, so a
    /// negative value moves down: `-2.25` gives `-3`.
    pub fn trunc(self) -> (r: Fx)
        ensures
            r@ == floor_raw(self@),
    {
        self.floor()
    }

    /// The least whole number at or above the value; above the greatest
    /// whole number it is the greatest value.
    pub fn ceil(self) -> (r: Fx)
        ensures
            r@ == ceil_raw(self@),
    {
        let f: i64 = self.fract().bits;
        if f == 0 {
            self
        } else {
            self.floor().add(Fx::one())
        }
    }

    /// The nearest whole number, a tie going away from zero; above the
    /// greatest whole number it is the greatest value.
    pub fn round(self) -> (r: Fx)
        ensures
            r@ == round_raw(self@),
    {
        let f: i64 = self.fract().bits;
        if f < 0x8000_0000i64 || (f == 0x8000_0000i64 && self.bits < 0) {
            self.floor()
        } else {
            self.floor().add(Fx::one())
        }
    }
}

} // verus!
