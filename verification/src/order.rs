//! The order of the scalar: that of the raw patterns, total.

use vstd::prelude::*;
use core::cmp::Ordering;
use crate::fx::Fx;

verus! {

impl PartialOrd for Fx {
    fn partial_cmp(&self, other: &Fx) -> (r: Option<Ordering>) {
        if self.bits < other.bits {
            Some(Ordering::Less)
        } else if self.bits > other.bits {
            Some(Ordering::Greater)
        } else {
            Some(Ordering::Equal)
        }
    }
}

impl vstd::std_specs::cmp::PartialOrdSpecImpl for Fx {
    open spec fn obeys_partial_cmp_spec() -> bool {
        true
    }

    open spec fn partial_cmp_spec(&self, other: &Fx) -> Option<Ordering> {
        if self.bits < other.bits {
            Some(Ordering::Less)
        } else if self.bits > other.bits {
            Some(Ordering::Greater)
        } else {
            Some(Ordering::Equal)
        }
    }
}

impl Fx {
    /// The greater of two values.
    pub fn max(self, other: Fx) -> (r: Fx)
        ensures
            r@ == if self@ >= other@ { self@ } else { other@ },
    {
        if self >= other {
            self
        } else {
            other
        }
    }

    /// The lesser of two values.
    pub fn min(self, other: Fx) -> (r: Fx)
        ensures
            r@ == if self@ < other@ { self@ } else { other@ },
    {
        if self < other {
            self
        } else {
            other
        }
    }

    /// The value held between two bounds. The lower bound is tested first,
    /// so it wins where the bounds cross.
    pub fn clamp(self, min: Fx, max: Fx) -> (r: Fx)
        ensures
            r@ == if self@ < min@ {
                min@
            } else if self@ > max@ {
                max@
            } else {
                self@
            },
    {
        if self < min {
            min
        } else if self > max {
            max
        } else {
            self
        }
    }
}

} // verus!
