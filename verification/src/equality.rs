//! Approximate equality in three tiers above exact equality: by absolute
//! difference, by relative difference, and by distance of raw patterns.

use vstd::prelude::*;
use crate::fx::{Fx, clamp_raw, mul_raw, abs_raw, signum_raw};

verus! {

/// Raw pattern of the default tolerance of the absolute tier.
pub const DEFAULT_EPSILON_BITS: i64 = 0x16i64;

/// Default greatest distance of raw patterns that the last tier accepts.
pub const DEFAULT_MAX_ULPS: u32 = 4u32;

/// Raw pattern of the saturated magnitude of `a - b`.
pub open spec fn dist_raw(a: int, b: int) -> int {
    if a >= b {
        clamp_raw(a - b)
    } else {
        clamp_raw(b - a)
    }
}

/// Equality by absolute difference: `|a - b| <= epsilon`, the difference
/// saturating.
pub open spec fn abs_diff_eq_spec(a: int, b: int, epsilon: int) -> bool {
    dist_raw(a, b) <= epsilon
}

/// Equality by relative difference: the absolute tier passes, or the
/// difference is at most the larger magnitude times `max_relative`.
pub open spec fn relative_eq_spec(a: int, b: int, epsilon: int, max_relative: int) -> bool {
    let largest = if abs_raw(b) > abs_raw(a) {
        abs_raw(b)
    } else {
        abs_raw(a)
    };
    dist_raw(a, b) <= epsilon || dist_raw(a, b) <= mul_raw(largest, max_relative)
}

/// Equality by distance of raw patterns: the absolute tier passes, or the
/// signs agree and the raw patterns are at most `max_ulps` apart.
pub open spec fn ulps_eq_spec(a: int, b: int, epsilon: int, max_ulps: int) -> bool {
    abs_diff_eq_spec(a, b, epsilon) || (signum_raw(a) == signum_raw(b) && (if a > b {
        a - b
    } else {
        b - a
    }) <= max_ulps)
}

impl Fx {
    /// The default tolerance of the absolute tier: 22 raw units.
    pub fn default_epsilon() -> (r: Fx)
        ensures
            r@ == 22,
    {
        Fx { bits: DEFAULT_EPSILON_BITS }
    }

    /// The default relative tolerance: the default absolute tolerance.
    pub fn default_max_relative() -> (r: Fx)
        ensures
            r@ == 22,
    {
        Fx::default_epsilon()
    }

    /// The default distance of raw patterns: 4.
    pub fn default_max_ulps() -> (r: u32)
        ensures
            r == 4,
    {
        DEFAULT_MAX_ULPS
    }

    /// Exact equality: the raw patterns are the same.
    pub fn exact_eq(&self, other: &Fx) -> (r: bool)
        ensures
            r == (self@ == other@),
    {
        self.bits == other.bits
    }

    /// Equality by absolute difference.
    pub fn abs_diff_eq(&self, other: &Fx, epsilon: Fx) -> (r: bool)
        ensures
            r == abs_diff_eq_spec(self@, other@, epsilon@),
    {
        if self.bits > other.bits {
            self.sub(*other).bits <= epsilon.bits
        } else {
            other.sub(*self).bits <= epsilon.bits
        }
    }

    /// Equality by relative difference.
    pub fn relative_eq(&self, other: &Fx, epsilon: Fx, max_relative: Fx) -> (r: bool)
        ensures
            r == relative_eq_spec(self@, other@, epsilon@, max_relative@),
    {
        let abs_diff = self.sub(*other).abs();
        if abs_diff.bits <= epsilon.bits {
            return true;
        }
        let abs_self = self.abs();
        let abs_other = other.abs();
        let largest = if abs_other.bits > abs_self.bits {
            abs_other
        } else {
            abs_self
        };
        abs_diff.bits <= largest.mul(max_relative).bits
    }

    /// Equality by distance of raw patterns. Two values of different sign
    /// that fail the absolute tier are never equal, however close their
    /// patterns are.
    pub fn ulps_eq(&self, other: &Fx, epsilon: Fx, max_ulps: u32) -> (r: bool)
        ensures
            r == ulps_eq_spec(self@, other@, epsilon@, max_ulps as int),
    {
        if self.abs_diff_eq(other, epsilon) {
            return true;
        }
        if self.signum().bits != other.signum().bits {
            return false;
        }
        let bits1: i64 = self.bits;
        let bits2: i64 = other.bits;
        let limit: i64 = max_ulps as i64;
        if bits1 > bits2 {
            (bits1 - bits2) <= limit
        } else {
            (bits2 - bits1) <= limit
        }
    }
}

} // verus!
