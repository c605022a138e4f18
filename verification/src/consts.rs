//! Named constants at 32.32 precision. Each is the constant cut off after
//! 32 fractional bits, not rounded.

use vstd::prelude::*;
use crate::fx::{Fx, add_raw};

verus! {

/// Raw pattern of pi.
pub const PI_BITS: i64 = 0x3_243f_6a88i64;
/// Raw pattern of pi / 2.
pub const FRAC_PI_2_BITS: i64 = 0x1_921f_b544i64;
/// Raw pattern of pi / 3.
pub const FRAC_PI_3_BITS: i64 = 0x1_0c15_2382i64;
/// Raw pattern of pi / 4.
pub const FRAC_PI_4_BITS: i64 = 0xc90f_daa2i64;
/// Raw pattern of pi / 6.
pub const FRAC_PI_6_BITS: i64 = 0x860a_91c1i64;
/// Raw pattern of pi / 8.
pub const FRAC_PI_8_BITS: i64 = 0x6487_ed51i64;
/// Raw pattern of 1 / pi.
pub const FRAC_1_PI_BITS: i64 = 0x517c_c1b7i64;
/// Raw pattern of 2 / pi.
pub const FRAC_2_PI_BITS: i64 = 0xa2f9_836ei64;
/// Raw pattern of 2 / sqrt(pi).
pub const FRAC_2_SQRT_PI_BITS: i64 = 0x1_20dd_7504i64;
/// Raw pattern of Euler's number.
pub const E_BITS: i64 = 0x2_b7e1_5162i64;
/// Raw pattern of log2(e).
pub const LOG2_E_BITS: i64 = 0x1_7154_7652i64;
/// Raw pattern of log10(e).
pub const LOG10_E_BITS: i64 = 0x6f2d_ec54i64;
/// Raw pattern of ln(2).
pub const LN_2_BITS: i64 = 0xb172_17f7i64;
/// Raw pattern of ln(10).
pub const LN_10_BITS: i64 = 0x2_4d76_3776i64;

impl Fx {
    /// Archimedes' constant.
    pub fn pi() -> (r: Fx)
        ensures
            r.bits == PI_BITS,
    {
        Fx { bits: PI_BITS }
    }

    /// Twice pi, as the sum of pi with itself.
    pub fn two_pi() -> (r: Fx)
        ensures
            r@ == add_raw(PI_BITS as int, PI_BITS as int),
            r@ == 2 * PI_BITS,
    {
        Fx::pi() + Fx::pi()
    }

    /// pi / 2.
    pub fn frac_pi_2() -> (r: Fx)
        ensures
            r.bits == FRAC_PI_2_BITS,
    {
        Fx { bits: FRAC_PI_2_BITS }
    }

    /// pi / 3.
    pub fn frac_pi_3() -> (r: Fx)
        ensures
            r.bits == FRAC_PI_3_BITS,
    {
        Fx { bits: FRAC_PI_3_BITS }
    }

    /// pi / 4.
    pub fn frac_pi_4() -> (r: Fx)
        ensures
            r.bits == FRAC_PI_4_BITS,
    {
        Fx { bits: FRAC_PI_4_BITS }
    }

    /// pi / 6.
    pub fn frac_pi_6() -> (r: Fx)
        ensures
            r.bits == FRAC_PI_6_BITS,
    {
        Fx { bits: FRAC_PI_6_BITS }
    }

    /// pi / 8.
    pub fn frac_pi_8() -> (r: Fx)
        ensures
            r.bits == FRAC_PI_8_BITS,
    {
        Fx { bits: FRAC_PI_8_BITS }
    }

    /// 1 / pi.
    pub fn frac_1_pi() -> (r: Fx)
        ensures
            r.bits == FRAC_1_PI_BITS,
    {
        Fx { bits: FRAC_1_PI_BITS }
    }

    /// 2 / pi.
    pub fn frac_2_pi() -> (r: Fx)
        ensures
            r.bits == FRAC_2_PI_BITS,
    {
        Fx { bits: FRAC_2_PI_BITS }
    }

    /// 2 / sqrt(pi).
    pub fn frac_2_sqrt_pi() -> (r: Fx)
        ensures
            r.bits == FRAC_2_SQRT_PI_BITS,
    {
        Fx { bits: FRAC_2_SQRT_PI_BITS }
    }

    /// Euler's number.
    pub fn e() -> (r: Fx)
        ensures
            r.bits == E_BITS,
    {
        Fx { bits: E_BITS }
    }

    /// log2(e).
    pub fn log2_e() -> (r: Fx)
        ensures
            r.bits == LOG2_E_BITS,
    {
        Fx { bits: LOG2_E_BITS }
    }

    /// log10(e).
    pub fn log10_e() -> (r: Fx)
        ensures
            r.bits == LOG10_E_BITS,
    {
        Fx { bits: LOG10_E_BITS }
    }

    /// ln(2).
    pub fn ln_2() -> (r: Fx)
        ensures
            r.bits == LN_2_BITS,
    {
        Fx { bits: LN_2_BITS }
    }

    /// ln(10).
    pub fn ln_10() -> (r: Fx)
        ensures
            r.bits == LN_10_BITS,
    {
        Fx { bits: LN_10_BITS }
    }
}

} // verus!
