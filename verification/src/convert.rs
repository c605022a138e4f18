//! Conversions between the scalar and the machine integers.
//!
//! From an integer: the whole number it denotes, or the bound on its side
//! where it lies outside the 32 integer bits. To an integer: the fractional
//! bits are dropped, which moves a negative value down (`-1.5` gives `-2`),
//! and the whole number left is held to the target's range.

use vstd::prelude::*;
use crate::fx::{Fx, clamp_raw, clamp_wide};

verus! {

/// Raw pattern of the whole number `n`, saturating.
pub open spec fn from_int_raw(n: int) -> int {
    clamp_raw(n * 0x1_0000_0000)
}

/// The whole number left when the fractional bits are dropped.
pub open spec fn whole(a: int) -> int {
    a / 0x1_0000_0000
}

/// `v` held to the range from `lo` to `hi`.
pub open spec fn held_to(v: int, lo: int, hi: int) -> int {
    if v < lo {
        lo
    } else if v > hi {
        hi
    } else {
        v
    }
}

fn from_wide(n: i128) -> (r: Fx)
    requires
        -0x1_0000_0000_0000_0000 <= n <= 0x1_0000_0000_0000_0000,
    ensures
        r@ == from_int_raw(n as int),
{
    Fx { bits: clamp_wide(n * 0x1_0000_0000i128) }
}

fn whole_part(bits: i64) -> (r: i64)
    ensures
        r as int == whole(bits as int),
        -0x8000_0000 <= r <= 0x7fff_ffff,
{
    match bits.checked_div_euclid(0x1_0000_0000i64) {
        Some(q) => q,
        None => 0,
    }
}

impl Fx {
    /// The whole number `n` as a scalar, saturating; never `None`.
    pub fn from_i8(n: i8) -> (r: Option<Fx>)
        ensures
            r.is_some() && r.unwrap()@ == from_int_raw(n as int),
    {
        Some(from_wide(n as i128))
    }

    /// The whole number `n` as a scalar, saturating; never `None`.
    pub fn from_i16(n: i16) -> (r: Option<Fx>)
        ensures
            r.is_some() && r.unwrap()@ == from_int_raw(n as int),
    {
        Some(from_wide(n as i128))
    }

    /// The whole number `n` as a scalar, saturating; never `None`.
    pub fn from_i32(n: i32) -> (r: Option<Fx>)
        ensures
            r.is_some() && r.unwrap()@ == from_int_raw(n as int),
    {
        Some(from_wide(n as i128))
    }

    /// The whole number `n` as a scalar, saturating; never `None`.
    pub fn from_i64(n: i64) -> (r: Option<Fx>)
        ensures
            r.is_some() && r.unwrap()@ == from_int_raw(n as int),
    {
        Some(from_wide(n as i128))
    }

    /// The whole number `n` as a scalar, saturating; never `None`.
    pub fn from_isize(n: isize) -> (r: Option<Fx>)
        ensures
            r.is_some() && r.unwrap()@ == from_int_raw(n as int),
    {
        Some(from_wide(n as i128))
    }

    /// The whole number `n` as a scalar, saturating; never `None`.
    pub fn from_u8(n: u8) -> (r: Option<Fx>)
        ensures
            r.is_some() && r.unwrap()@ == from_int_raw(n as int),
    {
        Some(from_wide(n as i128))
    }

    /// The whole number `n` as a scalar, saturating; never `None`.
    pub fn from_u16(n: u16) -> (r: Option<Fx>)
        ensures
            r.is_some() && r.unwrap()@ == from_int_raw(n as int),
    {
        Some(from_wide(n as i128))
    }

    /// The whole number `n` as a scalar, saturating; never `None`.
    pub fn from_u32(n: u32) -> (r: Option<Fx>)
        ensures
            r.is_some() && r.unwrap()@ == from_int_raw(n as int),
    {
        Some(from_wide(n as i128))
    }

    /// The whole number `n` as a scalar, saturating; never `None`.
    pub fn from_u64(n: u64) -> (r: Option<Fx>)
        ensures
            r.is_some() && r.unwrap()@ == from_int_raw(n as int),
    {
        Some(from_wide(n as i128))
    }

    /// The whole number `n` as a scalar, saturating; never `None`.
    pub fn from_usize(n: usize) -> (r: Option<Fx>)
        ensures
            r.is_some() && r.unwrap()@ == from_int_raw(n as int),
    {
        Some(from_wide(n as i128))
    }

    /// The whole part as an `i8`, held to its range.
    pub fn to_i8(&self) -> (r: i8)
        ensures
            r as int == held_to(whole(self@), i8::MIN as int, i8::MAX as int),
    {
        let w: i64 = whole_part(self.bits);
        if w < -128 {
            -128i8
        } else if w > 127 {
            127i8
        } else {
            w as i8
        }
    }

    /// The same as `to_i8`, signed result included: the name promises an
    /// unsigned byte, the signature has never given one, and callers hold
    /// the signature.
    pub fn to_u8(&self) -> (r: i8)
        ensures
            r as int == held_to(whole(self@), i8::MIN as int, i8::MAX as int),
    {
        self.to_i8()
    }

    /// The whole part as an `i16`, held to its range.
    pub fn to_i16(&self) -> (r: i16)
        ensures
            r as int == held_to(whole(self@), i16::MIN as int, i16::MAX as int),
    {
        let w: i64 = whole_part(self.bits);
        if w < -32768 {
            -32768i16
        } else if w > 32767 {
            32767i16
        } else {
            w as i16
        }
    }

    /// The same as `to_i16`, signed result included, for the reason given
    /// at `to_u8`.
    pub fn to_u16(&self) -> (r: i16)
        ensures
            r as int == held_to(whole(self@), i16::MIN as int, i16::MAX as int),
    {
        self.to_i16()
    }

    /// The whole part as an `i32`: it always fits.
    pub fn to_i32(&self) -> (r: i32)
        ensures
            r as int == whole(self@),
    {
        whole_part(self.bits) as i32
    }

    /// The whole part as a `u32`; zero for a negative value.
    pub fn to_u32(&self) -> (r: u32)
        ensures
            r as int == held_to(whole(self@), 0, u32::MAX as int),
    {
        let w: i64 = whole_part(self.bits);
        if w < 0 {
            0u32
        } else {
            w as u32
        }
    }

    /// The whole part as an `i64`: it always fits.
    pub fn to_i64(&self) -> (r: i64)
        ensures
            r as int == whole(self@),
    {
        whole_part(self.bits)
    }

    /// The whole part as a `u64`; zero for a negative value.
    pub fn to_u64(&self) -> (r: u64)
        ensures
            r as int == held_to(whole(self@), 0, u64::MAX as int),
    {
        let w: i64 = whole_part(self.bits);
        if w < 0 {
            0u64
        } else {
            w as u64
        }
    }

    /// The whole part as an `isize`: it always fits.
    pub fn to_isize(&self) -> (r: isize)
        ensures
            r as int == whole(self@),
    {
        whole_part(self.bits) as isize
    }

    /// The whole part as a `usize`; zero for a negative value.
    pub fn to_usize(&self) -> (r: usize)
        ensures
            r as int == held_to(whole(self@), 0, usize::MAX as int),
    {
        let w: i64 = whole_part(self.bits);
        if w < 0 {
            0usize
        } else {
            w as usize
        }
    }
}

} // verus!
