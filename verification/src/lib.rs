//! A deterministic 32.32 fixed-point scalar with saturating, total arithmetic.
//!
//! Every value is a signed 64-bit pattern read at the scale `2^32`; every
//! contract in this crate is stated over that pattern. No operation leaves
//! the representable range, wraps, or fails on overflow or on a zero
//! divisor.

pub mod fx;
pub mod ops;
pub mod order;
pub mod sign;
pub mod round;
pub mod equality;
pub mod convert;
pub mod consts;
pub mod transcendental;
pub mod conform;
pub mod format;
pub mod laws;
