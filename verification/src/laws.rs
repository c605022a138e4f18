//! Laws of the arithmetic and of the equality tiers, stated over raw
//! patterns and proved.

use vstd::prelude::*;
use crate::fx::{Fx, clamp_raw, add_raw, sub_raw, mul_raw, div_raw, rem_raw, neg_raw, abs_raw, signum_raw};
use crate::equality::{dist_raw, abs_diff_eq_spec, relative_eq_spec, ulps_eq_spec};

verus! {

/// A sum or a difference never leaves the representable range: where the
/// exact result fits it is the result, and where it does not the result is
/// the bound on that side.
pub proof fn sum_and_difference_saturate(a: Fx, b: Fx)
    ensures
        i64::MIN <= add_raw(a@, b@) <= i64::MAX,
        i64::MIN <= sub_raw(a@, b@) <= i64::MAX,
        a@ + b@ > i64::MAX ==> add_raw(a@, b@) == i64::MAX,
        a@ + b@ < i64::MIN ==> add_raw(a@, b@) == i64::MIN,
        i64::MIN <= a@ + b@ <= i64::MAX ==> add_raw(a@, b@) == a@ + b@,
        a@ - b@ > i64::MAX ==> sub_raw(a@, b@) == i64::MAX,
        a@ - b@ < i64::MIN ==> sub_raw(a@, b@) == i64::MIN,
        i64::MIN <= a@ - b@ <= i64::MAX ==> sub_raw(a@, b@) == a@ - b@,
{
}

/// Every arithmetic result is a representable raw pattern.
pub proof fn arithmetic_stays_in_range(a: Fx, b: Fx)
    ensures
        i64::MIN <= mul_raw(a@, b@) <= i64::MAX,
        i64::MIN <= div_raw(a@, b@) <= i64::MAX,
        i64::MIN <= neg_raw(a@) <= i64::MAX,
        0 <= abs_raw(a@) <= i64::MAX,
{
}

/// Zero is the identity of the sum and one that of the product and of the
/// quotient; zero times anything is zero.
pub proof fn zero_and_one_are_identities(a: Fx)
    ensures
        add_raw(a@, 0) == a@,
        add_raw(0, a@) == a@,
        sub_raw(a@, 0) == a@,
        mul_raw(a@, 0x1_0000_0000) == a@,
        mul_raw(0x1_0000_0000, a@) == a@,
        div_raw(a@, 0x1_0000_0000) == a@,
        mul_raw(a@, 0) == 0,
        mul_raw(0, a@) == 0,
{
    assert(a@ * 0x1_0000_0000 == 0x1_0000_0000 * a@) by (nonlinear_arith);
    assert(a@ * 0 == 0 && 0 * a@ == 0) by (nonlinear_arith);
}

/// The sum and the product do not depend on the order of their operands,
/// and the difference is the sum with the exact negative.
pub proof fn sum_and_product_commute(a: Fx, b: Fx)
    ensures
        add_raw(a@, b@) == add_raw(b@, a@),
        mul_raw(a@, b@) == mul_raw(b@, a@),
        sub_raw(a@, b@) == clamp_raw(a@ + (-b@)),
{
    assert(a@ * b@ == b@ * a@) by (nonlinear_arith);
}

/// Negation and magnitude: the magnitude is never negative, negating twice
/// gives the value back but for the least value, and the sign times the
/// magnitude is the value but for the least value.
pub proof fn negation_and_magnitude(a: Fx)
    ensures
        abs_raw(a@) >= 0,
        a@ != i64::MIN ==> neg_raw(neg_raw(a@)) == a@,
        a@ == i64::MIN ==> neg_raw(a@) == i64::MAX && abs_raw(a@) == i64::MAX,
        abs_raw(a@) == abs_raw(neg_raw(a@)) || a@ == i64::MIN,
        a@ != i64::MIN ==> mul_raw(signum_raw(a@), abs_raw(a@)) == a@,
{
    assert(0x1_0000_0000 * abs_raw(a@) == abs_raw(a@) * 0x1_0000_0000) by (nonlinear_arith);
    assert((-0x1_0000_0000) * abs_raw(a@) == -(abs_raw(a@) * 0x1_0000_0000))
        by (nonlinear_arith);
    assert(0 * abs_raw(a@) == 0) by (nonlinear_arith);
}

/// Division by zero follows the sign of the dividend to a bound, zero over
/// zero is zero, and the remainder by zero is zero.
pub proof fn division_by_zero(a: Fx)
    ensures
        a@ > 0 ==> div_raw(a@, 0) == i64::MAX,
        a@ < 0 ==> div_raw(a@, 0) == i64::MIN,
        a@ == 0 ==> div_raw(a@, 0) == 0,
        rem_raw(a@, 0) == 0,
{
}

/// Exact equality is reflexive, symmetric and transitive, and it is
/// equality of values.
pub proof fn exact_equality_is_an_equivalence(a: Fx, b: Fx, c: Fx)
    ensures
        a@ == a@,
        (a@ == b@) == (b@ == a@),
        a@ == b@ && b@ == c@ ==> a@ == c@,
        (a@ == b@) == (a == b),
{
}

/// The absolute and the relative tier do not depend on the order of the
/// two values.
pub proof fn absolute_and_relative_are_symmetric(a: Fx, b: Fx, epsilon: Fx, max_relative: Fx)
    ensures
        dist_raw(a@, b@) == dist_raw(b@, a@),
        abs_diff_eq_spec(a@, b@, epsilon@) == abs_diff_eq_spec(b@, a@, epsilon@),
        relative_eq_spec(a@, b@, epsilon@, max_relative@) == relative_eq_spec(
            b@,
            a@,
            epsilon@,
            max_relative@,
        ),
{
}

/// The tier by distance of raw patterns does not depend on the order of
/// the two values.
pub proof fn ulps_is_symmetric(a: Fx, b: Fx, epsilon: Fx, max_ulps: u32)
    ensures
        ulps_eq_spec(a@, b@, epsilon@, max_ulps as int) == ulps_eq_spec(
            b@,
            a@,
            epsilon@,
            max_ulps as int,
        ),
{
}

/// Across a change of sign the tier by distance of raw patterns reports
/// "not equal" whenever the absolute tier fails, whatever distance it is
/// allowed.
pub proof fn ulps_rejects_a_sign_change(a: Fx, b: Fx, epsilon: Fx, max_ulps: u32)
    requires
        signum_raw(a@) != signum_raw(b@),
        !abs_diff_eq_spec(a@, b@, epsilon@),
    ensures
        !ulps_eq_spec(a@, b@, epsilon@, max_ulps as int),
{
}

/// Each tier accepts whatever the tier before it accepts, and every tier
/// with a tolerance of zero or more accepts two equal values.
pub proof fn tiers_are_nested(a: Fx, b: Fx, epsilon: Fx, max_relative: Fx, max_ulps: u32)
    ensures
        abs_diff_eq_spec(a@, b@, epsilon@) ==> relative_eq_spec(a@, b@, epsilon@, max_relative@),
        abs_diff_eq_spec(a@, b@, epsilon@) ==> ulps_eq_spec(a@, b@, epsilon@, max_ulps as int),
        a@ == b@ && epsilon@ >= 0 ==> abs_diff_eq_spec(a@, b@, epsilon@),
        a@ == b@ ==> ulps_eq_spec(a@, b@, epsilon@, max_ulps as int),
{
}

} // verus!
