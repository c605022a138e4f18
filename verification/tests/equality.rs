use fx_math::fx::Fx;

const ONE: i64 = 1 << 32;

#[test]
fn defaults_of_the_tiers() {
    assert_eq!(Fx::default_epsilon().to_bits(), 22);
    assert_eq!(Fx::default_max_relative().to_bits(), 22);
    assert_eq!(Fx::default_max_ulps(), 4);
}

#[test]
fn exact_equality_is_an_equivalence_on_samples() {
    let a = Fx::from_bits(77);
    let b = Fx::from_bits(77);
    let c = Fx::from_bits(77);
    let d = Fx::from_bits(78);
    assert!(a.exact_eq(&a));
    assert!(a.exact_eq(&b) && b.exact_eq(&a));
    assert!(a.exact_eq(&b) && b.exact_eq(&c) && a.exact_eq(&c));
    assert!(!a.exact_eq(&d) && !d.exact_eq(&a));
    assert!(a == b && a != d);
}

#[test]
fn absolute_tier_at_its_edge() {
    let eps = Fx::default_epsilon();
    let a = Fx::from_bits(ONE);
    assert!(a.abs_diff_eq(&Fx::from_bits(ONE + 22), eps));
    assert!(Fx::from_bits(ONE + 22).abs_diff_eq(&a, eps));
    assert!(!a.abs_diff_eq(&Fx::from_bits(ONE + 23), eps));
    assert!(!Fx::from_bits(ONE + 23).abs_diff_eq(&a, eps));
    assert!(a.abs_diff_eq(&a, Fx::zero()));
    assert!(!a.abs_diff_eq(&a, Fx::from_bits(-1)));
}

#[test]
fn absolute_tier_saturates_the_difference() {
    let min = Fx::min_value();
    let max = Fx::max_value();
    assert!(min.abs_diff_eq(&max, max));
    assert!(max.abs_diff_eq(&min, max));
    assert!(!min.abs_diff_eq(&max, Fx::from_bits(i64::MAX - 1)));
}

#[test]
fn relative_tier_scales_with_the_magnitude() {
    let eps = Fx::default_epsilon();
    let rel = Fx::default_max_relative();
    let a = Fx::from_bits(1000 * ONE);
    // 1000 * 22 raw units is the greatest difference accepted
    assert!(a.relative_eq(&Fx::from_bits(1000 * ONE - 22000), eps, rel));
    assert!(Fx::from_bits(1000 * ONE - 22000).relative_eq(&a, eps, rel));
    assert!(!a.relative_eq(&Fx::from_bits(1000 * ONE - 22001), eps, rel));
    assert!(!a.abs_diff_eq(&Fx::from_bits(1000 * ONE - 22000), eps));
    // the larger magnitude counts, on either side
    let b = Fx::from_bits(1000 * ONE + 22000);
    assert!(a.relative_eq(&b, eps, rel));
    assert!(b.relative_eq(&a, eps, rel));
    // the absolute tier alone is enough
    assert!(Fx::from_bits(3).relative_eq(&Fx::from_bits(-3), eps, Fx::zero()));
}

#[test]
fn ulps_tier_counts_raw_units() {
    let zero = Fx::zero();
    let a = Fx::from_bits(ONE);
    assert!(a.ulps_eq(&Fx::from_bits(ONE + 4), zero, 4));
    assert!(Fx::from_bits(ONE + 4).ulps_eq(&a, zero, 4));
    assert!(!a.ulps_eq(&Fx::from_bits(ONE + 5), zero, 4));
    assert!(!Fx::from_bits(ONE + 5).ulps_eq(&a, zero, 4));
    assert!(a.ulps_eq(&Fx::from_bits(ONE + 5), zero, 5));
    assert!(a.ulps_eq(&a, zero, 0));
}

#[test]
fn ulps_tier_rejects_a_sign_change() {
    let below = Fx::from_bits(-1);
    let above = Fx::from_bits(1);
    let zero = Fx::zero();
    assert!(!below.ulps_eq(&above, zero, 4));
    assert!(!above.ulps_eq(&below, zero, 4));
    assert!(!below.ulps_eq(&above, Fx::from_bits(1), 1000));
    assert!(!zero.ulps_eq(&above, zero, 4));
    assert!(!below.ulps_eq(&zero, zero, 4));
    // where the absolute tier passes, the signs are never looked at
    assert!(below.ulps_eq(&above, Fx::default_epsilon(), 4));
    assert!(below.ulps_eq(&above, Fx::from_bits(2), 0));
}

#[test]
fn ulps_tier_at_the_far_ends() {
    let zero = Fx::zero();
    assert!(Fx::max_value().ulps_eq(&Fx::from_bits(i64::MAX - 4), zero, 4));
    assert!(Fx::min_value().ulps_eq(&Fx::from_bits(i64::MIN + 4), zero, 4));
    assert!(!Fx::min_value().ulps_eq(&Fx::max_value(), zero, u32::MAX));
    assert!(!Fx::from_bits(1).ulps_eq(&Fx::max_value(), zero, u32::MAX));
}
