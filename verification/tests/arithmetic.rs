use fixed::types::I32F32;
use fx_math::fx::Fx;

const ONE: i64 = 1 << 32;

fn samples() -> Vec<i64> {
    vec![
        i64::MIN,
        i64::MIN + 1,
        -(1 << 62),
        -3 * ONE - 5,
        -ONE - 1,
        -ONE,
        -(1 << 31),
        -12345,
        -1,
        0,
        1,
        22,
        1 << 31,
        ONE - 1,
        ONE,
        ONE + 1,
        3 * ONE + (1 << 31),
        1000 * ONE,
        1 << 62,
        i64::MAX - 1,
        i64::MAX,
    ]
}

#[test]
fn sum_saturates_at_the_bounds() {
    let max = Fx::max_value();
    let min = Fx::min_value();
    let one = Fx::one();
    assert_eq!(max.add(one), max);
    assert_eq!(max.add(max), max);
    assert_eq!(min.add(one.neg()), min);
    assert_eq!(min.add(min), min);
    assert_eq!(Fx::from_bits(i64::MAX - 1).add(Fx::from_bits(1)), max);
    assert_eq!(Fx::from_bits(i64::MAX - 1).add(Fx::from_bits(2)), max);
    assert_eq!(Fx::from_bits(5).add(Fx::from_bits(-7)), Fx::from_bits(-2));
}

#[test]
fn difference_saturates_at_the_bounds() {
    let max = Fx::max_value();
    let min = Fx::min_value();
    let one = Fx::one();
    assert_eq!(min.sub(one), min);
    assert_eq!(max.sub(one.neg()), max);
    assert_eq!(max.sub(min), max);
    assert_eq!(min.sub(max), min);
    assert_eq!(Fx::zero().sub(min), max);
    assert_eq!(Fx::from_bits(5).sub(Fx::from_bits(7)), Fx::from_bits(-2));
}

#[test]
fn sum_and_difference_match_fixed() {
    for &a in samples().iter() {
        for &b in samples().iter() {
            let fa = I32F32::from_bits(a);
            let fb = I32F32::from_bits(b);
            let x = Fx::from_bits(a);
            let y = Fx::from_bits(b);
            assert_eq!(x.add(y).to_bits(), fa.saturating_add(fb).to_bits());
            assert_eq!(x.sub(y).to_bits(), fa.saturating_sub(fb).to_bits());
        }
    }
}

#[test]
fn product_matches_fixed() {
    for &a in samples().iter() {
        for &b in samples().iter() {
            let want = I32F32::from_bits(a).saturating_mul(I32F32::from_bits(b)).to_bits();
            assert_eq!(Fx::from_bits(a).mul(Fx::from_bits(b)).to_bits(), want, "{a} * {b}");
        }
    }
}

#[test]
fn product_rounds_down() {
    // 1.5 * 2.5 = 3.75
    let a = Fx::from_bits(ONE + ONE / 2);
    let b = Fx::from_bits(2 * ONE + ONE / 2);
    assert_eq!(a.mul(b).to_bits(), 3 * ONE + 3 * (ONE / 4));
    // the smallest positive value squared is below one raw unit
    assert_eq!(Fx::from_bits(1).mul(Fx::from_bits(1)).to_bits(), 0);
    // and the smallest negative value times it rounds down to minus one unit
    assert_eq!(Fx::from_bits(-1).mul(Fx::from_bits(1)).to_bits(), -1);
    assert_eq!(Fx::max_value().mul(Fx::from_bits(2 * ONE)), Fx::max_value());
    assert_eq!(Fx::max_value().mul(Fx::from_bits(-2 * ONE)), Fx::min_value());
}

#[test]
fn quotient_matches_fixed() {
    for &a in samples().iter() {
        for &b in samples().iter() {
            if b != 0 {
                let want = I32F32::from_bits(a).saturating_div(I32F32::from_bits(b)).to_bits();
                assert_eq!(Fx::from_bits(a).div(Fx::from_bits(b)).to_bits(), want, "{a} / {b}");
            }
        }
    }
}

#[test]
fn quotient_rounds_towards_zero() {
    // 1 / 3 and -1 / 3
    assert_eq!(Fx::one().div(Fx::from_bits(3 * ONE)).to_bits(), 0x5555_5555);
    assert_eq!(Fx::one().neg().div(Fx::from_bits(3 * ONE)).to_bits(), -0x5555_5555);
    assert_eq!(Fx::from_bits(7 * ONE).div(Fx::from_bits(2 * ONE)).to_bits(), 3 * ONE + ONE / 2);
    assert_eq!(Fx::max_value().div(Fx::from_bits(ONE / 2)), Fx::max_value());
    assert_eq!(Fx::min_value().div(Fx::from_bits(-1)), Fx::max_value());
}

#[test]
fn division_by_zero_follows_the_sign() {
    for &a in samples().iter() {
        let q = Fx::from_bits(a).div(Fx::zero());
        if a > 0 {
            assert_eq!(q, Fx::max_value());
        } else if a < 0 {
            assert_eq!(q, Fx::min_value());
        } else {
            assert_eq!(q, Fx::zero());
        }
        assert_eq!(Fx::from_bits(a).rem(Fx::zero()), Fx::zero());
    }
}

#[test]
fn one_over_zero_is_the_greatest_value() {
    let one = Fx::from_i64(1).unwrap();
    let zero = Fx::from_i64(0).unwrap();
    assert_eq!(one.div(zero), Fx::max_value());
    assert_eq!(one.recip(), one);
    assert_eq!(zero.recip(), Fx::max_value());
}

#[test]
fn minus_one_over_zero_is_the_least_value() {
    let minus_one = Fx::from_i64(-1).unwrap();
    let zero = Fx::from_i64(0).unwrap();
    assert_eq!(minus_one.div(zero), Fx::min_value());
}

#[test]
fn remainder_matches_fixed() {
    for &a in samples().iter() {
        for &b in samples().iter() {
            if b != 0 {
                let want = (I32F32::from_bits(a) % I32F32::from_bits(b)).to_bits();
                assert_eq!(Fx::from_bits(a).rem(Fx::from_bits(b)).to_bits(), want, "{a} % {b}");
            }
        }
    }
}

#[test]
fn remainder_has_the_sign_of_the_dividend() {
    let seven_half = Fx::from_bits(7 * ONE + ONE / 2);
    let two = Fx::from_bits(2 * ONE);
    assert_eq!(seven_half.rem(two).to_bits(), ONE + ONE / 2);
    assert_eq!(seven_half.neg().rem(two).to_bits(), -(ONE + ONE / 2));
    assert_eq!(seven_half.rem(two.neg()).to_bits(), ONE + ONE / 2);
    assert_eq!(Fx::min_value().rem(Fx::from_bits(-1)).to_bits(), 0);
}

#[test]
fn negation_and_magnitude_saturate() {
    assert_eq!(Fx::min_value().neg(), Fx::max_value());
    assert_eq!(Fx::min_value().abs(), Fx::max_value());
    assert_eq!(Fx::max_value().neg().to_bits(), i64::MIN + 1);
    for &a in samples().iter() {
        let f = I32F32::from_bits(a);
        assert_eq!(Fx::from_bits(a).neg().to_bits(), f.saturating_neg().to_bits());
        assert_eq!(Fx::from_bits(a).abs().to_bits(), f.saturating_abs().to_bits());
        assert_eq!(Fx::from_bits(a).signum().to_bits(), f.signum().to_bits());
    }
}

#[test]
fn in_place_forms_agree_with_the_operators() {
    for &a in samples().iter() {
        for &b in samples().iter() {
            let x = Fx::from_bits(a);
            let y = Fx::from_bits(b);
            let mut v = x;
            v.add_assign(y);
            assert_eq!(v, x.add(y));
            let mut v = x;
            v.sub_assign(y);
            assert_eq!(v, x.sub(y));
            let mut v = x;
            v.mul_assign(y);
            assert_eq!(v, x.mul(y));
            let mut v = x;
            v.div_assign(y);
            assert_eq!(v, x.div(y));
            let mut v = x;
            v.rem_assign(y);
            assert_eq!(v, x.rem(y));
        }
    }
}

#[test]
fn identities_and_bounds() {
    assert_eq!(Fx::zero().to_bits(), 0);
    assert_eq!(Fx::default().to_bits(), 0);
    assert_eq!(Fx::one().to_bits(), I32F32::from_num(1).to_bits());
    assert_eq!(Fx::min_value().to_bits(), I32F32::MIN.to_bits());
    assert_eq!(Fx::max_value().to_bits(), I32F32::MAX.to_bits());
    assert!(Fx::zero().is_zero());
    assert!(!Fx::from_bits(1).is_zero());
    assert!(Fx::one().is_finite());
}

#[test]
fn order_is_the_order_of_raw_patterns() {
    let s = samples();
    for &a in s.iter() {
        for &b in s.iter() {
            let x = Fx::from_bits(a);
            let y = Fx::from_bits(b);
            assert_eq!(x < y, a < b);
            assert_eq!(x == y, a == b);
            assert_eq!(x.lt(&y), a < b);
            assert_eq!(x.le(&y), a <= b);
            assert_eq!(x.max(y).to_bits(), a.max(b));
            assert_eq!(x.min(y).to_bits(), a.min(b));
        }
    }
}

#[test]
fn sign_tests_and_copysign() {
    assert!(Fx::zero().is_positive());
    assert!(Fx::zero().is_negative());
    assert!(!Fx::zero().is_sign_positive());
    assert!(!Fx::zero().is_sign_negative());
    assert!(Fx::one().is_sign_positive());
    assert!(Fx::one().neg().is_sign_negative());
    let three = Fx::from_bits(3 * ONE);
    assert_eq!(three.copysign(Fx::one().neg()), three.neg());
    assert_eq!(three.neg().copysign(Fx::zero()), three);
    assert_eq!(three.neg().abs_sub(Fx::one()).to_bits(), 2 * ONE);
    assert_eq!(three.mul_add(three, Fx::one()).to_bits(), 10 * ONE);
}

#[test]
fn clamp_tests_the_lower_bound_first() {
    let lo = Fx::from_bits(10);
    let hi = Fx::from_bits(20);
    assert_eq!(Fx::from_bits(5).clamp(lo, hi), lo);
    assert_eq!(Fx::from_bits(25).clamp(lo, hi), hi);
    assert_eq!(Fx::from_bits(15).clamp(lo, hi).to_bits(), 15);
    assert_eq!(Fx::from_bits(15).clamp(hi, lo), hi);
}

#[test]
fn operators_are_the_methods() {
    for &a in samples().iter() {
        for &b in samples().iter() {
            let x = Fx::from_bits(a);
            let y = Fx::from_bits(b);
            assert_eq!(x + y, x.add(y));
            assert_eq!(x - y, x.sub(y));
            assert_eq!(x * y, x.mul(y));
            assert_eq!(x / y, x.div(y));
            assert_eq!(x % y, x.rem(y));
        }
        let x = Fx::from_bits(a);
        assert_eq!(-x, x.neg());
    }
    assert_eq!(Fx::max_value() + Fx::one(), Fx::max_value());
    assert_eq!(Fx::one() / Fx::zero(), Fx::max_value());
    assert_eq!(-Fx::one() / Fx::zero(), Fx::min_value());
    assert_eq!(Fx::one() % Fx::zero(), Fx::zero());
}
