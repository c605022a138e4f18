use fx_math::format::{format_of_extension, Format};
use fx_math::fx::Fx;

const ONE: i64 = 1 << 32;

#[test]
fn one_lane() {
    assert_eq!(Fx::lanes(), 1);
    let a = Fx::from_bits(5);
    let b = Fx::from_bits(9);
    assert_eq!(Fx::splat(a), a);
    assert_eq!(a.extract(0), a);
    assert_eq!(a.extract(17), a);
    let mut v = a;
    v.replace(0, b);
    assert_eq!(v, b);
    assert_eq!(a.select(true, b), a);
    assert_eq!(a.select(false, b), b);
}

#[test]
fn real_among_complex() {
    let three = Fx::from_bits(3 * ONE);
    let minus = three.neg();
    assert_eq!(Fx::from_real(three), three);
    assert_eq!(three.real_part(), three);
    assert_eq!(three.imaginary(), Fx::zero());
    assert_eq!(minus.conjugate(), minus);
    assert_eq!(minus.norm1(), three);
    assert_eq!(minus.modulus(), three);
    assert_eq!(minus.modulus_squared().to_bits(), 9 * ONE);
    assert_eq!(three.argument(), Fx::zero());
    assert_eq!(Fx::zero().argument(), Fx::zero());
    assert_eq!(minus.argument(), Fx::pi());
    assert_eq!(three.to_exp(), (three, Fx::one()));
    assert_eq!(minus.to_exp(), (three, Fx::one().neg()));
    assert_eq!(three.scale(three).to_bits(), 9 * ONE);
    assert_eq!(three.unscale(three), Fx::one());
    assert_eq!(three.unscale(Fx::zero()), Fx::max_value());
}

#[test]
fn subset_of_itself() {
    let a = Fx::from_bits(-44);
    assert_eq!(a.to_superset(), a);
    assert_eq!(Fx::from_superset(&a), Some(a));
    assert_eq!(Fx::from_superset_unchecked(&a), a);
    assert!(Fx::is_in_subset(&a));
}

#[test]
fn known_suffixes() {
    assert_eq!(format_of_extension(b"yaml"), Some(Format::Yaml));
    assert_eq!(format_of_extension(b"yml"), Some(Format::Yaml));
    assert_eq!(format_of_extension(b"json"), Some(Format::Json));
}

#[test]
fn unknown_suffixes() {
    assert_eq!(format_of_extension(b""), None);
    assert_eq!(format_of_extension(b"txt"), None);
    assert_eq!(format_of_extension(b"YAML"), None);
    assert_eq!(format_of_extension(b"Json"), None);
    assert_eq!(format_of_extension(b"yamls"), None);
    assert_eq!(format_of_extension(b"jso"), None);
    assert_eq!(format_of_extension(b"yam"), None);
}
