use nuclear::geometry::components::UNSET_RANGE_KEY;
use nuclear::heat_diffusion::heat_diffusion_rework::{LEAST_TEMPERATURE_KEY, STABILITY_LIMIT_KEY};
use nuclear::neutrons::neutron_dynamics::{DISTANCE_STEP_KEY, FALLBACK_ENERGY_KEY};
use nuclear::utils::reals::{Real, INFINITY_KEY, SIGN_BIT};
use nuclear::utils::vectors::Vec3D;

fn number(value: f64) -> Real {
    Real::from_bits(value.to_bits())
}

fn value(held: Real) -> f64 {
    f64::from_bits(held.to_bits())
}

#[test]
fn keys_follow_the_order_of_the_values() {
    let samples = [
        f64::NEG_INFINITY,
        f64::MIN,
        -1.0e6,
        -1.5,
        -1.0,
        -f64::MIN_POSITIVE,
        0.0,
        f64::MIN_POSITIVE,
        0.001,
        1.0 / 6.0,
        1.0,
        1.0e6,
        f64::MAX,
        f64::INFINITY,
    ];
    for a in samples.iter() {
        for b in samples.iter() {
            assert_eq!(number(*a).lt(number(*b)), a < b);
            assert_eq!(number(*a).le(number(*b)), a <= b);
            assert_eq!(number(*a).gt(number(*b)), a > b);
            assert_eq!(number(*a).ge(number(*b)), a >= b);
            assert_eq!(number(*a).equals(number(*b)), a == b);
        }
    }
}

#[test]
fn both_zeros_have_key_zero() {
    assert_eq!(number(0.0).key, 0);
    assert_eq!(number(-0.0).key, 0);
    assert_eq!(Real::from_bits(SIGN_BIT).key, 0);
    assert_eq!(Real::zero().key, 0);
    assert_eq!(Real::default().key, 0);
    assert!(number(-0.0).equals(number(0.0)));
    assert_eq!(value(Real::zero()), 0.0);
}

#[test]
fn bits_come_back_from_their_key() {
    let samples = [1.0, -1.0, 0.001, -2.5e-7, 1.0e300, f64::INFINITY, f64::NEG_INFINITY];
    for sample in samples.iter() {
        assert_eq!(number(*sample).to_bits(), sample.to_bits());
        assert_eq!(value(number(*sample)), *sample);
    }
    assert_eq!(number(1.0).key, 0x3FF0_0000_0000_0000);
    assert_eq!(number(-1.0).key, -0x3FF0_0000_0000_0000);
    assert_eq!((Real { key: i64::MIN }).to_bits(), SIGN_BIT);
}

#[test]
fn a_nan_compares_with_nothing() {
    let nan = number(f64::NAN);
    let one = number(1.0);
    assert!(nan.is_nan());
    assert!(!one.is_nan());
    assert!(!number(f64::INFINITY).is_nan());
    assert!(!number(f64::NEG_INFINITY).is_nan());
    assert!(!nan.lt(one) && !nan.gt(one) && !nan.le(one) && !nan.ge(one) && !nan.equals(one));
    assert!(!one.lt(nan) && !one.gt(nan) && !one.le(nan) && !one.ge(nan) && !one.equals(nan));
    assert!(!nan.equals(nan));
    assert!(value(nan).is_nan());
    assert_eq!(number(f64::INFINITY).key, INFINITY_KEY);
    assert_eq!(number(f64::NEG_INFINITY).key, -INFINITY_KEY);
}

#[test]
fn magnitude_drops_the_sign() {
    assert_eq!(value(number(-2.5).abs()), 2.5);
    assert_eq!(value(number(2.5).abs()), 2.5);
    assert_eq!(value(number(-0.0).abs()), 0.0);
    assert!(number(f64::NAN).abs().is_nan());
}

#[test]
fn constants_stand_for_their_values() {
    assert_eq!(value(Real { key: DISTANCE_STEP_KEY }), 0.001);
    assert_eq!(value(Real { key: FALLBACK_ENERGY_KEY }), 1.0e6);
    assert_eq!(value(Real { key: UNSET_RANGE_KEY }), -1.0);
    assert_eq!(value(Real { key: STABILITY_LIMIT_KEY }), 1.0 / 6.0);
    assert_eq!(value(Real { key: LEAST_TEMPERATURE_KEY }), f64::MIN);
}

#[test]
fn vector_minimum_and_maximum_go_by_component() {
    let a = Vec3D { x: number(1.0), y: number(-2.0), z: number(3.0) };
    let b = Vec3D { x: number(0.5), y: number(4.0), z: number(3.0) };
    let low = a.min(b);
    let high = a.max(b);
    assert_eq!((value(low.x), value(low.y), value(low.z)), (0.5, -2.0, 3.0));
    assert_eq!((value(high.x), value(high.y), value(high.z)), (1.0, 4.0, 3.0));
    let with_nan = Vec3D { x: number(f64::NAN), y: number(0.0), z: number(f64::NAN) };
    let kept = with_nan.min(a);
    assert_eq!((value(kept.x), value(kept.y), value(kept.z)), (1.0, -2.0, 3.0));
    let origin = Vec3D::default();
    assert_eq!((value(origin.x), value(origin.y), value(origin.z)), (0.0, 0.0, 0.0));
}
