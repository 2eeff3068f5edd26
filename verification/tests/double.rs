use function_plotter::double::{Double, INFINITY_BITS, SIGN_BIT};

fn double(value: f64) -> Double {
    Double::from_bits(value.to_bits())
}

fn samples() -> Vec<f64> {
    vec![
        0.0,
        -0.0,
        1.0,
        -1.0,
        10.0,
        -10.0,
        0.5,
        -0.5,
        f64::MIN_POSITIVE,
        -f64::MIN_POSITIVE,
        f64::from_bits(1),
        -f64::from_bits(1),
        f64::MAX,
        f64::MIN,
        f64::EPSILON,
        5.0 + f64::EPSILON,
        5.0,
        1e308,
        -1e308,
        1e-308,
        std::f64::consts::PI,
        f64::INFINITY,
        f64::NEG_INFINITY,
        f64::NAN,
        -f64::NAN,
        f64::from_bits(0x7ff0_0000_0000_0001),
        f64::from_bits(0xfff0_0000_0000_0001),
        f64::from_bits(0x7fff_ffff_ffff_ffff),
        f64::from_bits(0xffff_ffff_ffff_ffff),
    ]
}

#[test]
fn bits_round_trip() {
    for value in samples() {
        assert_eq!(double(value).to_bits(), value.to_bits());
        assert_eq!(Double::from_bits(value.to_bits()).bits, value.to_bits());
    }
}

#[test]
fn constants_are_the_ieee_patterns() {
    assert_eq!(SIGN_BIT, (-0.0f64).to_bits());
    assert_eq!(INFINITY_BITS, f64::INFINITY.to_bits());
}

#[test]
fn classification_agrees_with_the_machine() {
    for value in samples() {
        let d = double(value);
        assert_eq!(d.is_finite(), value.is_finite(), "is_finite of {:?}", value);
        assert_eq!(d.is_infinite(), value.is_infinite(), "is_infinite of {:?}", value);
        assert_eq!(d.is_nan(), value.is_nan(), "is_nan of {:?}", value);
        assert_eq!(d.is_sign_negative(), value.is_sign_negative(), "sign of {:?}", value);
        assert_eq!(d.abs_bits(), value.abs().to_bits(), "abs of {:?}", value);
    }
}

#[test]
fn order_agrees_with_the_machine() {
    for a in samples() {
        for b in samples() {
            assert_eq!(double(a).lt(double(b)), a < b, "{:?} < {:?}", a, b);
            assert_eq!(double(a).le(double(b)), a <= b, "{:?} <= {:?}", a, b);
        }
    }
}

#[test]
fn order_agrees_with_the_machine_on_a_sweep() {
    let mut bits: u64 = 0x0123_4567_89ab_cdef;
    let mut previous = 1.0f64;
    for _ in 0..20000 {
        bits = bits.wrapping_mul(6364136223846793005).wrapping_add(1442695040888963407);
        let value = f64::from_bits(bits);
        assert_eq!(double(value).is_finite(), value.is_finite());
        assert_eq!(double(value).is_nan(), value.is_nan());
        assert_eq!(double(previous).lt(double(value)), previous < value);
        assert_eq!(double(value).le(double(previous)), value <= previous);
        previous = value;
    }
}

#[test]
fn zeros_are_equal_in_order() {
    assert!(!double(0.0).lt(double(-0.0)));
    assert!(!double(-0.0).lt(double(0.0)));
    assert!(double(0.0).le(double(-0.0)));
    assert!(double(-0.0).le(double(0.0)));
    assert_ne!(double(0.0), double(-0.0));
}

#[test]
fn nan_compares_with_nothing() {
    let nan = double(f64::NAN);
    assert!(!nan.lt(nan));
    assert!(!nan.le(nan));
    assert!(!nan.lt(double(1.0)));
    assert!(!double(1.0).lt(nan));
    assert!(!double(f64::NEG_INFINITY).le(nan));
}

#[test]
fn infinities_are_the_ends() {
    assert!(double(f64::NEG_INFINITY).lt(double(f64::MIN)));
    assert!(double(f64::MAX).lt(double(f64::INFINITY)));
    assert!(!double(f64::INFINITY).is_finite());
    assert!(double(f64::INFINITY).is_infinite());
    assert!(double(f64::MAX).is_finite());
}
