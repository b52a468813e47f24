use egui_mobius_template::binary64::{
    is_greater, is_not_a_number, is_positive, magnitude_of, INFINITY, ONE, SIGN_BIT, SIX, TWO, ZERO,
};

fn samples() -> Vec<f64> {
    vec![
        0.0,
        -0.0,
        5e-324,
        -5e-324,
        2.2250738585072014e-308,
        -2.2250738585072014e-308,
        1e-6,
        -1e-6,
        0.1,
        0.3,
        0.5,
        1.0,
        -1.0,
        1.0000000000000002,
        2.0,
        6.0,
        5000.0,
        -5000.0,
        1.7976931348623157e308,
        -1.7976931348623157e308,
        f64::INFINITY,
        f64::NEG_INFINITY,
        f64::NAN,
        -f64::NAN,
        f64::from_bits(0x7FF0_0000_0000_0001),
        f64::from_bits(0xFFFF_FFFF_FFFF_FFFF),
    ]
}

#[test]
fn constants_are_the_patterns_of_their_numbers() {
    assert_eq!(ZERO, 0.0f64.to_bits());
    assert_eq!(ONE, 1.0f64.to_bits());
    assert_eq!(TWO, 2.0f64.to_bits());
    assert_eq!(SIX, 6.0f64.to_bits());
    assert_eq!(INFINITY, f64::INFINITY.to_bits());
    assert_eq!(SIGN_BIT, (-0.0f64).to_bits());
}

#[test]
fn greater_agrees_with_the_hardware_on_every_pair() {
    let values = samples();
    for a in values.iter() {
        for b in values.iter() {
            assert_eq!(
                is_greater(a.to_bits(), b.to_bits()),
                a > b,
                "{:?} > {:?}",
                a,
                b
            );
        }
    }
}

#[test]
fn positive_agrees_with_the_hardware() {
    for a in samples().iter() {
        assert_eq!(is_positive(a.to_bits()), *a > 0.0, "{:?}", a);
    }
}

#[test]
fn not_a_number_agrees_with_the_hardware() {
    for a in samples().iter() {
        assert_eq!(is_not_a_number(a.to_bits()), a.is_nan(), "{:?}", a);
    }
}

#[test]
fn magnitude_is_the_absolute_value() {
    for a in samples().iter() {
        if !a.is_nan() {
            assert_eq!(magnitude_of(a.to_bits()), a.abs().to_bits());
        }
    }
    assert_eq!(magnitude_of(0xBFF0_0000_0000_0000), 0x3FF0_0000_0000_0000);
}

#[test]
fn zeros_are_equal_and_not_positive() {
    assert!(!is_greater(ZERO, SIGN_BIT));
    assert!(!is_greater(SIGN_BIT, ZERO));
    assert!(!is_positive(ZERO));
    assert!(!is_positive(SIGN_BIT));
}

#[test]
fn smallest_subnormal_is_positive_and_infinity_too() {
    assert!(is_positive(1));
    assert!(is_positive(INFINITY));
    assert!(!is_positive(INFINITY + 1));
    assert!(!is_positive(SIGN_BIT + 1));
}

#[test]
fn nothing_is_greater_than_itself() {
    for a in samples().iter() {
        assert!(!is_greater(a.to_bits(), a.to_bits()));
    }
}
