use fincalc::double::Double;
use fincalc::double::MAGNITUDE_MASK;
use fincalc::double::NEG_ZERO_BITS;
use fincalc::double::ONE_BITS;
use fincalc::double::POS_INFINITY_BITS;
use fincalc::double::TWELVE_BITS;

fn dbl(x: f64) -> Double {
    Double::from_bits(x.to_bits())
}

#[test]
fn bits_round_trip() {
    let d = Double::from_bits(0.375f64.to_bits());
    assert_eq!(f64::from_bits(d.to_bits()), 0.375);
}

#[test]
fn named_bit_patterns_match_their_values() {
    assert_eq!(ONE_BITS, 1.0f64.to_bits());
    assert_eq!(TWELVE_BITS, 12.0f64.to_bits());
    assert_eq!(NEG_ZERO_BITS, (-0.0f64).to_bits());
    assert_eq!(POS_INFINITY_BITS, f64::INFINITY.to_bits());
}

#[test]
fn positivity_matches_the_double_comparison() {
    let cases: [f64; 10] = [
        0.0,
        -0.0,
        5.0,
        -5.0,
        f64::INFINITY,
        f64::NEG_INFINITY,
        f64::NAN,
        f64::MIN_POSITIVE,
        5e-324,
        -5e-324,
    ];
    for x in cases {
        assert_eq!(dbl(x).is_positive(), x > 0.0, "{}", x);
    }
}

#[test]
fn zero_test_matches_the_double_comparison() {
    let cases: [f64; 6] = [0.0, -0.0, 1e-300, -1e-300, f64::NAN, f64::INFINITY];
    for x in cases {
        assert_eq!(dbl(x).is_zero(), x == 0.0, "{}", x);
    }
}

#[test]
fn abs_matches_the_double_abs() {
    let cases: [f64; 6] = [0.0, -0.0, 3.5, -3.5, f64::NEG_INFINITY, -5e-324];
    for x in cases {
        assert_eq!(dbl(x).abs().to_bits(), x.abs().to_bits(), "{}", x);
    }
}

#[test]
fn abs_clears_the_sign_of_a_nan() {
    let negative_nan = f64::from_bits(f64::NAN.to_bits() | !MAGNITUDE_MASK);
    assert_eq!(dbl(negative_nan).abs().to_bits(), negative_nan.to_bits() & MAGNITUDE_MASK);
}
