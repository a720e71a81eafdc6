use path_tracer::scalar::Real;
use path_tracer::utils::Interval;
use path_tracer::vec3::Vec3;

fn r(x: f64) -> Real {
    Real::from_bits(x.to_bits())
}

fn samples() -> Vec<f64> {
    vec![
        f64::NEG_INFINITY,
        f64::MIN,
        -10.0,
        -1.0,
        -0.5,
        -f64::MIN_POSITIVE,
        -5e-324,
        -0.0,
        0.0,
        5e-324,
        f64::MIN_POSITIVE,
        1e-8,
        0.001,
        0.25,
        0.5,
        0.999,
        1.0,
        10.0,
        f64::MAX,
        f64::INFINITY,
        f64::NAN,
        -f64::NAN,
    ]
}

#[test]
fn comparisons_agree_with_f64() {
    for &a in samples().iter() {
        for &b in samples().iter() {
            assert_eq!(r(a).lt(&r(b)), a < b, "{} < {}", a, b);
            assert_eq!(r(a).le(&r(b)), a <= b, "{} <= {}", a, b);
            assert_eq!(r(a).gt(&r(b)), a > b, "{} > {}", a, b);
        }
    }
}

#[test]
fn neg_and_abs_agree_with_f64() {
    for &a in samples().iter() {
        assert_eq!(r(a).neg().to_bits(), (-a).to_bits());
        assert_eq!(r(a).abs().to_bits(), a.abs().to_bits());
        assert_eq!(r(a).is_nan_exec(), a.is_nan());
    }
}

#[test]
fn zero_and_one_constants() {
    assert_eq!(Real::zero().to_bits(), 0.0f64.to_bits());
    assert_eq!(Real::one().to_bits(), 1.0f64.to_bits());
}

#[test]
fn interval_contains_and_surrounds() {
    let i = Interval::new(r(0.0), r(1.0));
    assert!(i.contains(r(0.0)));
    assert!(i.contains(r(1.0)));
    assert!(i.contains(r(0.5)));
    assert!(!i.contains(r(1.5)));
    assert!(!i.contains(r(f64::NAN)));
    assert!(!i.surrounds(r(0.0)));
    assert!(!i.surrounds(r(1.0)));
    assert!(i.surrounds(r(0.5)));
    assert!(!i.surrounds(r(-0.5)));
}

#[test]
fn interval_constants() {
    let e = Interval::empty();
    for &x in samples().iter() {
        assert!(!e.contains(r(x)));
    }
    let u = Interval::universe();
    assert!(u.contains(r(f64::MAX)));
    assert!(u.contains(r(f64::MIN)));
    assert!(!u.contains(r(f64::INFINITY)));
    let n = Interval::non_neg();
    assert!(n.contains(r(0.0)));
    assert!(n.contains(r(-0.0)));
    assert!(!n.contains(r(-1.0)));
    let b = Interval::near_non_neg();
    assert_eq!(b.min.to_bits(), 0.001f64.to_bits());
    assert!(!b.surrounds(r(0.001)));
    assert!(b.surrounds(r(0.0011)));
}

#[test]
fn interval_clamp() {
    let i = Interval::new(r(0.0), r(0.999));
    assert_eq!(i.clamp(r(-1.0)), r(0.0));
    assert_eq!(i.clamp(r(0.5)), r(0.5));
    assert_eq!(i.clamp(r(3.0)), r(0.999));
    assert_eq!(i.clamp(r(0.999)), r(0.999));
    assert!(i.clamp(r(f64::NAN)).is_nan_exec());
}

fn gamma(x: f64) -> f64 {
    if x > 0.0 {
        x.sqrt()
    } else {
        0.0
    }
}

#[test]
fn gamma_then_clamp_values() {
    let i = Interval::new(r(0.0), r(0.999));
    let inputs = [-1.0, 0.0, 0.25, 1.0, 10.0];
    let expected = [0.0, 0.0, 0.5, 0.999, 0.999];
    for k in 0..inputs.len() {
        let got = f64::from_bits(i.clamp(r(gamma(inputs[k]))).to_bits());
        assert_eq!(got, expected[k]);
    }
    // 0.998001 is 0.999 squared: it and anything above clamp to 0.999.
    let got = f64::from_bits(i.clamp(r(gamma(0.9981))).to_bits());
    assert_eq!(got, 0.999);
}

#[test]
fn near_zero_vectors() {
    assert!(Vec3::new(r(0.0), r(-0.0), r(9e-9)).near_zero());
    assert!(!Vec3::new(r(0.0), r(1e-8), r(0.0)).near_zero());
    assert!(!Vec3::new(r(-2e-8), r(0.0), r(0.0)).near_zero());
    assert!(!Vec3::new(r(f64::NAN), r(0.0), r(0.0)).near_zero());
}

#[test]
fn vector_negation() {
    let v = Vec3::new(r(1.0), r(-2.0), r(0.0)).neg();
    assert_eq!(v, Vec3::new(r(-1.0), r(2.0), r(-0.0)));
}
