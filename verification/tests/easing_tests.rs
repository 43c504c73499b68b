use ruensh::easing::Easing;
use ruensh::fixed::UNIT;

#[test]
fn test_easing_linear() {
    let easing = Easing::Linear;
    assert_eq!(easing.apply(0), 0);
    assert_eq!(easing.apply(500_000), 500_000);
    assert_eq!(easing.apply(UNIT), UNIT);
}

#[test]
fn test_easing_ease_in() {
    let easing = Easing::EaseIn;
    assert_eq!(easing.apply(0), 0);
    assert!(easing.apply(500_000) < 500_000);
    assert_eq!(easing.apply(UNIT), UNIT);
}

#[test]
fn every_easing_keeps_both_ends() {
    let all = [
        Easing::Linear,
        Easing::EaseIn,
        Easing::EaseOut,
        Easing::EaseInOut,
        Easing::Bounce,
        Easing::Elastic,
    ];
    for e in all {
        assert_eq!(e.apply(0), 0);
        assert_eq!(e.apply(UNIT), UNIT);
        assert_eq!(e.apply(-5), 0);
        assert_eq!(e.apply(UNIT + 5), UNIT);
    }
}

#[test]
fn midpoints_of_the_polynomial_curves() {
    assert_eq!(Easing::EaseIn.apply(500_000), 250_000);
    assert_eq!(Easing::EaseOut.apply(500_000), 750_000);
    assert!(Easing::EaseOut.apply(500_000) > 500_000);
    assert_eq!(Easing::EaseInOut.apply(500_000), 500_000);
    assert_eq!(Easing::EaseInOut.apply(250_000), 125_000);
    assert_eq!(Easing::EaseInOut.apply(750_000), 875_000);
}

fn bounce_reference(t: f64) -> f64 {
    if t < 1.0 / 2.75 {
        7.5625 * t * t
    } else if t < 2.0 / 2.75 {
        let t = t - 1.5 / 2.75;
        7.5625 * t * t + 0.75
    } else if t < 2.5 / 2.75 {
        let t = t - 2.25 / 2.75;
        7.5625 * t * t + 0.9375
    } else {
        let t = t - 2.625 / 2.75;
        7.5625 * t * t + 0.984375
    }
}

fn elastic_reference(t: f64) -> f64 {
    if t == 0.0 || t == 1.0 {
        t
    } else {
        let p = 0.3;
        let s = p / 4.0;
        let t = t - 1.0;
        -(2.0_f64.powf(10.0 * t) * ((t - s) * (2.0 * std::f64::consts::PI) / p).sin())
    }
}

#[test]
fn bounce_follows_the_four_arcs() {
    let mut t: i64 = 0;
    while t <= UNIT {
        let got = Easing::Bounce.apply(t) as f64 / 1e6;
        let want = bounce_reference(t as f64 / 1e6);
        assert!((got - want).abs() < 2e-6, "t = {t}: {got} vs {want}");
        t += 1_000;
    }
    assert_eq!(Easing::Bounce.apply(500_000), 765_625);
}

#[test]
fn elastic_follows_the_damped_sine() {
    let mut t: i64 = 0;
    while t <= UNIT {
        let got = Easing::Elastic.apply(t) as f64 / 1e6;
        let want = elastic_reference(t as f64 / 1e6);
        assert!((got - want).abs() < 5e-3, "t = {t}: {got} vs {want}");
        t += 500;
    }
    assert_eq!(Easing::Elastic.apply(500_000), -15_625);
}
