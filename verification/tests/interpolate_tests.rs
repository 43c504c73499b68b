use ratatui::style::Color;
use ruensh::fixed::{blend_clamped, clamp_unit, UNIT};
use ruensh::interpolate::{lerp_channel, Interpolate, Scalar};

#[test]
fn clamp_unit_limits_both_sides() {
    assert_eq!(clamp_unit(-1), 0);
    assert_eq!(clamp_unit(0), 0);
    assert_eq!(clamp_unit(123_456), 123_456);
    assert_eq!(clamp_unit(UNIT), UNIT);
    assert_eq!(clamp_unit(UNIT + 1), UNIT);
    assert_eq!(clamp_unit(i64::MIN), 0);
    assert_eq!(clamp_unit(i64::MAX), UNIT);
}

#[test]
fn blend_rounds_toward_zero() {
    assert_eq!(blend_clamped(0, 3, 500_000, -100, 100), 1);
    assert_eq!(blend_clamped(0, -3, 500_000, -100, 100), -1);
    assert_eq!(blend_clamped(-3, 0, 500_000, -100, 100), -1);
    assert_eq!(blend_clamped(3, 0, 500_000, -100, 100), 1);
    assert_eq!(blend_clamped(-1, 2, 500_000, -100, 100), 0);
    assert_eq!(blend_clamped(2, -1, 500_000, -100, 100), 0);
}

#[test]
fn blend_limits_to_the_range() {
    assert_eq!(blend_clamped(0, 10, 2 * UNIT, 0, 15), 15);
    assert_eq!(blend_clamped(10, 0, 2 * UNIT, 0, 15), 0);
    assert_eq!(blend_clamped(i64::MIN, i64::MAX, i64::MAX, i64::MIN, i64::MAX), i64::MAX);
    assert_eq!(blend_clamped(i64::MAX, i64::MIN, i64::MAX, i64::MIN, i64::MAX), i64::MIN);
    assert_eq!(blend_clamped(i64::MIN, i64::MAX, i64::MIN, i64::MIN, i64::MAX), i64::MIN);
    assert_eq!(blend_clamped(i64::MAX, i64::MAX, i64::MIN, i64::MIN, i64::MAX), i64::MAX);
}

#[test]
fn blend_hits_both_ends() {
    for (a, b) in [(0i64, 7i64), (-9, 4), (5, -5), (i64::MIN, i64::MAX), (i64::MAX, i64::MIN)] {
        assert_eq!(blend_clamped(a, b, 0, i64::MIN, i64::MAX), a);
        assert_eq!(blend_clamped(a, b, UNIT, i64::MIN, i64::MAX), b);
    }
}

#[test]
fn scalar_blends_linearly() {
    let a = Scalar::new(0);
    let b = Scalar::new(100_000_000);
    assert_eq!(a.lerp(&b, 250_000), Scalar::new(25_000_000));
    assert_eq!(a.lerp(&b, 0), a);
    assert_eq!(a.lerp(&b, UNIT), b);
    assert_eq!(a.lerp(&b, 2 * UNIT), Scalar::new(200_000_000));
    assert_eq!(a.lerp(&b, -UNIT), Scalar::new(-100_000_000));
    assert_eq!(Scalar::new(1_200_000).lerp(&Scalar::new(1_000_000), 765_625), Scalar::new(1_046_875));
}

#[test]
fn unsigned_offsets_blend_and_saturate() {
    assert_eq!(10u16.lerp(&20, 500_000), 15);
    assert_eq!(10u16.lerp(&13, 500_000), 11);
    assert_eq!(10u16.lerp(&0, 2 * UNIT), 0);
    assert_eq!(0u16.lerp(&65_535, 2 * UNIT), 65_535);
    assert_eq!(7u16.lerp(&9, 0), 7);
    assert_eq!(7u16.lerp(&9, UNIT), 9);
}

#[test]
fn signed_offsets_blend_toward_zero() {
    assert_eq!((-3i16).lerp(&0, 500_000), -1);
    assert_eq!(3i16.lerp(&0, 500_000), 1);
    assert_eq!((-5i16).lerp(&0, 500_000), -2);
    assert_eq!(0i16.lerp(&-32_768, 2 * UNIT), -32_768);
    assert_eq!(0i16.lerp(&32_767, 2 * UNIT), 32_767);
    assert_eq!((-10i16).lerp(&10, 250_000), -5);
}

#[test]
fn channels_blend_like_unsigned_offsets() {
    assert_eq!(lerp_channel(0, 255, 500_000), 127);
    assert_eq!(lerp_channel(255, 0, 500_000), 127);
    assert_eq!(lerp_channel(0, 255, 2 * UNIT), 255);
    assert_eq!(lerp_channel(255, 0, 2 * UNIT), 0);
    assert_eq!(lerp_channel(40, 50, 0), 40);
    assert_eq!(lerp_channel(40, 50, UNIT), 50);
}

#[test]
fn rgb_colours_blend_by_channel() {
    let a = Color::Rgb(0, 100, 200);
    let b = Color::Rgb(100, 0, 210);
    assert_eq!(a.lerp(&b, 500_000), Color::Rgb(50, 50, 205));
    assert_eq!(a.lerp(&b, 0), a);
    assert_eq!(a.lerp(&b, UNIT), b);
}

#[test]
fn other_colours_do_not_blend() {
    let rgb = Color::Rgb(1, 2, 3);
    assert_eq!(Color::Red.lerp(&rgb, 500_000), Color::Red);
    assert_eq!(rgb.lerp(&Color::Blue, 500_000), rgb);
    assert_eq!(Color::Indexed(4).lerp(&Color::Indexed(9), UNIT), Color::Indexed(4));
    assert_eq!(Color::Reset.lerp(&Color::White, UNIT), Color::Reset);
}

#[test]
fn pairs_blend_by_component() {
    let a = (10u16, 20u16);
    let b = (20u16, 40u16);
    assert_eq!(a.lerp(&b, 500_000), (15, 30));
    assert_eq!(a.lerp(&b, 0), a);
    assert_eq!(a.lerp(&b, UNIT), b);
    let c = (Scalar::new(0), 100i16);
    let d = (Scalar::new(1_000_000), -100i16);
    assert_eq!(c.lerp(&d, 250_000), (Scalar::new(250_000), 50));
}
