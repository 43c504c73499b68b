use ruensh::easing::Easing;
use ruensh::fixed::UNIT;
use ruensh::interpolate::Scalar;
use ruensh::keyframe::{find_first_reaching, interpolate_at, segment_progress, Keyframe};
use ruensh::transition::Transition;

fn linear(offset: i64, value: i64) -> Keyframe<Scalar> {
    Keyframe::new(offset, Scalar::new(value)).with_easing(Easing::Linear)
}

#[test]
fn a_keyframe_clamps_its_offset() {
    assert_eq!(Keyframe::new(-5, 1u16).offset, 0);
    assert_eq!(Keyframe::new(UNIT + 5, 1u16).offset, UNIT);
    assert_eq!(Keyframe::new(400_000, 1u16).offset, 400_000);
    assert_eq!(Keyframe::new(400_000, 1u16).value, 1);
}

#[test]
fn a_keyframe_leaves_with_ease_in_out_unless_told() {
    assert_eq!(Keyframe::new(0, 1u16).easing, Easing::EaseInOut);
    let k = Keyframe::new(300_000, 7u16).with_easing(Easing::Bounce);
    assert_eq!(k.easing, Easing::Bounce);
    assert_eq!(k.offset, 300_000);
    assert_eq!(k.value, 7);
}

#[test]
fn three_keyframes_with_linear_segments() {
    let t = Transition::new(
        1,
        vec![linear(0, 0), linear(500_000, 50_000_000), linear(UNIT, 100_000_000)],
    )
    .unwrap();
    assert_eq!(t.value_at(0), Scalar::new(0));
    assert_eq!(t.value_at(500_000), Scalar::new(50_000_000));
    assert_eq!(t.value_at(UNIT), Scalar::new(100_000_000));
    let quarter = t.value_at(250_000);
    assert!(quarter.millionths > 0 && quarter.millionths < 50_000_000);
    assert_eq!(quarter, Scalar::new(25_000_000));
    assert_eq!(t.value_at(750_000), Scalar::new(75_000_000));
}

#[test]
fn a_single_keyframe_is_constant() {
    let t = Transition::new(5, vec![Keyframe::new(300_000, 42u16)]).unwrap();
    for p in [-10, 0, 1, 299_999, 300_000, 300_001, 999_999, UNIT, UNIT + 10] {
        assert_eq!(t.value_at(p), 42);
    }
}

#[test]
fn progress_is_clamped_before_lookup() {
    let t = Transition::from_to(5, 10u16, 20u16, Easing::Linear).unwrap();
    assert_eq!(t.value_at(-1_000), 10);
    assert_eq!(t.value_at(i64::MIN), 10);
    assert_eq!(t.value_at(UNIT + 1_000), 20);
    assert_eq!(t.value_at(i64::MAX), 20);
}

#[test]
fn outside_all_offsets_the_nearest_end_holds() {
    let timeline = vec![
        Keyframe::new(200_000, 10u16).with_easing(Easing::Linear),
        Keyframe::new(400_000, 20u16).with_easing(Easing::Linear),
        Keyframe::new(600_000, 30u16).with_easing(Easing::Linear),
    ];
    assert_eq!(interpolate_at(&timeline, 0), 10);
    assert_eq!(interpolate_at(&timeline, 100_000), 10);
    assert_eq!(interpolate_at(&timeline, 200_000), 10);
    assert_eq!(interpolate_at(&timeline, 600_000), 30);
    assert_eq!(interpolate_at(&timeline, 700_000), 30);
    assert_eq!(interpolate_at(&timeline, UNIT), 30);
    assert_eq!(interpolate_at(&timeline, 300_000), 15);
    assert_eq!(interpolate_at(&timeline, 500_000), 25);
}

#[test]
fn the_earlier_keyframe_sets_the_easing() {
    let timeline = vec![
        Keyframe::new(0, 0u16).with_easing(Easing::EaseIn),
        Keyframe::new(500_000, 100u16).with_easing(Easing::EaseOut),
        Keyframe::new(UNIT, 200u16).with_easing(Easing::Bounce),
    ];
    assert_eq!(interpolate_at(&timeline, 250_000), 25);
    assert_eq!(interpolate_at(&timeline, 750_000), 175);
}

#[test]
fn keyframes_that_share_an_offset() {
    let timeline = vec![
        Keyframe::new(0, 0u16).with_easing(Easing::Linear),
        Keyframe::new(500_000, 100u16).with_easing(Easing::Linear),
        Keyframe::new(500_000, 200u16).with_easing(Easing::Linear),
        Keyframe::new(UNIT, 300u16).with_easing(Easing::Linear),
    ];
    assert_eq!(interpolate_at(&timeline, 500_000), 100);
    assert_eq!(interpolate_at(&timeline, 250_000), 50);
    assert_eq!(interpolate_at(&timeline, 750_000), 250);
    assert_eq!(interpolate_at(&timeline, 500_001), 200);
}

#[test]
fn the_first_keyframe_at_or_beyond_progress() {
    let timeline = vec![
        Keyframe::new(100_000, 1u16),
        Keyframe::new(300_000, 2u16),
        Keyframe::new(300_000, 3u16),
        Keyframe::new(900_000, 4u16),
    ];
    assert_eq!(find_first_reaching(&timeline, 0), 0);
    assert_eq!(find_first_reaching(&timeline, 100_000), 0);
    assert_eq!(find_first_reaching(&timeline, 100_001), 1);
    assert_eq!(find_first_reaching(&timeline, 300_000), 1);
    assert_eq!(find_first_reaching(&timeline, 300_001), 3);
    assert_eq!(find_first_reaching(&timeline, 900_001), 4);
    let empty: Vec<Keyframe<u16>> = Vec::new();
    assert_eq!(find_first_reaching(&empty, 5), 0);
}

#[test]
fn progress_within_a_segment() {
    assert_eq!(segment_progress(0, UNIT, 250_000), 250_000);
    assert_eq!(segment_progress(200_000, 400_000, 300_000), 500_000);
    assert_eq!(segment_progress(0, 3, 1), 333_333);
    assert_eq!(segment_progress(0, 3, 2), 666_666);
    assert_eq!(segment_progress(i64::MIN, i64::MAX, 0), 500_000);
}
