//! Ready-made transitions.

use vstd::prelude::*;
use ratatui::style::Color;
use crate::easing::Easing;
use crate::fixed::{trunc_div, UNIT};
use crate::interpolate::{Interpolate, Scalar};
use crate::keyframe::{first_reaching, sample, sample_at_keyframe, strictly_ordered, Keyframe};
use crate::transition::{
    two_point, Transition, TransitionError, TransitionState, TransitionView,
};

verus! {

/// The ready-made transitions, as associated functions.
pub struct TransitionPresets;

/// The signed offset with the bit pattern of `d`: `d` itself up to 32767,
/// and `d - 65536` beyond.
pub open spec fn signed_offset(d: u16) -> i16 {
    if d <= i16::MAX {
        d as i16
    } else {
        (d - 65536) as i16
    }
}

/// The negation of `a`; the least offset, which has none, stays as it is.
pub open spec fn mirrored(a: i16) -> i16 {
    if a == i16::MIN {
        a
    } else {
        (-a) as i16
    }
}

/// Half of `a`, rounded toward zero.
pub open spec fn halved(a: i16) -> i16 {
    trunc_div(a as int, 2) as i16
}

/// The timeline of the bounce-scale preset.
pub open spec fn bounce_scale_timeline() -> Seq<Keyframe<Scalar>> {
    seq![
        Keyframe { offset: 0, value: Scalar { millionths: 0 }, easing: Easing::EaseOut },
        Keyframe { offset: 600_000, value: Scalar { millionths: 1_200_000 }, easing: Easing::Bounce },
        Keyframe { offset: UNIT, value: Scalar { millionths: 1_000_000 }, easing: Easing::EaseInOut },
    ]
}

/// The timeline of the pulse preset: from `min` to `max` at the middle and
/// back to `min`.
pub open spec fn pulse_timeline(min: Scalar, max: Scalar) -> Seq<Keyframe<Scalar>> {
    seq![
        Keyframe { offset: 0, value: min, easing: Easing::EaseInOut },
        Keyframe { offset: 500_000, value: max, easing: Easing::EaseInOut },
        Keyframe { offset: UNIT, value: min, easing: Easing::EaseInOut },
    ]
}

/// The timeline of the rainbow-cycle preset: seven hues in linear segments.
pub open spec fn rainbow_timeline() -> Seq<Keyframe<Color>> {
    seq![
        Keyframe { offset: 0, value: Color::Rgb(255, 0, 0), easing: Easing::Linear },
        Keyframe { offset: 160_000, value: Color::Rgb(255, 127, 0), easing: Easing::Linear },
        Keyframe { offset: 330_000, value: Color::Rgb(255, 255, 0), easing: Easing::Linear },
        Keyframe { offset: 500_000, value: Color::Rgb(0, 255, 0), easing: Easing::Linear },
        Keyframe { offset: 660_000, value: Color::Rgb(0, 0, 255), easing: Easing::Linear },
        Keyframe { offset: 830_000, value: Color::Rgb(75, 0, 130), easing: Easing::Linear },
        Keyframe { offset: UNIT, value: Color::Rgb(148, 0, 211), easing: Easing::EaseInOut },
    ]
}

/// The timeline of the horizontal shake for the signed amplitude `a`: four
/// swings of full width and two of half width between rests at both ends.
pub open spec fn shake_timeline(a: i16) -> Seq<Keyframe<i16>> {
    seq![
        Keyframe { offset: 0, value: 0i16, easing: Easing::Linear },
        Keyframe { offset: 100_000, value: a, easing: Easing::Linear },
        Keyframe { offset: 200_000, value: mirrored(a), easing: Easing::Linear },
        Keyframe { offset: 300_000, value: a, easing: Easing::Linear },
        Keyframe { offset: 400_000, value: mirrored(a), easing: Easing::Linear },
        Keyframe { offset: 500_000, value: halved(a), easing: Easing::Linear },
        Keyframe { offset: 600_000, value: mirrored(halved(a)), easing: Easing::Linear },
        Keyframe { offset: UNIT, value: 0i16, easing: Easing::EaseInOut },
    ]
}

/// Reads an unsigned distance as a signed offset of the same bit pattern.
pub fn to_signed_offset(d: u16) -> (r: i16)
    ensures
        r == signed_offset(d),
{
    if d <= 32767 {
        d as i16
    } else {
        ((d as i32) - 65536) as i16
    }
}

/// Negates an offset; the least offset stays as it is.
pub fn mirror(a: i16) -> (r: i16)
    ensures
        r == mirrored(a),
{
    if a == i16::MIN {
        a
    } else {
        -a
    }
}

/// A transition as it is made, with a budget of one pass.
pub open spec fn one_pass<T: Interpolate + Copy>(
    duration: u64,
    keyframes: Seq<Keyframe<T>>,
) -> TransitionView<T> {
    TransitionView { loop_count: Some(1usize), ..TransitionView::fresh(duration, keyframes) }
}

/// A transition as it is made, playing forever.
pub open spec fn endless<T: Interpolate + Copy>(
    duration: u64,
    keyframes: Seq<Keyframe<T>>,
) -> TransitionView<T> {
    TransitionView { loop_count: None, ..TransitionView::fresh(duration, keyframes) }
}

/// Gives a transition that was just made a budget of one pass.
fn once<T: Interpolate + Copy>(made: Result<Transition<T>, TransitionError>) -> (r: Result<
    Transition<T>,
    TransitionError,
>)
    ensures
        match (made, r) {
            (Ok(before), Ok(after)) => after@ == (TransitionView {
                loop_count: Some(1usize),
                ..before@
            }),
            (Err(before), Err(after)) => before == after,
            _ => false,
        },
{
    match made {
        Ok(t) => Ok(t.with_loop(Some(1))),
        Err(e) => Err(e),
    }
}

/// Whether `r` is the outcome owed for `duration` and the transition
/// described by `view`: that transition for a positive duration, and the
/// refusal of a zero duration else.
pub open spec fn made<T: Interpolate + Copy>(
    r: Result<Transition<T>, TransitionError>,
    duration: u64,
    view: TransitionView<T>,
) -> bool {
    match r {
        Ok(t) => duration > 0 && t@ == view,
        Err(e) => duration == 0 && e == TransitionError::ZeroDuration,
    }
}

impl TransitionPresets {
    /// From nothing to one whole with ease-out, in one pass.
    pub fn fade_in(duration: u64) -> (r: Result<Transition<Scalar>, TransitionError>)
        ensures
            made(
                r,
                duration,
                one_pass(
                    duration,
                    two_point(
                        Scalar { millionths: 0 },
                        Scalar { millionths: 1_000_000 },
                        Easing::EaseOut,
                    ),
                ),
            ),
    {
        once(Transition::from_to(duration, Scalar::new(0), Scalar::new(UNIT), Easing::EaseOut))
    }

    /// From one whole to nothing with ease-in, in one pass.
    pub fn fade_out(duration: u64) -> (r: Result<Transition<Scalar>, TransitionError>)
        ensures
            made(
                r,
                duration,
                one_pass(
                    duration,
                    two_point(
                        Scalar { millionths: 1_000_000 },
                        Scalar { millionths: 0 },
                        Easing::EaseIn,
                    ),
                ),
            ),
    {
        once(Transition::from_to(duration, Scalar::new(UNIT), Scalar::new(0), Easing::EaseIn))
    }

    /// From offset zero to `distance`, read as a signed offset, with
    /// ease-in-out, in one pass.
    pub fn slide_from_left(duration: u64, distance: u16) -> (r: Result<
        Transition<i16>,
        TransitionError,
    >)
        ensures
            made(
                r,
                duration,
                one_pass(
                    duration,
                    two_point(0i16, signed_offset(distance), Easing::EaseInOut),
                ),
            ),
    {
        once(Transition::from_to(duration, 0i16, to_signed_offset(distance), Easing::EaseInOut))
    }

    /// A scale that overshoots to 1.2 at 0.6 of the way and settles at one
    /// whole with a bounce, in one pass.
    pub fn bounce_scale(duration: u64) -> (r: Result<Transition<Scalar>, TransitionError>)
        ensures
            made(r, duration, one_pass(duration, bounce_scale_timeline())),
    {
        let mut keyframes: Vec<Keyframe<Scalar>> = Vec::new();
        keyframes.push(Keyframe::new(0, Scalar::new(0)).with_easing(Easing::EaseOut));
        keyframes.push(Keyframe::new(600_000, Scalar::new(1_200_000)).with_easing(Easing::Bounce));
        keyframes.push(Keyframe::new(UNIT, Scalar::new(1_000_000)));
        proof {
            assert(keyframes@ =~= bounce_scale_timeline());
        }
        once(Transition::new(duration, keyframes))
    }

    /// From nothing to one whole on the elastic curve, in one pass.
    pub fn elastic_entrance(duration: u64) -> (r: Result<Transition<Scalar>, TransitionError>)
        ensures
            made(
                r,
                duration,
                one_pass(
                    duration,
                    two_point(
                        Scalar { millionths: 0 },
                        Scalar { millionths: 1_000_000 },
                        Easing::Elastic,
                    ),
                ),
            ),
    {
        once(Transition::from_to(duration, Scalar::new(0), Scalar::new(UNIT), Easing::Elastic))
    }

    /// From `min` to `max` and back with ease-in-out, forever.
    pub fn pulse(duration: u64, min: Scalar, max: Scalar) -> (r: Result<
        Transition<Scalar>,
        TransitionError,
    >)
        ensures
            made(r, duration, endless(duration, pulse_timeline(min, max))),
    {
        let mut keyframes: Vec<Keyframe<Scalar>> = Vec::new();
        keyframes.push(Keyframe::new(0, min).with_easing(Easing::EaseInOut));
        keyframes.push(Keyframe::new(500_000, max).with_easing(Easing::EaseInOut));
        keyframes.push(Keyframe::new(UNIT, min));
        proof {
            assert(keyframes@ =~= pulse_timeline(min, max));
        }
        match Transition::new(duration, keyframes) {
            Ok(t) => Ok(t.with_loop(None)),
            Err(e) => Err(e),
        }
    }

    /// From one colour to another with ease-in-out, in one pass.
    pub fn color_shift(duration: u64, from: Color, to: Color) -> (r: Result<
        Transition<Color>,
        TransitionError,
    >)
        ensures
            made(
                r,
                duration,
                one_pass(duration, two_point(from, to, Easing::EaseInOut)),
            ),
    {
        once(Transition::from_to(duration, from, to, Easing::EaseInOut))
    }

    /// Through seven hues of the spectrum in linear segments, forever.
    pub fn rainbow_cycle(duration: u64) -> (r: Result<Transition<Color>, TransitionError>)
        ensures
            made(r, duration, endless(duration, rainbow_timeline())),
    {
        let mut keyframes: Vec<Keyframe<Color>> = Vec::new();
        keyframes.push(Keyframe::new(0, Color::Rgb(255, 0, 0)).with_easing(Easing::Linear));
        keyframes.push(Keyframe::new(160_000, Color::Rgb(255, 127, 0)).with_easing(Easing::Linear));
        keyframes.push(Keyframe::new(330_000, Color::Rgb(255, 255, 0)).with_easing(Easing::Linear));
        keyframes.push(Keyframe::new(500_000, Color::Rgb(0, 255, 0)).with_easing(Easing::Linear));
        keyframes.push(Keyframe::new(660_000, Color::Rgb(0, 0, 255)).with_easing(Easing::Linear));
        keyframes.push(Keyframe::new(830_000, Color::Rgb(75, 0, 130)).with_easing(Easing::Linear));
        keyframes.push(Keyframe::new(UNIT, Color::Rgb(148, 0, 211)));
        proof {
            assert(keyframes@ =~= rainbow_timeline());
        }
        match Transition::new(duration, keyframes) {
            Ok(t) => Ok(t.with_loop(None)),
            Err(e) => Err(e),
        }
    }

    /// A horizontal shake of the given amplitude, read as a signed offset:
    /// swings to either side that die down to rest, in linear segments and
    /// one pass.
    pub fn shake_horizontal(duration: u64, amplitude: u16) -> (r: Result<
        Transition<i16>,
        TransitionError,
    >)
        ensures
            made(
                r,
                duration,
                one_pass(duration, shake_timeline(signed_offset(amplitude))),
            ),
    {
        let a: i16 = to_signed_offset(amplitude);
        let half: i16 = a / 2;
        let mut keyframes: Vec<Keyframe<i16>> = Vec::new();
        keyframes.push(Keyframe::new(0, 0i16).with_easing(Easing::Linear));
        keyframes.push(Keyframe::new(100_000, a).with_easing(Easing::Linear));
        keyframes.push(Keyframe::new(200_000, mirror(a)).with_easing(Easing::Linear));
        keyframes.push(Keyframe::new(300_000, a).with_easing(Easing::Linear));
        keyframes.push(Keyframe::new(400_000, mirror(a)).with_easing(Easing::Linear));
        keyframes.push(Keyframe::new(500_000, half).with_easing(Easing::Linear));
        keyframes.push(Keyframe::new(600_000, -half).with_easing(Easing::Linear));
        keyframes.push(Keyframe::new(UNIT, 0i16));
        proof {
            assert(keyframes@ =~= shake_timeline(signed_offset(amplitude)));
        }
        once(Transition::new(duration, keyframes))
    }

    /// From half size to full size with ease-out, in one pass.
    pub fn zoom_in(duration: u64) -> (r: Result<Transition<Scalar>, TransitionError>)
        ensures
            made(
                r,
                duration,
                one_pass(
                    duration,
                    two_point(
                        Scalar { millionths: 500_000 },
                        Scalar { millionths: 1_000_000 },
                        Easing::EaseOut,
                    ),
                ),
            ),
    {
        once(Transition::from_to(duration, Scalar::new(500_000), Scalar::new(UNIT), Easing::EaseOut))
    }
}

/// A pulse never completes, and an update that finds a pass played leaves
/// it running at its least value.
pub proof fn pulse_returns_to_min(duration: u64, min: Scalar, max: Scalar, begin: u64, now: u64)
    requires
        duration > 0,
        begin <= now,
        now - begin >= duration,
    ensures
        ({
            let pulse = endless(duration, pulse_timeline(min, max)).started(begin);
            &&& pulse.tick(now).state == TransitionState::Running
            &&& pulse.tick(now).current_value == Some(min)
            &&& forall|later: u64|
                pulse.tick(now).tick(later).state == TransitionState::Running
        }),
{
    let timeline = pulse_timeline(min, max);
    assert(timeline[0].offset == 0);
    assert(first_reaching(timeline, 0, 0) == 0);
}

/// The horizontal shake rests at both ends and, in between, stands at each
/// of its keyframes on the value set there: the amplitude and its mirror
/// image in turn, then half of it and the mirror image of that. For an
/// amplitude from 2 to 32767 these values are not zero and change sign from
/// each to the next.
pub proof fn shake_rests_and_swings(amplitude: u16)
    ensures
        ({
            let a = signed_offset(amplitude);
            let shake = shake_timeline(a);
            &&& sample(shake, 0) == 0i16
            &&& sample(shake, UNIT as int) == 0i16
            &&& sample(shake, 100_000) == a
            &&& sample(shake, 200_000) == mirrored(a)
            &&& sample(shake, 300_000) == a
            &&& sample(shake, 400_000) == mirrored(a)
            &&& sample(shake, 500_000) == halved(a)
            &&& sample(shake, 600_000) == mirrored(halved(a))
            &&& 2 <= amplitude <= i16::MAX ==> {
                &&& a > 0
                &&& mirrored(a) < 0
                &&& halved(a) > 0
                &&& mirrored(halved(a)) < 0
            }
        }),
{
    let a = signed_offset(amplitude);
    let shake = shake_timeline(a);
    assert(shake.len() == 8);
    assert(shake[0].offset == 0 && shake[1].offset == 100_000 && shake[2].offset == 200_000
        && shake[3].offset == 300_000 && shake[4].offset == 400_000 && shake[5].offset == 500_000
        && shake[6].offset == 600_000 && shake[7].offset == UNIT);
    assert(strictly_ordered(shake));
    sample_at_keyframe(shake, 0);
    sample_at_keyframe(shake, 1);
    sample_at_keyframe(shake, 2);
    sample_at_keyframe(shake, 3);
    sample_at_keyframe(shake, 4);
    sample_at_keyframe(shake, 5);
    sample_at_keyframe(shake, 6);
    sample_at_keyframe(shake, 7);
}

} // verus!
