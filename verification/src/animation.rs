//! One-shot animations that are driven by a millisecond clock.

use vstd::prelude::*;
use crate::easing::Easing;
use crate::fixed::UNIT;
use crate::interpolate::Scalar;
use crate::shapes::Point;

verus! {

/// The kinds of animation and their parameters.
#[allow(inconsistent_fields)]
#[derive(Debug, Clone, Copy)]
pub enum Animation {
    FadeIn { duration_ms: u64, easing: Easing },
    FadeOut { duration_ms: u64, easing: Easing },
    Slide { from: Point, to: Point, duration_ms: u64, easing: Easing },
    Scale { from: Scalar, to: Scalar, duration_ms: u64, easing: Easing },
    Rotate { degrees: Scalar, duration_ms: u64, easing: Easing },
    Pulse { scale_factor: Scalar, frequency_hz: Scalar },
}

/// Tracks one animation from the first update on. A start time of zero
/// means that no update has been seen yet.
pub struct AnimationState {
    start_time_ms: u64,
    duration_ms: u64,
    easing: Easing,
}

/// What an [`AnimationState`] holds.
pub struct AnimationView {
    pub start_time_ms: u64,
    pub duration_ms: u64,
    pub easing: Easing,
}

impl AnimationView {
    /// The start time after an update at `current_time_ms`: the first update
    /// sets it.
    pub open spec fn start_after(self, current_time_ms: u64) -> u64 {
        if self.start_time_ms == 0 {
            current_time_ms
        } else {
            self.start_time_ms
        }
    }

    /// The milliseconds between the start and `current_time_ms`, zero where
    /// the clock reads earlier than the start.
    pub open spec fn elapsed(self, current_time_ms: u64) -> int {
        if current_time_ms >= self.start_time_ms {
            current_time_ms - self.start_time_ms
        } else {
            0
        }
    }

    /// The share of the duration that has gone by at `current_time_ms` for
    /// an animation that has started, at most one whole. An animation
    /// without duration is at one whole at once.
    pub open spec fn progress(self, current_time_ms: u64) -> int {
        if self.duration_ms == 0 || self.elapsed(current_time_ms) >= self.duration_ms {
            UNIT as int
        } else {
            self.elapsed(current_time_ms) * UNIT / (self.duration_ms as int)
        }
    }
}

impl View for AnimationState {
    type V = AnimationView;

    closed spec fn view(&self) -> AnimationView {
        AnimationView {
            start_time_ms: self.start_time_ms,
            duration_ms: self.duration_ms,
            easing: self.easing,
        }
    }
}

impl AnimationState {
    /// An animation of that duration and easing that has not started.
    pub fn new(duration_ms: u64, easing: Easing) -> (r: Self)
        ensures
            r@ == (AnimationView { start_time_ms: 0, duration_ms: duration_ms, easing: easing }),
    {
        AnimationState { start_time_ms: 0, duration_ms, easing }
    }

    /// Advances the animation to `current_time_ms` and returns the eased
    /// progress. The first update starts the animation.
    pub fn update(&mut self, current_time_ms: u64) -> (r: i64)
        ensures
            final(self)@ == (AnimationView {
                start_time_ms: old(self)@.start_after(current_time_ms),
                ..old(self)@
            }),
            r == old(self)@.easing.apply_spec(final(self)@.progress(current_time_ms)),
    {
        if self.start_time_ms == 0 {
            self.start_time_ms = current_time_ms;
        }
        let elapsed: u64 = if current_time_ms >= self.start_time_ms {
            current_time_ms - self.start_time_ms
        } else {
            0
        };
        let progress: i64 = if self.duration_ms == 0 || elapsed >= self.duration_ms {
            UNIT
        } else {
            let scaled: u128 = (elapsed as u128) * (UNIT as u128);
            let duration: u128 = self.duration_ms as u128;
            assert(0 <= scaled / duration < 1_000_000) by (nonlinear_arith)
                requires
                    scaled == elapsed * 1_000_000,
                    0 <= elapsed < duration,
            ;
            (scaled / duration) as i64
        };
        self.easing.apply(progress)
    }

    /// Whether the animation has started and its duration has gone by at
    /// `current_time_ms`.
    pub fn is_complete(&self, current_time_ms: u64) -> (r: bool)
        ensures
            r == (self@.start_time_ms != 0 && self@.elapsed(current_time_ms)
                >= self@.duration_ms),
    {
        if self.start_time_ms == 0 {
            return false;
        }
        let elapsed: u64 = if current_time_ms >= self.start_time_ms {
            current_time_ms - self.start_time_ms
        } else {
            0
        };
        elapsed >= self.duration_ms
    }
}

} // verus!
