//! The transition: a player that turns elapsed time into a value on a
//! timeline of keyframes.

use vstd::prelude::*;
use crate::easing::Easing;
use crate::fixed::{clamp_unit, clamp_unit_spec, UNIT};
use crate::interpolate::Interpolate;
use crate::keyframe::{interpolate_at, sample, Keyframe};

verus! {

/// Where a transition stands in its life.
#[derive(Debug, Clone, Copy, PartialEq, Eq, Structural)]
pub enum TransitionState {
    Idle,
    Running,
    Complete,
    Paused,
}

/// Why a transition could not be made.
#[derive(Debug, Clone, Copy, PartialEq, Eq, Structural)]
pub enum TransitionError {
    /// The duration was zero.
    ZeroDuration,
}

/// A keyframe transition. Time is a monotonic tick count that the caller
/// hands in; the duration is counted in the same ticks.
pub struct Transition<T: Interpolate + Copy> {
    keyframes: Vec<Keyframe<T>>,
    duration: u64,
    start_time: Option<u64>,
    state: TransitionState,
    current_value: Option<T>,
    loop_count: Option<usize>,
    current_loop: usize,
    reverse_on_complete: bool,
}

/// What a transition holds, as plain mathematical values.
pub struct TransitionView<T> {
    pub keyframes: Seq<Keyframe<T>>,
    pub duration: u64,
    pub start_time: Option<u64>,
    pub state: TransitionState,
    pub current_value: Option<T>,
    pub loop_count: Option<usize>,
    pub current_loop: usize,
    pub reverse_on_complete: bool,
}

/// The timeline of two keyframes that leads from `from`, leaving with
/// `easing`, to `to`.
pub open spec fn two_point<T>(from: T, to: T, easing: Easing) -> Seq<Keyframe<T>> {
    seq![
        Keyframe { offset: 0, value: from, easing: easing },
        Keyframe { offset: UNIT, value: to, easing: Easing::EaseInOut },
    ]
}

impl<T: Interpolate + Copy> TransitionView<T> {
    /// A transition as it is made: idle, without a value, playing forever
    /// and forward only.
    pub open spec fn fresh(duration: u64, keyframes: Seq<Keyframe<T>>) -> Self {
        TransitionView {
            keyframes: keyframes,
            duration: duration,
            start_time: None,
            state: TransitionState::Idle,
            current_value: None,
            loop_count: None,
            current_loop: 0,
            reverse_on_complete: false,
        }
    }

    /// The transition once started at `now`: that instant is the reference,
    /// the state is running and the loop index is zero.
    pub open spec fn started(self, now: u64) -> Self {
        TransitionView {
            start_time: Some(now),
            state: TransitionState::Running,
            current_loop: 0,
            ..self
        }
    }

    /// The transition after a pause: only a running one changes.
    pub open spec fn paused(self) -> Self {
        TransitionView {
            state: if self.state == TransitionState::Running {
                TransitionState::Paused
            } else {
                self.state
            },
            ..self
        }
    }

    /// The transition after a resume: only a paused one changes.
    pub open spec fn resumed(self) -> Self {
        TransitionView {
            state: if self.state == TransitionState::Paused {
                TransitionState::Running
            } else {
                self.state
            },
            ..self
        }
    }

    /// The transition after a reset: idle, without reference instant or
    /// value, at loop index zero.
    pub open spec fn rewound(self) -> Self {
        TransitionView {
            start_time: None,
            state: TransitionState::Idle,
            current_value: None,
            current_loop: 0,
            ..self
        }
    }

    /// The ticks that have gone by since the reference instant. A clock that
    /// reads earlier than the reference instant counts as no time gone by.
    pub open spec fn elapsed(self, now: u64) -> int {
        match self.start_time {
            Some(start) => if now >= start {
                now - start
            } else {
                0
            },
            None => 0,
        }
    }

    /// Whether an update at `now` finds a whole pass played.
    pub open spec fn pass_played(self, now: u64) -> bool {
        self.state == TransitionState::Running && self.elapsed(now) >= self.duration
    }

    /// Whether an update at `now` ends the transition: a pass has been
    /// played and it was the last one of a finite budget.
    pub open spec fn finishes(self, now: u64) -> bool {
        self.pass_played(now) && match self.loop_count {
            Some(budget) => self.current_loop + 1 >= budget,
            None => false,
        }
    }

    /// The loop index after an update at `now`. The index starts again from
    /// zero where the counter could not hold a further pass.
    pub open spec fn loop_after(self, now: u64) -> usize {
        if self.pass_played(now) && !self.finishes(now) {
            if self.current_loop < usize::MAX {
                (self.current_loop + 1) as usize
            } else {
                0
            }
        } else {
            self.current_loop
        }
    }

    /// Progress through the current pass at `now`, before any reversal: one
    /// whole at the end, zero at the start of a new pass, else the share of
    /// the duration that has gone by.
    pub open spec fn raw_progress(self, now: u64) -> int {
        if self.finishes(now) {
            UNIT as int
        } else if self.pass_played(now) {
            0
        } else {
            self.elapsed(now) * UNIT / (self.duration as int)
        }
    }

    /// The progress at which the timeline is read at `now`: the raw progress,
    /// mirrored in odd passes of a reversing transition.
    pub open spec fn progress(self, now: u64) -> int {
        if self.reverse_on_complete && self.loop_after(now) % 2 == 1 {
            UNIT - self.raw_progress(now)
        } else {
            self.raw_progress(now)
        }
    }

    /// The transition after an update at `now`. Only a running transition
    /// changes.
    pub open spec fn tick(self, now: u64) -> Self {
        if self.state != TransitionState::Running {
            self
        } else {
            TransitionView {
                keyframes: self.keyframes,
                duration: self.duration,
                start_time: if self.pass_played(now) && !self.finishes(now) {
                    Some(now)
                } else {
                    self.start_time
                },
                state: if self.finishes(now) {
                    TransitionState::Complete
                } else {
                    TransitionState::Running
                },
                current_value: Some(sample(self.keyframes, self.progress(now))),
                loop_count: self.loop_count,
                current_loop: self.loop_after(now),
                reverse_on_complete: self.reverse_on_complete,
            }
        }
    }
}

impl<T: Interpolate + Copy> View for Transition<T> {
    type V = TransitionView<T>;

    closed spec fn view(&self) -> TransitionView<T> {
        TransitionView {
            keyframes: self.keyframes@,
            duration: self.duration,
            start_time: self.start_time,
            state: self.state,
            current_value: self.current_value,
            loop_count: self.loop_count,
            current_loop: self.current_loop,
            reverse_on_complete: self.reverse_on_complete,
        }
    }
}

impl<T: Interpolate + Copy> Transition<T> {
    #[verifier::type_invariant]
    spec fn inv(self) -> bool {
        &&& self.duration > 0
        &&& (self.state == TransitionState::Running || self.state == TransitionState::Paused)
            ==> self.start_time is Some
    }

    /// A transition over `keyframes` that lasts `duration` ticks. It is idle,
    /// plays forever and does not reverse. A zero duration is refused.
    pub fn new(duration: u64, keyframes: Vec<Keyframe<T>>) -> (r: Result<Self, TransitionError>)
        ensures
            match r {
                Ok(t) => duration > 0 && t@ == TransitionView::fresh(duration, keyframes@),
                Err(e) => duration == 0 && e == TransitionError::ZeroDuration,
            },
    {
        if duration == 0 {
            return Err(TransitionError::ZeroDuration);
        }
        Ok(
            Transition {
                keyframes,
                duration,
                start_time: None,
                state: TransitionState::Idle,
                current_value: None,
                loop_count: None,
                current_loop: 0,
                reverse_on_complete: false,
            },
        )
    }

    /// A transition between two values: `from` at the start, leaving with
    /// `easing`, and `to` at the end.
    pub fn from_to(duration: u64, from: T, to: T, easing: Easing) -> (r: Result<
        Self,
        TransitionError,
    >)
        ensures
            match r {
                Ok(t) => duration > 0 && t@ == TransitionView::fresh(
                    duration,
                    two_point(from, to, easing),
                ),
                Err(e) => duration == 0 && e == TransitionError::ZeroDuration,
            },
    {
        let mut keyframes: Vec<Keyframe<T>> = Vec::new();
        keyframes.push(Keyframe::new(0, from).with_easing(easing));
        keyframes.push(Keyframe::new(UNIT, to));
        proof {
            assert(keyframes@ =~= two_point(from, to, easing));
        }
        Self::new(duration, keyframes)
    }

    /// Sets the number of passes; `None` plays forever.
    pub fn with_loop(self, count: Option<usize>) -> (r: Self)
        ensures
            r@ == (TransitionView { loop_count: count, ..self@ }),
    {
        proof {
            use_type_invariant(&self);
        }
        Transition {
            keyframes: self.keyframes,
            duration: self.duration,
            start_time: self.start_time,
            state: self.state,
            current_value: self.current_value,
            loop_count: count,
            current_loop: self.current_loop,
            reverse_on_complete: self.reverse_on_complete,
        }
    }

    /// Sets whether odd passes play backward.
    pub fn with_reverse(self, reverse: bool) -> (r: Self)
        ensures
            r@ == (TransitionView { reverse_on_complete: reverse, ..self@ }),
    {
        proof {
            use_type_invariant(&self);
        }
        Transition {
            keyframes: self.keyframes,
            duration: self.duration,
            start_time: self.start_time,
            state: self.state,
            current_value: self.current_value,
            loop_count: self.loop_count,
            current_loop: self.current_loop,
            reverse_on_complete: reverse,
        }
    }

    /// Starts the transition at `now`: that instant becomes the reference,
    /// the state is running and the loop index is zero. The cached value
    /// stays.
    pub fn start(&mut self, now: u64)
        ensures
            final(self)@ == old(self)@.started(now),
    {
        proof {
            use_type_invariant(&*self);
        }
        self.start_time = Some(now);
        self.state = TransitionState::Running;
        self.current_loop = 0;
    }

    /// Pauses a running transition; any other is left as it is. The
    /// reference instant does not move, so the time spent paused counts as
    /// played once the transition is resumed.
    pub fn pause(&mut self)
        ensures
            final(self)@ == old(self)@.paused(),
    {
        proof {
            use_type_invariant(&*self);
        }
        if self.state == TransitionState::Running {
            self.state = TransitionState::Paused;
        }
    }

    /// Resumes a paused transition; any other is left as it is.
    pub fn resume(&mut self)
        ensures
            final(self)@ == old(self)@.resumed(),
    {
        proof {
            use_type_invariant(&*self);
        }
        if self.state == TransitionState::Paused {
            self.state = TransitionState::Running;
        }
    }

    /// Returns to idle from any state: the reference instant and the cached
    /// value are dropped and the loop index is zero.
    pub fn reset(&mut self)
        ensures
            final(self)@ == old(self)@.rewound(),
            final(self)@.state == TransitionState::Idle,
            final(self)@.current_value is None,
    {
        proof {
            use_type_invariant(&*self);
        }
        self.state = TransitionState::Idle;
        self.start_time = None;
        self.current_value = None;
        self.current_loop = 0;
    }

    /// The current state.
    pub fn state(&self) -> (r: TransitionState)
        ensures
            r == self@.state,
    {
        self.state
    }

    /// Whether the transition is running.
    pub fn is_running(&self) -> (r: bool)
        ensures
            r == (self@.state == TransitionState::Running),
    {
        self.state == TransitionState::Running
    }

    /// The value that the last update computed, if any since the last reset.
    pub fn current_value(&self) -> (r: Option<T>)
        ensures
            r == self@.current_value,
    {
        self.current_value
    }

    /// The length of one pass in ticks, which is never zero.
    pub fn duration(&self) -> (r: u64)
        ensures
            r == self@.duration,
            r > 0,
    {
        proof {
            use_type_invariant(self);
        }
        self.duration
    }

    /// The number of keyframes on the timeline.
    pub fn keyframe_count(&self) -> (r: usize)
        ensures
            r == self@.keyframes.len(),
    {
        self.keyframes.len()
    }

    /// The value of the timeline at `progress`, which is first limited to the
    /// unit interval. The transition itself does not change.
    pub fn value_at(&self, progress: i64) -> (r: T)
        requires
            self@.keyframes.len() > 0,
        ensures
            r == sample(self@.keyframes, clamp_unit_spec(progress as int)),
    {
        interpolate_at(&self.keyframes, clamp_unit(progress))
    }

    /// Advances a running transition to `now` and returns the cached value;
    /// in any other state nothing changes.
    ///
    /// When a pass has been played, the transition either ends, at progress
    /// one whole, or begins the next pass at progress zero with `now` as the
    /// new reference instant: what went by beyond the end of the pass is not
    /// carried over.
    pub fn update(&mut self, now: u64) -> (r: Option<T>)
        requires
            old(self)@.state == TransitionState::Running ==> old(self)@.keyframes.len() > 0,
        ensures
            final(self)@ == old(self)@.tick(now),
            r == final(self)@.current_value,
    {
        proof {
            use_type_invariant(&*self);
        }
        if self.state != TransitionState::Running {
            return self.current_value;
        }
        let start: u64 = match self.start_time {
            Some(s) => s,
            None => now,
        };
        let elapsed: u64 = if now >= start {
            now - start
        } else {
            0
        };
        let mut progress: i64;
        if elapsed >= self.duration {
            let last_pass: bool = match self.loop_count {
                Some(budget) => budget == 0 || self.current_loop >= budget - 1,
                None => false,
            };
            if last_pass {
                self.state = TransitionState::Complete;
                progress = UNIT;
            } else {
                self.current_loop = if self.current_loop < usize::MAX {
                    self.current_loop + 1
                } else {
                    0
                };
                self.start_time = Some(now);
                progress = 0;
            }
        } else {
            let scaled: u128 = (elapsed as u128) * (UNIT as u128);
            let duration: u128 = self.duration as u128;
            assert(0 <= scaled / duration < 1_000_000) by (nonlinear_arith)
                requires
                    scaled == elapsed * 1_000_000,
                    0 <= elapsed < duration,
            ;
            progress = (scaled / duration) as i64;
        }
        if self.reverse_on_complete && self.current_loop % 2 == 1 {
            progress = UNIT - progress;
        }
        let value: T = interpolate_at(&self.keyframes, progress);
        self.current_value = Some(value);
        proof {
            assert(self@.keyframes =~= old(self)@.keyframes);
        }
        self.current_value
    }
}

/// A transition that plays forever never completes: an update leaves a
/// running one running, and any other as it is.
pub proof fn endless_never_completes<T: Interpolate + Copy>(v: TransitionView<T>, now: u64)
    requires
        v.loop_count is None,
        v.state != TransitionState::Complete,
    ensures
        v.tick(now).state != TransitionState::Complete,
        v.tick(now).state == v.state,
        v.tick(now).loop_count is None,
{
}

/// An update completes a transition exactly when it finds the last pass of a
/// finite budget played.
pub proof fn completes_on_last_pass<T: Interpolate + Copy>(v: TransitionView<T>, now: u64)
    requires
        v.state != TransitionState::Complete,
    ensures
        v.tick(now).state == TransitionState::Complete <==> {
            &&& v.state == TransitionState::Running
            &&& v.elapsed(now) >= v.duration
            &&& v.loop_count is Some
            &&& v.current_loop + 1 >= v.loop_count.unwrap()
        },
{
}

/// A transition of two passes completes exactly when two whole durations
/// have been seen to go by, and not before.
///
/// Started at `begin` and updated at `first` and then at `second`: the first
/// update never completes it. If the first update finds a pass played, the
/// second completes it exactly if a further duration has gone by since the
/// first; if not, the second does not complete it either.
pub proof fn two_passes_complete<T: Interpolate + Copy>(
    v: TransitionView<T>,
    begin: u64,
    first: u64,
    second: u64,
)
    requires
        v.duration > 0,
        v.loop_count == Some(2usize),
        begin <= first <= second,
    ensures
        v.started(begin).tick(first).state == TransitionState::Running,
        first - begin >= v.duration ==> (v.started(begin).tick(first).tick(second).state
            == TransitionState::Complete <==> second - first >= v.duration),
        first - begin < v.duration ==> v.started(begin).tick(first).tick(second).state
            == TransitionState::Running,
{
}

/// A reset leads to idle from every state, and leaves no value.
pub proof fn reset_is_idle<T: Interpolate + Copy>(v: TransitionView<T>)
    ensures
        v.rewound().state == TransitionState::Idle,
        v.rewound().current_value is None,
        v.rewound().start_time is None,
        v.rewound().current_loop == 0,
{
}

} // verus!
