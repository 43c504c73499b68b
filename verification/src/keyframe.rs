//! Keyframes and the lookup of a value on a timeline of keyframes.

use vstd::prelude::*;
use crate::easing::{stays_within_unit, Easing};
use crate::fixed::{blend_stays_between, clamp_unit, clamp_unit_spec, UNIT};
use crate::interpolate::{Interpolate, Scalar};

verus! {

/// A fixed point on a timeline: an offset within the unit interval, the value
/// there, and the easing of the segment that leaves it.
#[derive(Debug, Clone, Copy)]
pub struct Keyframe<T> {
    /// Position on the timeline, in millionths of the whole duration.
    pub offset: i64,
    /// Value at this keyframe.
    pub value: T,
    /// Easing of the segment from this keyframe to the next.
    pub easing: Easing,
}

impl<T> Keyframe<T> {
    /// A keyframe at `offset`, limited to the unit interval, that leaves with
    /// ease-in-out.
    pub fn new(offset: i64, value: T) -> (r: Self)
        ensures
            r.offset == clamp_unit_spec(offset as int),
            r.value == value,
            r.easing == Easing::EaseInOut,
    {
        Keyframe { offset: clamp_unit(offset), value, easing: Easing::EaseInOut }
    }

    /// The same keyframe with another easing.
    pub fn with_easing(self, easing: Easing) -> (r: Self)
        ensures
            r.offset == self.offset,
            r.value == self.value,
            r.easing == easing,
    {
        Keyframe { offset: self.offset, value: self.value, easing }
    }
}

/// The first index at or after `from` whose keyframe lies at or beyond
/// progress `p`; the length of the timeline if there is none.
pub open spec fn first_reaching<T>(timeline: Seq<Keyframe<T>>, p: int, from: int) -> int
    decreases timeline.len() - from,
{
    if from < 0 || from >= timeline.len() {
        timeline.len() as int
    } else if timeline[from].offset >= p {
        from
    } else {
        first_reaching(timeline, p, from + 1)
    }
}

/// Progress within the segment from offset `start` to offset `end`, in
/// millionths of the segment. A segment without width has progress zero.
pub open spec fn local_progress(start: int, end: int, p: int) -> int {
    if end - start > 0 {
        (p - start) * UNIT / (end - start)
    } else {
        0
    }
}

/// The value of a timeline at progress `p`.
///
/// A single keyframe gives its value everywhere. Otherwise let `e` be the
/// first keyframe at or beyond `p`. Where `p` lies beyond every keyframe the
/// value is that of the last one; where `e` is the very first keyframe, or
/// lies exactly at `p`, the value is that of `e`. Everywhere else the value
/// is the blend of the keyframe before `e` and `e` itself, at the local
/// progress eased by the earlier keyframe's curve.
pub open spec fn sample<T: Interpolate>(timeline: Seq<Keyframe<T>>, p: int) -> T
    recommends
        timeline.len() > 0,
{
    let e = first_reaching(timeline, p, 0);
    if timeline.len() == 1 {
        timeline[0].value
    } else if e >= timeline.len() {
        timeline.last().value
    } else if e == 0 || timeline[e].offset == p {
        timeline[e].value
    } else {
        let start = timeline[e - 1];
        let end = timeline[e];
        start.value.blend_spec(
            &end.value,
            start.easing.apply_spec(local_progress(start.offset as int, end.offset as int, p)),
        )
    }
}

/// What [`first_reaching`] finds: every keyframe before it lies short of `p`,
/// and the one it names, if any, does not.
pub proof fn first_reaching_is_first<T>(timeline: Seq<Keyframe<T>>, p: int, from: int)
    requires
        0 <= from <= timeline.len(),
    ensures
        from <= first_reaching(timeline, p, from) <= timeline.len(),
        forall|i: int|
            from <= i < first_reaching(timeline, p, from) ==> (#[trigger] timeline[i]).offset < p,
        first_reaching(timeline, p, from) < timeline.len() ==> timeline[first_reaching(
            timeline,
            p,
            from,
        )].offset >= p,
    decreases timeline.len() - from,
{
    if from < timeline.len() && timeline[from].offset < p {
        first_reaching_is_first(timeline, p, from + 1);
    }
}

/// Finds the first keyframe at or beyond `p`.
pub fn find_first_reaching<T>(timeline: &Vec<Keyframe<T>>, p: i64) -> (e: usize)
    ensures
        e == first_reaching(timeline@, p as int, 0),
        e <= timeline.len(),
{
    let mut i: usize = 0;
    while i < timeline.len()
        invariant
            0 <= i <= timeline.len(),
            first_reaching(timeline@, p as int, 0) == first_reaching(timeline@, p as int, i as int),
        decreases timeline.len() - i,
    {
        if timeline[i].offset >= p {
            return i;
        }
        i = i + 1;
    }
    i
}

/// Progress within a segment that holds `p` strictly inside.
pub fn segment_progress(start: i64, end: i64, p: i64) -> (r: i64)
    requires
        start < p < end,
    ensures
        r == local_progress(start as int, end as int, p as int),
        0 <= r < UNIT,
{
    let width: i128 = (end as i128) - (start as i128);
    let into: i128 = (p as i128) - (start as i128);
    assert(0 <= (into * 1_000_000) / (width as int) < 1_000_000) by (nonlinear_arith)
        requires
            0 < into < width,
    ;
    (into * (UNIT as i128) / width) as i64
}

/// Looks up the value of a timeline at progress `p`.
pub fn interpolate_at<T: Interpolate + Copy>(timeline: &Vec<Keyframe<T>>, p: i64) -> (r: T)
    requires
        timeline.len() > 0,
    ensures
        r == sample(timeline@, p as int),
{
    if timeline.len() == 1 {
        return timeline[0].value;
    }
    let e: usize = find_first_reaching(timeline, p);
    proof {
        first_reaching_is_first(timeline@, p as int, 0);
    }
    if e >= timeline.len() {
        return timeline[timeline.len() - 1].value;
    }
    if e == 0 || timeline[e].offset == p {
        return timeline[e].value;
    }
    let start: Keyframe<T> = timeline[e - 1];
    let end: Keyframe<T> = timeline[e];
    let local: i64 = segment_progress(start.offset, end.offset, p);
    let eased: i64 = start.easing.apply(local);
    start.value.lerp(&end.value, eased)
}

/// A timeline of one keyframe has that keyframe's value at every progress.
pub proof fn single_keyframe_is_constant<T: Interpolate>(timeline: Seq<Keyframe<T>>, p: int)
    requires
        timeline.len() == 1,
    ensures
        sample(timeline, p) == timeline[0].value,
{
}

/// Whether the offsets of a timeline strictly grow.
pub open spec fn strictly_ordered<T>(timeline: Seq<Keyframe<T>>) -> bool {
    forall|i: int, j: int|
        0 <= i < j < timeline.len() ==> (#[trigger] timeline[i]).offset < (
        #[trigger] timeline[j]).offset
}

/// On a timeline whose offsets strictly grow, the value at the offset of a
/// keyframe is the value of that keyframe.
pub proof fn sample_at_keyframe<T: Interpolate>(timeline: Seq<Keyframe<T>>, k: int)
    requires
        strictly_ordered(timeline),
        0 <= k < timeline.len(),
    ensures
        sample(timeline, timeline[k].offset as int) == timeline[k].value,
{
    let p = timeline[k].offset as int;
    first_reaching_is_first(timeline, p, 0);
    let e = first_reaching(timeline, p, 0);
    if e < k {
        assert(timeline[e].offset < timeline[k].offset);
    } else if e > k {
        assert(timeline[k].offset < p);
    }
}

/// Before the first keyframe the value is that of the first keyframe, and
/// beyond the last one it is that of the last.
pub proof fn sample_outside<T: Interpolate>(timeline: Seq<Keyframe<T>>, p: int)
    requires
        timeline.len() > 0,
    ensures
        (forall|i: int| 0 <= i < timeline.len() ==> p <= (#[trigger] timeline[i]).offset)
            ==> sample(timeline, p) == timeline[0].value,
        (forall|i: int| 0 <= i < timeline.len() ==> p > (#[trigger] timeline[i]).offset)
            ==> sample(timeline, p) == timeline.last().value,
{
    first_reaching_is_first(timeline, p, 0);
    let e = first_reaching(timeline, p, 0);
    if forall|i: int| 0 <= i < timeline.len() ==> p <= (#[trigger] timeline[i]).offset {
        assert(timeline[0].offset >= p);
        assert(e == 0);
    }
    if forall|i: int| 0 <= i < timeline.len() ==> p > (#[trigger] timeline[i]).offset {
        if e < timeline.len() {
            assert(timeline[e].offset < p);
        }
    }
}

/// Where a value is blended, progress lies strictly inside the segment:
/// the segment has a width, and the local progress is a true quotient
/// within the unit interval.
pub proof fn blended_segment_has_width<T>(timeline: Seq<Keyframe<T>>, p: int)
    requires
        0 < first_reaching(timeline, p, 0) < timeline.len(),
        timeline[first_reaching(timeline, p, 0)].offset != p,
    ensures
        ({
            let e = first_reaching(timeline, p, 0);
            let start = timeline[e - 1].offset as int;
            let end = timeline[e].offset as int;
            &&& start < p < end
            &&& local_progress(start, end, p) == (p - start) * UNIT / (end - start)
            &&& 0 <= local_progress(start, end, p) < UNIT
        }),
{
    first_reaching_is_first(timeline, p, 0);
    let e = first_reaching(timeline, p, 0);
    let start = timeline[e - 1].offset as int;
    let end = timeline[e].offset as int;
    assert(start < p);
    assert(0 <= (p - start) * 1_000_000 / (end - start) < 1_000_000) by (nonlinear_arith)
        requires
            0 < p - start < end - start,
    ;
}

/// Strictly between two keyframes, the value of a scalar timeline lies
/// between the values of the two, unless the segment is elastic.
pub proof fn scalar_between_neighbours(timeline: Seq<Keyframe<Scalar>>, p: int)
    requires
        timeline.len() >= 2,
        0 < first_reaching(timeline, p, 0) < timeline.len(),
        timeline[first_reaching(timeline, p, 0)].offset != p,
        timeline[first_reaching(timeline, p, 0) - 1].easing != Easing::Elastic,
    ensures
        ({
            let e = first_reaching(timeline, p, 0);
            let from = timeline[e - 1].value.millionths;
            let to = timeline[e].value.millionths;
            let at = sample(timeline, p).millionths;
            (from <= at <= to) || (to <= at <= from)
        }),
{
    let e = first_reaching(timeline, p, 0);
    let start = timeline[e - 1];
    let end = timeline[e];
    let eased = start.easing.apply_spec(
        local_progress(start.offset as int, end.offset as int, p),
    );
    stays_within_unit(start.easing, local_progress(start.offset as int, end.offset as int, p));
    blend_stays_between(start.value.millionths as int, end.value.millionths as int, eased);
}

} // verus!
