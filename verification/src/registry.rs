//! A registry of named transitions of differing value types, updated
//! together.

use vstd::prelude::*;
use ratatui::style::Color;
use crate::interpolate::Scalar;
use crate::transition::{Transition, TransitionState, TransitionView};

verus! {

/// A transition of any of the built-in value types.
pub enum AnyTransition {
    Scalar(Transition<Scalar>),
    Offset(Transition<i16>),
    Cell(Transition<u16>),
    Color(Transition<Color>),
    Position(Transition<(u16, u16)>),
}

/// What an [`AnyTransition`] holds, as plain mathematical values.
pub enum AnyView {
    Scalar(TransitionView<Scalar>),
    Offset(TransitionView<i16>),
    Cell(TransitionView<u16>),
    Color(TransitionView<Color>),
    Position(TransitionView<(u16, u16)>),
}

impl AnyView {
    /// The state of the transition.
    pub open spec fn state(self) -> TransitionState {
        match self {
            AnyView::Scalar(v) => v.state,
            AnyView::Offset(v) => v.state,
            AnyView::Cell(v) => v.state,
            AnyView::Color(v) => v.state,
            AnyView::Position(v) => v.state,
        }
    }

    /// The budget of passes; `None` plays forever.
    pub open spec fn loop_count(self) -> Option<usize> {
        match self {
            AnyView::Scalar(v) => v.loop_count,
            AnyView::Offset(v) => v.loop_count,
            AnyView::Cell(v) => v.loop_count,
            AnyView::Color(v) => v.loop_count,
            AnyView::Position(v) => v.loop_count,
        }
    }

    /// Whether the timeline holds a keyframe.
    pub open spec fn has_keyframes(self) -> bool {
        match self {
            AnyView::Scalar(v) => v.keyframes.len() > 0,
            AnyView::Offset(v) => v.keyframes.len() > 0,
            AnyView::Cell(v) => v.keyframes.len() > 0,
            AnyView::Color(v) => v.keyframes.len() > 0,
            AnyView::Position(v) => v.keyframes.len() > 0,
        }
    }

    /// The transition once started at `now`.
    pub open spec fn started(self, now: u64) -> AnyView {
        match self {
            AnyView::Scalar(v) => AnyView::Scalar(v.started(now)),
            AnyView::Offset(v) => AnyView::Offset(v.started(now)),
            AnyView::Cell(v) => AnyView::Cell(v.started(now)),
            AnyView::Color(v) => AnyView::Color(v.started(now)),
            AnyView::Position(v) => AnyView::Position(v.started(now)),
        }
    }

    /// The transition after an update at `now`.
    pub open spec fn tick(self, now: u64) -> AnyView {
        match self {
            AnyView::Scalar(v) => AnyView::Scalar(v.tick(now)),
            AnyView::Offset(v) => AnyView::Offset(v.tick(now)),
            AnyView::Cell(v) => AnyView::Cell(v.tick(now)),
            AnyView::Color(v) => AnyView::Color(v.tick(now)),
            AnyView::Position(v) => AnyView::Position(v.tick(now)),
        }
    }

    /// The transition after a reset.
    pub open spec fn rewound(self) -> AnyView {
        match self {
            AnyView::Scalar(v) => AnyView::Scalar(v.rewound()),
            AnyView::Offset(v) => AnyView::Offset(v.rewound()),
            AnyView::Cell(v) => AnyView::Cell(v.rewound()),
            AnyView::Color(v) => AnyView::Color(v.rewound()),
            AnyView::Position(v) => AnyView::Position(v.rewound()),
        }
    }
}

impl View for AnyTransition {
    type V = AnyView;

    open spec fn view(&self) -> AnyView {
        match self {
            AnyTransition::Scalar(t) => AnyView::Scalar(t@),
            AnyTransition::Offset(t) => AnyView::Offset(t@),
            AnyTransition::Cell(t) => AnyView::Cell(t@),
            AnyTransition::Color(t) => AnyView::Color(t@),
            AnyTransition::Position(t) => AnyView::Position(t@),
        }
    }
}

impl AnyTransition {
    /// Starts the transition at `now`.
    pub fn start(&mut self, now: u64)
        ensures
            final(self)@ == old(self)@.started(now),
    {
        match self {
            AnyTransition::Scalar(t) => t.start(now),
            AnyTransition::Offset(t) => t.start(now),
            AnyTransition::Cell(t) => t.start(now),
            AnyTransition::Color(t) => t.start(now),
            AnyTransition::Position(t) => t.start(now),
        }
    }

    /// Advances the transition to `now` and says whether it has not
    /// completed.
    pub fn update(&mut self, now: u64) -> (live: bool)
        requires
            old(self)@.state() == TransitionState::Running ==> old(self)@.has_keyframes(),
        ensures
            final(self)@ == old(self)@.tick(now),
            live == (final(self)@.state() != TransitionState::Complete),
    {
        match self {
            AnyTransition::Scalar(t) => {
                t.update(now);
                t.state() != TransitionState::Complete
            },
            AnyTransition::Offset(t) => {
                t.update(now);
                t.state() != TransitionState::Complete
            },
            AnyTransition::Cell(t) => {
                t.update(now);
                t.state() != TransitionState::Complete
            },
            AnyTransition::Color(t) => {
                t.update(now);
                t.state() != TransitionState::Complete
            },
            AnyTransition::Position(t) => {
                t.update(now);
                t.state() != TransitionState::Complete
            },
        }
    }

    /// Resets the transition.
    pub fn reset(&mut self)
        ensures
            final(self)@ == old(self)@.rewound(),
    {
        match self {
            AnyTransition::Scalar(t) => t.reset(),
            AnyTransition::Offset(t) => t.reset(),
            AnyTransition::Cell(t) => t.reset(),
            AnyTransition::Color(t) => t.reset(),
            AnyTransition::Position(t) => t.reset(),
        }
    }

    /// The current state.
    pub fn state(&self) -> (r: TransitionState)
        ensures
            r == self@.state(),
    {
        match self {
            AnyTransition::Scalar(t) => t.state(),
            AnyTransition::Offset(t) => t.state(),
            AnyTransition::Cell(t) => t.state(),
            AnyTransition::Color(t) => t.state(),
            AnyTransition::Position(t) => t.state(),
        }
    }

    /// Whether the timeline holds a keyframe.
    pub fn has_keyframes(&self) -> (r: bool)
        ensures
            r == self@.has_keyframes(),
    {
        match self {
            AnyTransition::Scalar(t) => t.keyframe_count() > 0,
            AnyTransition::Offset(t) => t.keyframe_count() > 0,
            AnyTransition::Cell(t) => t.keyframe_count() > 0,
            AnyTransition::Color(t) => t.keyframe_count() > 0,
            AnyTransition::Position(t) => t.keyframe_count() > 0,
        }
    }
}

/// The entries of a registry after an update of all of them at `now`: each
/// entry is advanced, and those that have completed are gone.
pub open spec fn updated(entries: Map<Seq<char>, AnyView>, now: u64) -> Map<Seq<char>, AnyView> {
    entries.map_values(|v: AnyView| v.tick(now)).remove_keys(
        Set::new(
            |k: Seq<char>|
                entries.contains_key(k) && entries[k].tick(now).state()
                    == TransitionState::Complete,
        ),
    )
}

/// An update of all entries keeps exactly the entries that have not
/// completed, each advanced to `now`.
pub proof fn update_keeps_the_unfinished(entries: Map<Seq<char>, AnyView>, now: u64, name: Seq<char>)
    ensures
        updated(entries, now).contains_key(name) <==> entries.contains_key(name)
            && entries[name].tick(now).state() != TransitionState::Complete,
        updated(entries, now).contains_key(name) ==> updated(entries, now)[name]
            == entries[name].tick(now),
{
}

/// An entry that plays forever and has not completed is never dropped by an
/// update of all entries.
pub proof fn endless_entry_stays(entries: Map<Seq<char>, AnyView>, now: u64, name: Seq<char>)
    requires
        entries.contains_key(name),
        entries[name].loop_count() is None,
        entries[name].state() != TransitionState::Complete,
    ensures
        updated(entries, now).contains_key(name),
        updated(entries, now)[name].loop_count() is None,
        updated(entries, now)[name].state() == entries[name].state(),
{
}

/// A collection of running transitions, each under a name of its own.
pub struct TransitionManager {
    transitions: Vec<(String, AnyTransition)>,
}

/// Whether some entry carries `name`.
spec fn named(entries: Seq<(String, AnyTransition)>, name: Seq<char>) -> bool {
    exists|i: int| 0 <= i < entries.len() && (#[trigger] entries[i]).0@ == name
}

/// The place of an entry that carries `name`.
spec fn place(entries: Seq<(String, AnyTransition)>, name: Seq<char>) -> int {
    choose|i: int| 0 <= i < entries.len() && (#[trigger] entries[i]).0@ == name
}

/// Whether no two entries carry the same name.
spec fn distinct(entries: Seq<(String, AnyTransition)>) -> bool {
    forall|i: int, j: int|
        0 <= i < j < entries.len() ==> (#[trigger] entries[i]).0@ != (#[trigger] entries[j]).0@
}

/// Whether every entry has a keyframe.
spec fn all_ready(entries: Seq<(String, AnyTransition)>) -> bool {
    forall|i: int| 0 <= i < entries.len() ==> (#[trigger] entries[i]).1@.has_keyframes()
}

/// The entries as a map from name to transition.
spec fn as_map(entries: Seq<(String, AnyTransition)>) -> Map<Seq<char>, AnyView> {
    Map::new(|k: Seq<char>| named(entries, k), |k: Seq<char>| entries[place(entries, k)].1@)
}

/// Under distinct names, the map holds each entry under its name.
proof fn map_holds_entries(entries: Seq<(String, AnyTransition)>)
    requires
        distinct(entries),
    ensures
        forall|i: int|
            0 <= i < entries.len() ==> as_map(entries).contains_key((#[trigger] entries[i]).0@)
                && as_map(entries)[entries[i].0@] == entries[i].1@,
        forall|k: Seq<char>| #[trigger]
            as_map(entries).contains_key(k) ==> 0 <= place(entries, k) < entries.len()
                && entries[place(entries, k)].0@ == k,
{
    assert forall|i: int| 0 <= i < entries.len() implies as_map(entries).contains_key(
        (#[trigger] entries[i]).0@,
    ) && as_map(entries)[entries[i].0@] == entries[i].1@ by {
        let k = entries[i].0@;
        assert(named(entries, k));
        let j = place(entries, k);
        assert(0 <= j < entries.len() && entries[j].0@ == k);
        if j < i {
            assert(entries[j].0@ != entries[i].0@);
        } else if i < j {
            assert(entries[i].0@ != entries[j].0@);
        }
    }
}

/// A map that holds each entry under its name, and nothing else, is the map
/// of the entries.
proof fn map_is(entries: Seq<(String, AnyTransition)>, target: Map<Seq<char>, AnyView>)
    requires
        distinct(entries),
        forall|i: int|
            0 <= i < entries.len() ==> target.contains_key((#[trigger] entries[i]).0@)
                && target[entries[i].0@] == entries[i].1@,
        forall|k: Seq<char>| #[trigger] target.contains_key(k) ==> named(entries, k),
    ensures
        as_map(entries) == target,
{
    map_holds_entries(entries);
    assert(as_map(entries) =~= target) by {
        assert forall|k: Seq<char>| as_map(entries).contains_key(k) implies target.contains_key(
            k,
        ) && as_map(entries)[k] == target[k] by {
            let i = place(entries, k);
            assert(entries[i].0@ == k);
        }
    }
}

/// The place of the entry that carries `name`, if there is one.
fn find(entries: &Vec<(String, AnyTransition)>, name: &String) -> (r: Option<usize>)
    ensures
        match r {
            Some(i) => i < entries.len() && entries@[i as int].0@ == name@,
            None => !named(entries@, name@),
        },
{
    let mut i: usize = 0;
    while i < entries.len()
        invariant
            0 <= i <= entries.len(),
            forall|j: int| 0 <= j < i ==> (#[trigger] entries@[j]).0@ != name@,
        decreases entries.len() - i,
    {
        if entries[i].0 == *name {
            return Some(i);
        }
        i = i + 1;
    }
    None
}

impl View for TransitionManager {
    type V = Map<Seq<char>, AnyView>;

    closed spec fn view(&self) -> Map<Seq<char>, AnyView> {
        as_map(self.transitions@)
    }
}

impl TransitionManager {
    #[verifier::type_invariant]
    spec fn inv(self) -> bool {
        distinct(self.transitions@) && all_ready(self.transitions@)
    }

    /// A registry without entries.
    pub fn new() -> (r: Self)
        ensures
            r@ == Map::<Seq<char>, AnyView>::empty(),
    {
        let r = TransitionManager { transitions: Vec::new() };
        proof {
            assert(r@ =~= Map::<Seq<char>, AnyView>::empty());
        }
        r
    }

    /// Drops every entry.
    pub fn clear(&mut self)
        ensures
            final(self)@ == Map::<Seq<char>, AnyView>::empty(),
    {
        self.transitions = Vec::new();
        proof {
            assert(self@ =~= Map::<Seq<char>, AnyView>::empty());
        }
    }

    /// Starts `transition` at `now` and files it under `name`, in place of
    /// any entry that carried that name.
    pub fn add(&mut self, name: &str, transition: AnyTransition, now: u64)
        requires
            transition@.has_keyframes(),
        ensures
            final(self)@ == old(self)@.insert(name@, transition@.started(now)),
    {
        proof {
            use_type_invariant(&*self);
        }
        let mut transition = transition;
        transition.start(now);
        let owned: String = name.to_owned();
        let mut entries: Vec<(String, AnyTransition)> = Vec::new();
        std::mem::swap(&mut self.transitions, &mut entries);
        let ghost before = entries@;
        let ghost filed = transition@;
        let found: Option<usize> = find(&entries, &owned);
        match found {
            Some(i) => {
                entries.set(i, (owned, transition));
            },
            None => {
                entries.push((owned, transition));
            },
        }
        proof {
            let after = entries@;
            let target = as_map(before).insert(name@, filed);
            map_holds_entries(before);
            assert forall|j: int| 0 <= j < after.len() implies (#[trigger] after[j]).0@ == (
            if j < before.len() {
                before[j].0@
            } else {
                name@
            }) by {}
            assert(distinct(after)) by {
                assert forall|a: int, b: int| 0 <= a < b < after.len() implies (
                #[trigger] after[a]).0@ != (#[trigger] after[b]).0@ by {
                    if b < before.len() {
                        assert(before[a].0@ != before[b].0@);
                    } else {
                        assert(!named(before, name@));
                        assert(before[a].0@ != name@);
                    }
                }
            }
            assert(all_ready(after)) by {
                assert forall|j: int| 0 <= j < after.len() implies (
                #[trigger] after[j]).1@.has_keyframes() by {
                    if after[j].0@ != name@ {
                        assert(before[j].1@.has_keyframes());
                    }
                }
            }
            assert forall|j: int| 0 <= j < after.len() implies target.contains_key(
                (#[trigger] after[j]).0@,
            ) && target[after[j].0@] == after[j].1@ by {
                if after[j].0@ != name@ {
                    assert(after[j] == before[j]);
                } else if j < before.len() && found is Some {
                    if j != found.unwrap() as int {
                        let i = found.unwrap() as int;
                        if i < j {
                            assert(before[i].0@ != before[j].0@);
                        } else {
                            assert(before[j].0@ != before[i].0@);
                        }
                    }
                } else if j < before.len() {
                    assert(named(before, name@));
                }
            }
            assert forall|k: Seq<char>| #[trigger] target.contains_key(k) implies named(
                after,
                k,
            ) by {
                if k == name@ {
                    if found is Some {
                        assert(after[found.unwrap() as int].0@ == k);
                    } else {
                        assert(after[after.len() - 1].0@ == k);
                    }
                } else {
                    let j = place(before, k);
                    assert(after[j].0@ == k);
                }
            }
            map_is(after, target);
        }
        self.transitions = entries;
    }

    /// Resets the entry under `name`; without such an entry nothing changes.
    pub fn reset(&mut self, name: &str)
        ensures
            final(self)@ == if old(self)@.contains_key(name@) {
                old(self)@.insert(name@, old(self)@[name@].rewound())
            } else {
                old(self)@
            },
    {
        proof {
            use_type_invariant(&*self);
        }
        let owned: String = name.to_owned();
        let mut entries: Vec<(String, AnyTransition)> = Vec::new();
        std::mem::swap(&mut self.transitions, &mut entries);
        let ghost before = entries@;
        proof {
            map_holds_entries(before);
        }
        let found: Option<usize> = find(&entries, &owned);
        match found {
            Some(i) => {
                let pair = &mut entries[i];
                pair.1.reset();
                proof {
                    let after = entries@;
                    let target = as_map(before).insert(name@, as_map(before)[name@].rewound());
                    assert(after[i as int].0@ == name@);
                    assert(after[i as int].1@ == before[i as int].1@.rewound());
                    assert forall|j: int| 0 <= j < after.len() && j != i implies #[trigger] after[j]
                        == before[j] by {}
                    assert(distinct(after)) by {
                        assert forall|a: int, b: int| 0 <= a < b < after.len() implies (
                        #[trigger] after[a]).0@ != (#[trigger] after[b]).0@ by {
                            assert(before[a].0@ != before[b].0@);
                        }
                    }
                    assert(all_ready(after)) by {
                        assert forall|j: int| 0 <= j < after.len() implies (
                        #[trigger] after[j]).1@.has_keyframes() by {
                            assert(before[j].1@.has_keyframes());
                        }
                    }
                    assert forall|j: int| 0 <= j < after.len() implies target.contains_key(
                        (#[trigger] after[j]).0@,
                    ) && target[after[j].0@] == after[j].1@ by {
                        if j != i {
                            assert(after[j] == before[j]);
                            if (i as int) < j {
                                assert(before[i as int].0@ != before[j].0@);
                            } else {
                                assert(before[j].0@ != before[i as int].0@);
                            }
                        }
                    }
                    assert forall|k: Seq<char>| #[trigger] target.contains_key(k) implies named(
                        after,
                        k,
                    ) by {
                        if k == name@ {
                            assert(after[i as int].0@ == k);
                        } else {
                            let j = place(before, k);
                            assert(after[j].0@ == k);
                        }
                    }
                    map_is(after, target);
                }
            },
            None => {},
        }
        self.transitions = entries;
    }

    /// Advances every entry to `now`, then drops the entries that have
    /// completed. An entry that plays forever is never dropped here.
    pub fn update_all(&mut self, now: u64)
        ensures
            final(self)@ == updated(old(self)@, now),
    {
        proof {
            use_type_invariant(&*self);
        }
        let mut pending: Vec<(String, AnyTransition)> = Vec::new();
        std::mem::swap(&mut self.transitions, &mut pending);
        let ghost before = pending@;
        let ghost mut source: Seq<int> = Seq::empty();
        let mut kept: Vec<(String, AnyTransition)> = Vec::new();
        while pending.len() > 0
            invariant
                distinct(before),
                all_ready(before),
                pending.len() <= before.len(),
                forall|j: int| 0 <= j < pending.len() ==> #[trigger] pending@[j] == before[j],
                source.len() == kept.len(),
                forall|m: int|
                    0 <= m < kept.len() ==> {
                        &&& pending.len() <= #[trigger] source[m] < before.len()
                        &&& kept@[m].0@ == before[source[m]].0@
                        &&& kept@[m].1@ == before[source[m]].1@.tick(now)
                        &&& kept@[m].1@.state() != TransitionState::Complete
                    },
                forall|m: int, n: int|
                    0 <= m < n < kept.len() ==> #[trigger] source[m] > #[trigger] source[n],
                forall|j: int|
                    pending.len() <= j < before.len() && (#[trigger] before[j]).1@.tick(now).state()
                        != TransitionState::Complete ==> exists|m: int|
                        0 <= m < kept.len() && #[trigger] source[m] == j,
            decreases pending.len(),
        {
            let ghost at = pending.len() - 1;
            let ghost carried = source;
            let popped: Option<(String, AnyTransition)> = pending.pop();
            let (name, mut transition) = popped.unwrap();
            assert(before[at].1@.has_keyframes());
            let live: bool = transition.update(now);
            if live {
                kept.push((name, transition));
                proof {
                    source = source.push(at);
                    assert forall|j: int|
                        pending.len() <= j < before.len() && (#[trigger] before[j]).1@.tick(
                            now,
                        ).state() != TransitionState::Complete implies exists|m: int|
                        0 <= m < kept.len() && #[trigger] source[m] == j by {
                        if j == at {
                            assert(source[kept.len() - 1] == j);
                        } else {
                            let m = choose|m: int| 0 <= m < carried.len() && #[trigger] carried[m] == j;
                            assert(source[m] == j);
                        }
                    }
                }
            }
        }
        proof {
            let after = kept@;
            let target = updated(as_map(before), now);
            map_holds_entries(before);
            assert(distinct(after)) by {
                assert forall|a: int, b: int| 0 <= a < b < after.len() implies (
                #[trigger] after[a]).0@ != (#[trigger] after[b]).0@ by {
                    assert(source[a] > source[b]);
                    assert(before[source[b]].0@ != before[source[a]].0@);
                }
            }
            assert(all_ready(after)) by {
                assert forall|m: int| 0 <= m < after.len() implies (
                #[trigger] after[m]).1@.has_keyframes() by {
                    assert(before[source[m]].1@.has_keyframes());
                }
            }
            assert forall|m: int| 0 <= m < after.len() implies target.contains_key(
                (#[trigger] after[m]).0@,
            ) && target[after[m].0@] == after[m].1@ by {
                let j = source[m];
                assert(as_map(before).contains_key(before[j].0@));
                assert(as_map(before)[before[j].0@] == before[j].1@);
            }
            assert forall|k: Seq<char>| #[trigger] target.contains_key(k) implies named(
                after,
                k,
            ) by {
                let j = place(before, k);
                assert(as_map(before)[before[j].0@] == before[j].1@);
                assert(before[j].1@.tick(now).state() != TransitionState::Complete);
                let m = choose|m: int| 0 <= m < kept.len() && #[trigger] source[m] == j;
                assert(after[m].0@ == k);
            }
            map_is(after, target);
        }
        self.transitions = kept;
    }

    /// Whether an entry is filed under `name`.
    pub fn contains(&self, name: &str) -> (r: bool)
        ensures
            r == self@.contains_key(name@),
    {
        let owned: String = name.to_owned();
        find(&self.transitions, &owned).is_some()
    }

    /// The state of the entry under `name`, if there is one.
    pub fn state_of(&self, name: &str) -> (r: Option<TransitionState>)
        ensures
            r == if self@.contains_key(name@) {
                Some(self@[name@].state())
            } else {
                None
            },
    {
        proof {
            use_type_invariant(self);
            map_holds_entries(self.transitions@);
        }
        let owned: String = name.to_owned();
        match find(&self.transitions, &owned) {
            Some(i) => Some(self.transitions[i].1.state()),
            None => None,
        }
    }

    /// The number of entries.
    pub fn len(&self) -> (r: usize)
        ensures
            r == self@.len(),
            self@.dom().finite(),
    {
        proof {
            use_type_invariant(self);
            count_matches(self.transitions@);
        }
        self.transitions.len()
    }
}

/// Under distinct names the map has as many keys as there are entries.
proof fn count_matches(entries: Seq<(String, AnyTransition)>)
    requires
        distinct(entries),
    ensures
        as_map(entries).dom().finite(),
        as_map(entries).len() == entries.len(),
    decreases entries.len(),
{
    if entries.len() == 0 {
        assert(as_map(entries) =~= Map::<Seq<char>, AnyView>::empty());
    } else {
        let front = entries.drop_last();
        let last = entries.last();
        assert forall|i: int, j: int| 0 <= i < j < front.len() implies (#[trigger] front[i]).0@ != (
        #[trigger] front[j]).0@ by {
            assert(front[i] == entries[i] && front[j] == entries[j]);
        }
        count_matches(front);
        assert(!named(front, last.0@)) by {
            if named(front, last.0@) {
                let i = place(front, last.0@);
                assert(front[i] == entries[i]);
                assert(entries[i].0@ != entries[entries.len() - 1].0@);
            }
        }
        assert(as_map(entries).dom() =~= as_map(front).dom().insert(last.0@)) by {
            assert forall|k: Seq<char>| as_map(entries).dom().contains(k) implies as_map(
                front,
            ).dom().insert(last.0@).contains(k) by {
                let i = place(entries, k);
                if i < front.len() {
                    assert(front[i] == entries[i]);
                    assert(named(front, k));
                }
            }
            assert forall|k: Seq<char>|
                as_map(front).dom().insert(last.0@).contains(k) implies as_map(
                entries,
            ).dom().contains(k) by {
                if k == last.0@ {
                    assert(entries[entries.len() - 1].0@ == k);
                } else {
                    let i = place(front, k);
                    assert(front[i] == entries[i]);
                }
            }
        }
    }
}

} // verus!
