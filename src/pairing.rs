//! Pairing and merging of split controllers: grouping sources into halves,
//! the chord detector that decides what to do with them, and the per-event
//! remapper that lets one half act as a whole controller.

use vstd::prelude::*;
use crate::device::SourceCaps;
use crate::event::{Event, EV_KEY, BTN_TL, BTN_TR, BTN_TL2, BTN_TR2};
use crate::text::{has_substring, str_contains};

verus! {

/// The display name of two halves merged into one controller.
pub open spec fn combined_name() -> Seq<char> {
    "Nintendo Switch Both Joy-Cons"@
}

/// What an opened source reports about itself.
pub struct SourceInfo {
    pub name: String,
    pub path: String,
    pub caps: SourceCaps,
}

impl SourceInfo {
    /// The source made by merging this left half with a right half: the left
    /// half's path, the combined name and a full gamepad layout.
    pub fn combined(&self) -> (r: SourceInfo)
        ensures
            r.name@ == combined_name(),
            r.path@ == self.path@,
            r.caps == SourceCaps::FullX360,
    {
        SourceInfo {
            name: String::from_str("Nintendo Switch Both Joy-Cons"),
            path: self.path.clone(),
            caps: SourceCaps::FullX360,
        }
    }
}

/// Which part of a split controller a source is, if any.
#[derive(Clone, Copy, Debug, PartialEq, Eq, Structural)]
pub enum HalfKind {
    Left,
    Right,
    Whole,
}

pub open spec fn half_kind(name: Seq<char>) -> HalfKind {
    if has_substring(name, "Joy-Con"@) {
        if has_substring(name, "Left"@) {
            HalfKind::Left
        } else {
            HalfKind::Right
        }
    } else {
        HalfKind::Whole
    }
}

/// A half is a source named as a Joy-Con; it is the left one when its name
/// says `Left`.
pub fn classify_source(name: &str) -> (r: HalfKind)
    ensures
        r == half_kind(name@),
{
    if str_contains(name, "Joy-Con") {
        if str_contains(name, "Left") {
            HalfKind::Left
        } else {
            HalfKind::Right
        }
    } else {
        HalfKind::Whole
    }
}

/// Sources that are handled together, by index.
#[derive(Clone, Copy, Debug, PartialEq, Eq, Structural)]
pub enum PairingGroup {
    /// An ordinary source, bound as it is.
    Single(usize),
    /// A left and a right half (either may be missing) for the chord detector.
    Halves(Option<usize>, Option<usize>),
}

/// Groups formed from the first `n` sources, with the left and right halves
/// still waiting for a partner.
pub open spec fn plan_state(kinds: Seq<HalfKind>, n: int) -> (Seq<PairingGroup>, Option<usize>, Option<usize>)
    decreases n,
{
    if n <= 0 {
        (Seq::empty(), None, None)
    } else {
        let (g, l, r) = plan_state(kinds, n - 1);
        let i = (n - 1) as usize;
        let (g1, l1, r1) = match kinds[n - 1] {
            HalfKind::Whole => (g.push(PairingGroup::Single(i)), l, r),
            HalfKind::Left => (g, Some(i), r),
            HalfKind::Right => (g, l, Some(i)),
        };
        if l1 is Some && r1 is Some {
            (g1.push(PairingGroup::Halves(l1, r1)), None, None)
        } else {
            (g1, l1, r1)
        }
    }
}

/// Every ordinary source alone, in order; halves paired left with right as
/// they come (a later half of the same side replaces an unpaired earlier one);
/// an unpaired half last.
pub open spec fn pairing_plan(kinds: Seq<HalfKind>) -> Seq<PairingGroup> {
    let (g, l, r) = plan_state(kinds, kinds.len() as int);
    if l is Some || r is Some {
        g.push(PairingGroup::Halves(l, r))
    } else {
        g
    }
}

/// Groups the sources named `names` for binding.
pub fn plan_pairing(names: &Vec<String>) -> (r: Vec<PairingGroup>)
    ensures
        r@ == pairing_plan(names@.map_values(|n: String| half_kind(n@))),
{
    let ghost kinds = names@.map_values(|n: String| half_kind(n@));
    let mut groups: Vec<PairingGroup> = Vec::new();
    let mut left: Option<usize> = None;
    let mut right: Option<usize> = None;
    let mut i: usize = 0;
    while i < names.len()
        invariant
            i <= names@.len(),
            kinds == names@.map_values(|n: String| half_kind(n@)),
            (groups@, left, right) == plan_state(kinds, i as int),
        decreases names@.len() - i,
    {
        let k = classify_source(names[i].as_str());
        assert(k == kinds[i as int]);
        match k {
            HalfKind::Whole => groups.push(PairingGroup::Single(i)),
            HalfKind::Left => left = Some(i),
            HalfKind::Right => right = Some(i),
        }
        if left.is_some() && right.is_some() {
            groups.push(PairingGroup::Halves(left, right));
            left = None;
            right = None;
        }
        i += 1;
    }
    if left.is_some() || right.is_some() {
        groups.push(PairingGroup::Halves(left, right));
    }
    groups
}

/// The ordinary source to bind at once: the first one in the plan, if any.
pub open spec fn first_single(plan: Seq<PairingGroup>) -> Option<usize>
    decreases plan.len(),
{
    if plan.len() == 0 {
        None
    } else {
        match plan[0] {
            PairingGroup::Single(i) => Some(i),
            PairingGroup::Halves(_, _) => first_single(plan.drop_first()),
        }
    }
}

/// The ordinary source to bind at once: the first one in `plan`, if any.
pub fn immediate_choice(plan: &Vec<PairingGroup>) -> (r: Option<usize>)
    ensures
        r == first_single(plan@),
{
    let mut i: usize = 0;
    assert(plan@.subrange(0, plan@.len() as int) =~= plan@);
    while i < plan.len()
        invariant
            i <= plan@.len(),
            first_single(plan@) == first_single(plan@.subrange(i as int, plan@.len() as int)),
        decreases plan@.len() - i,
    {
        assert(plan@.subrange(i as int, plan@.len() as int).drop_first()
            =~= plan@.subrange(i + 1, plan@.len() as int));
        if let PairingGroup::Single(k) = plan[i] {
            return Some(k);
        }
        i += 1;
    }
    None
}

/// What the chord detector decides after an observation.
#[derive(Clone, Copy, Debug, PartialEq, Eq, Structural)]
pub enum ChordDecision {
    /// Merge the two halves, the left one as base.
    Combine,
    /// Let the left half act as a whole controller.
    SelfRemapLeft,
    /// Let the right half act as a whole controller.
    SelfRemapRight,
    /// Keep watching.
    Continue,
}

/// The buttons held on each half during one pairing attempt.
#[derive(Clone, Copy, Debug, PartialEq, Eq, Structural)]
pub struct ChordState {
    pub left_tl: bool,
    pub left_tr: bool,
    pub left_tr2: bool,
    pub right_tr: bool,
    pub right_tl: bool,
    pub right_tl2: bool,
}

/// The held state a key event sets, if it is one for `key`.
pub open spec fn latch(held: bool, ev: Event, key: u16) -> bool {
    if ev.is_key_of(key) {
        ev.value != 0
    } else {
        held
    }
}

impl ChordState {
    pub open spec fn after_left(self, ev: Event) -> ChordState {
        ChordState {
            left_tl: latch(self.left_tl, ev, BTN_TL),
            left_tr: latch(self.left_tr, ev, BTN_TR),
            left_tr2: latch(self.left_tr2, ev, BTN_TR2),
            ..self
        }
    }

    pub open spec fn after_right(self, ev: Event) -> ChordState {
        ChordState {
            right_tr: latch(self.right_tr, ev, BTN_TR),
            right_tl: latch(self.right_tl, ev, BTN_TL),
            right_tl2: latch(self.right_tl2, ev, BTN_TL2),
            ..self
        }
    }

    /// The rules in priority order: both halves' pairing buttons merge them;
    /// else a half holding both of its own shoulder buttons goes alone.
    pub open spec fn decision(self) -> ChordDecision {
        if self.left_tl && self.right_tr {
            ChordDecision::Combine
        } else if self.left_tr && self.left_tr2 {
            ChordDecision::SelfRemapLeft
        } else if self.right_tl && self.right_tl2 {
            ChordDecision::SelfRemapRight
        } else {
            ChordDecision::Continue
        }
    }

    /// Nothing held.
    pub open spec fn released() -> ChordState {
        ChordState {
            left_tl: false,
            left_tr: false,
            left_tr2: false,
            right_tr: false,
            right_tl: false,
            right_tl2: false,
        }
    }

    /// Nothing held.
    pub fn new() -> (r: ChordState)
        ensures
            r == ChordState::released(),
    {
        ChordState {
            left_tl: false,
            left_tr: false,
            left_tr2: false,
            right_tr: false,
            right_tl: false,
            right_tl2: false,
        }
    }

    /// Records an event read from the left half.
    pub fn observe_left(&mut self, ev: Event)
        ensures
            *final(self) == old(self).after_left(ev),
    {
        if ev.event_type == EV_KEY {
            if ev.code == BTN_TL {
                self.left_tl = ev.value != 0;
            } else if ev.code == BTN_TR {
                self.left_tr = ev.value != 0;
            } else if ev.code == BTN_TR2 {
                self.left_tr2 = ev.value != 0;
            }
        }
    }

    /// Records an event read from the right half.
    pub fn observe_right(&mut self, ev: Event)
        ensures
            *final(self) == old(self).after_right(ev),
    {
        if ev.event_type == EV_KEY {
            if ev.code == BTN_TR {
                self.right_tr = ev.value != 0;
            } else if ev.code == BTN_TL {
                self.right_tl = ev.value != 0;
            } else if ev.code == BTN_TL2 {
                self.right_tl2 = ev.value != 0;
            }
        }
    }

    /// One round of the detector: records what was read from the right half,
    /// then from the left half, and decides.
    pub fn step(&mut self, right: Option<Event>, left: Option<Event>) -> (r: ChordDecision)
        ensures
            *final(self) == (match left {
                Some(l) => match right {
                    Some(rt) => old(self).after_right(rt),
                    None => *old(self),
                }.after_left(l),
                None => match right {
                    Some(rt) => old(self).after_right(rt),
                    None => *old(self),
                },
            }),
            r == final(self).decision(),
    {
        if let Some(ev) = right {
            self.observe_right(ev);
        }
        if let Some(ev) = left {
            self.observe_left(ev);
        }
        self.decide()
    }

    /// What to do now.
    pub fn decide(&self) -> (r: ChordDecision)
        ensures
            r == self.decision(),
    {
        if self.left_tl && self.right_tr {
            ChordDecision::Combine
        } else if self.left_tr && self.left_tr2 {
            ChordDecision::SelfRemapLeft
        } else if self.right_tl && self.right_tl2 {
            ChordDecision::SelfRemapRight
        } else {
            ChordDecision::Continue
        }
    }
}

/// The state after the left half's events `evs`, in order, from `s`.
pub open spec fn after_left_events(s: ChordState, evs: Seq<Event>) -> ChordState
    decreases evs.len(),
{
    if evs.len() == 0 {
        s
    } else {
        after_left_events(s, evs.drop_last()).after_left(evs.last())
    }
}

/// Whenever both halves' pairing buttons are held together, the decision is
/// to merge, whatever else is held or was held before.
pub proof fn both_pairing_buttons_combine(s: ChordState)
    requires
        s.left_tl && s.right_tr,
    ensures
        s.decision() == ChordDecision::Combine,
{
}

/// A lone left half never leads to a merge: whatever it sends, the right
/// half's buttons stay released, and once both of its own shoulder buttons
/// are held it goes alone.
pub proof fn lone_left_goes_alone(evs: Seq<Event>)
    ensures
        !after_left_events(ChordState::released(), evs).right_tr,
        !after_left_events(ChordState::released(), evs).right_tl,
        !after_left_events(ChordState::released(), evs).right_tl2,
        after_left_events(ChordState::released(), evs).decision() != ChordDecision::Combine,
        after_left_events(ChordState::released(), evs).left_tr && after_left_events(ChordState::released(), evs).left_tr2
            ==> after_left_events(ChordState::released(), evs).decision() == ChordDecision::SelfRemapLeft,
    decreases evs.len(),
{
    if evs.len() > 0 {
        lone_left_goes_alone(evs.drop_last());
    }
}

} // verus!
