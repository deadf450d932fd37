//! The per-event remapper that lets one half of a split controller act as a
//! whole controller on its own.

use vstd::prelude::*;
use crate::event::{
    Event, EV_KEY, EV_ABS, BTN_SOUTH, BTN_EAST, BTN_NORTH, BTN_WEST, BTN_TL, BTN_TR, BTN_TL2,
    BTN_TR2, BTN_MODE, BTN_SELECT, ABS_X, ABS_Y, ABS_RX, ABS_RY, ABS_HAT0X, ABS_HAT0Y,
};
use crate::text::{has_substring, str_contains};

verus! {

/// Stick deflection beyond which a stick counts as a hat press.
pub const HAT_THRESHOLD: i32 = 10000;

pub open spec fn is_stick_axis(axis: u16) -> bool {
    axis == ABS_X || axis == ABS_Y || axis == ABS_RX || axis == ABS_RY
}

/// The hat axis a stick axis is turned into.
pub open spec fn stick_hat(axis: u16) -> u16 {
    if axis == ABS_X || axis == ABS_RX {
        ABS_HAT0X
    } else {
        ABS_HAT0Y
    }
}

/// The sign a stick axis carries onto its hat axis, for a half held sideways.
pub open spec fn stick_polarity(axis: u16) -> i32 {
    if axis == ABS_X || axis == ABS_RY {
        -1i32
    } else {
        1i32
    }
}

/// The hat step a raw stick value stands for.
pub open spec fn hat_step_of(value: i32, polarity: i32) -> i32
    recommends
        polarity == 1 || polarity == -1,
{
    if value < -HAT_THRESHOLD {
        (-polarity) as i32
    } else if value > HAT_THRESHOLD {
        polarity
    } else {
        0
    }
}

/// Remapping state for one half: which half it is, and the hat step last
/// emitted on each hat axis.
#[derive(Clone, Copy, Debug, PartialEq, Eq, Structural)]
pub struct Middleman {
    pub is_right: bool,
    pub last_hatx: i32,
    pub last_haty: i32,
}

impl Middleman {
    pub open spec fn last_for(self, hat: u16) -> i32 {
        if hat == ABS_HAT0X {
            self.last_hatx
        } else {
            self.last_haty
        }
    }

    pub open spec fn with_last(self, hat: u16, v: i32) -> Middleman {
        if hat == ABS_HAT0X {
            Middleman { last_hatx: v, ..self }
        } else {
            Middleman { last_haty: v, ..self }
        }
    }

    /// The key a half's key is relabelled to, or `None` where it is dropped.
    pub open spec fn key_target(self, key: u16) -> Option<u16> {
        if self.is_right {
            if key == BTN_EAST {
                Some(BTN_SOUTH)
            } else if key == BTN_WEST {
                Some(BTN_NORTH)
            } else if key == BTN_SOUTH {
                Some(BTN_WEST)
            } else if key == BTN_NORTH {
                Some(BTN_EAST)
            } else if key == BTN_TL2 {
                Some(BTN_TR)
            } else if key == BTN_TR {
                None
            } else if key == BTN_MODE {
                Some(BTN_SELECT)
            } else {
                Some(key)
            }
        } else {
            if key == BTN_TR {
                Some(BTN_TL)
            } else if key == BTN_TR2 {
                Some(BTN_TR)
            } else {
                Some(key)
            }
        }
    }

    /// The next state and the events emitted for `ev`.
    pub open spec fn translated(self, ev: Event) -> (Middleman, Seq<Event>) {
        if ev.event_type == EV_KEY {
            match self.key_target(ev.code) {
                Some(k) => (self, seq![Event { event_type: EV_KEY, code: k, value: ev.value }]),
                None => (self, Seq::empty()),
            }
        } else if ev.event_type == EV_ABS && is_stick_axis(ev.code) {
            let hat = stick_hat(ev.code);
            let step = hat_step_of(ev.value, stick_polarity(ev.code));
            if step != self.last_for(hat) {
                (self.with_last(hat, step), seq![Event { event_type: EV_ABS, code: hat, value: step }])
            } else {
                (self, Seq::empty())
            }
        } else {
            (self, seq![ev])
        }
    }

    /// A fresh remapper for the half named `name`: the right half when the
    /// name says `Right`.
    pub fn new(name: &str) -> (r: Middleman)
        ensures
            r == (Middleman { is_right: has_substring(name@, "Right"@), last_hatx: 0, last_haty: 0 }),
    {
        Middleman { is_right: str_contains(name, "Right"), last_hatx: 0, last_haty: 0 }
    }

    fn key_target_of(&self, key: u16) -> (r: Option<u16>)
        ensures
            r == self.key_target(key),
    {
        if self.is_right {
            if key == BTN_EAST {
                Some(BTN_SOUTH)
            } else if key == BTN_WEST {
                Some(BTN_NORTH)
            } else if key == BTN_SOUTH {
                Some(BTN_WEST)
            } else if key == BTN_NORTH {
                Some(BTN_EAST)
            } else if key == BTN_TL2 {
                Some(BTN_TR)
            } else if key == BTN_TR {
                None
            } else if key == BTN_MODE {
                Some(BTN_SELECT)
            } else {
                Some(key)
            }
        } else {
            if key == BTN_TR {
                Some(BTN_TL)
            } else if key == BTN_TR2 {
                Some(BTN_TR)
            } else {
                Some(key)
            }
        }
    }

    /// Remaps one event from the half: relabels or drops its keys, turns its
    /// stick into hat steps (emitted only when the step changes), and passes
    /// everything else through.
    pub fn translate(&mut self, ev: Event) -> (r: Vec<Event>)
        ensures
            (*final(self), r@) == old(self).translated(ev),
    {
        let mut out: Vec<Event> = Vec::new();
        if ev.event_type == EV_KEY {
            if let Some(k) = self.key_target_of(ev.code) {
                out.push(Event::key(k, ev.value));
            }
        } else if ev.event_type == EV_ABS && (ev.code == ABS_X || ev.code == ABS_Y || ev.code == ABS_RX
            || ev.code == ABS_RY) {
            let to_x = ev.code == ABS_X || ev.code == ABS_RX;
            let polarity: i32 = if ev.code == ABS_X || ev.code == ABS_RY { -1 } else { 1 };
            let step: i32 = if ev.value < -HAT_THRESHOLD {
                -polarity
            } else if ev.value > HAT_THRESHOLD {
                polarity
            } else {
                0
            };
            if to_x {
                if step != self.last_hatx {
                    self.last_hatx = step;
                    out.push(Event::abs(ABS_HAT0X, step));
                }
            } else {
                if step != self.last_haty {
                    self.last_haty = step;
                    out.push(Event::abs(ABS_HAT0Y, step));
                }
            }
        } else {
            out.push(ev);
        }
        assert(out@ =~= old(self).translated(ev).1);
        out
    }
}

/// The state and the events emitted after `evs`, in order, from `m`.
pub open spec fn translated_all(m: Middleman, evs: Seq<Event>) -> (Middleman, Seq<Event>)
    decreases evs.len(),
{
    if evs.len() == 0 {
        (m, Seq::empty())
    } else {
        let (m1, o1) = translated_all(m, evs.drop_last());
        let (m2, o2) = m1.translated(evs.last());
        (m2, o1 + o2)
    }
}

/// The entries of `steps` that differ from the one before (the first from
/// `start`), in order.
pub open spec fn step_change_list(steps: Seq<i32>, start: i32) -> Seq<i32>
    decreases steps.len(),
{
    if steps.len() == 0 {
        Seq::empty()
    } else {
        let prev = if steps.len() == 1 { start } else { steps[steps.len() - 2] };
        if steps.last() != prev {
            step_change_list(steps.drop_last(), start).push(steps.last())
        } else {
            step_change_list(steps.drop_last(), start)
        }
    }
}

pub open spec fn stick_events(axis: u16, values: Seq<i32>) -> Seq<Event> {
    values.map_values(|v: i32| Event { event_type: EV_ABS, code: axis, value: v })
}

pub open spec fn stick_steps(axis: u16, values: Seq<i32>) -> Seq<i32> {
    values.map_values(|v: i32| hat_step_of(v, stick_polarity(axis)))
}

/// Hat events on `hat` carrying `steps`, in order.
pub open spec fn hat_events(hat: u16, steps: Seq<i32>) -> Seq<Event> {
    steps.map_values(|v: i32| Event { event_type: EV_ABS, code: hat, value: v })
}

/// Hat debouncing: for raw values on one stick axis, the events emitted are
/// exactly one hat event per change between consecutive computed steps (the
/// first compared with the step last emitted), however many raw samples
/// there are.
pub proof fn hat_events_follow_step_changes(m: Middleman, axis: u16, values: Seq<i32>)
    requires
        is_stick_axis(axis),
    ensures
        translated_all(m, stick_events(axis, values)).1
            == hat_events(stick_hat(axis), step_change_list(stick_steps(axis, values), m.last_for(stick_hat(axis)))),
        translated_all(m, stick_events(axis, values)).0.last_for(stick_hat(axis)) == if values.len() == 0 {
            m.last_for(stick_hat(axis))
        } else {
            stick_steps(axis, values).last()
        },
        translated_all(m, stick_events(axis, values)).0.is_right == m.is_right,
    decreases values.len(),
{
    let hat = stick_hat(axis);
    let start = m.last_for(hat);
    if values.len() == 0 {
        assert(hat_events(hat, step_change_list(stick_steps(axis, values), start)) =~= Seq::<Event>::empty());
    } else {
        let init = values.drop_last();
        hat_events_follow_step_changes(m, axis, init);
        assert(stick_events(axis, values).drop_last() =~= stick_events(axis, init));
        assert(stick_steps(axis, values).drop_last() =~= stick_steps(axis, init));
        let (m1, o1) = translated_all(m, stick_events(axis, init));
        let (m2, o2) = m1.translated(stick_events(axis, values).last());
        assert(translated_all(m, stick_events(axis, values)) == (m2, o1 + o2));
        if values.len() >= 2 {
            assert(stick_steps(axis, init).last() == stick_steps(axis, values)[values.len() - 2]);
        }
        let prior = step_change_list(stick_steps(axis, init), start);
        let steps = stick_steps(axis, values);
        if steps.last() != m1.last_for(hat) {
            assert(hat_events(hat, prior.push(steps.last())) =~= hat_events(hat, prior) + o2);
        } else {
            assert(hat_events(hat, prior) =~= hat_events(hat, prior) + o2);
        }
    }
}

/// One extra copy of a sample, right after it, leaves the change list alone.
proof fn step_change_list_ignores_repeat(steps: Seq<i32>, start: i32, i: int)
    requires
        0 <= i < steps.len(),
    ensures
        step_change_list(steps.insert(i + 1, steps[i]), start) == step_change_list(steps, start),
    decreases steps.len(),
{
    let longer = steps.insert(i + 1, steps[i]);
    if i + 1 == steps.len() {
        assert(longer.drop_last() =~= steps);
    } else {
        let init = steps.drop_last();
        step_change_list_ignores_repeat(init, start, i);
        assert(longer.drop_last() =~= init.insert(i + 1, steps[i]));
        assert(longer.last() == steps.last());
        assert(longer[longer.len() - 2] == steps[steps.len() - 2]);
    }
}

/// Repeating a raw stick sample in place changes nothing that is emitted:
/// the hat events for the values with `values[i]` given once more right
/// after it are those for the values as they are. (Applied once per extra
/// copy, this covers any number of in-place repeats.)
pub proof fn repeated_samples_change_nothing(m: Middleman, axis: u16, values: Seq<i32>, i: int)
    requires
        is_stick_axis(axis),
        0 <= i < values.len(),
    ensures
        translated_all(m, stick_events(axis, values.insert(i + 1, values[i]))).1
            == translated_all(m, stick_events(axis, values)).1,
{
    let longer = values.insert(i + 1, values[i]);
    hat_events_follow_step_changes(m, axis, values);
    hat_events_follow_step_changes(m, axis, longer);
    assert(stick_steps(axis, longer) =~= stick_steps(axis, values).insert(i + 1, stick_steps(axis, values)[i]));
    step_change_list_ignores_repeat(stick_steps(axis, values), m.last_for(stick_hat(axis)), i);
}

/// Feeding the same stick sample twice emits nothing the second time.
pub proof fn repeated_stick_sample_is_silent(m: Middleman, ev: Event)
    requires
        ev.event_type == EV_ABS,
        is_stick_axis(ev.code),
    ensures
        m.translated(ev).0.translated(ev).1.len() == 0,
{
}

} // verus!
