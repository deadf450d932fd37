//! Hardware quirk database and the remap engine that applies its rules.

use vstd::prelude::*;
use crate::event::{
    Event, EV_KEY, EV_ABS, KEY_D, KEY_F12, BTN_MODE, BTN_DPAD_UP, BTN_DPAD_DOWN, BTN_DPAD_LEFT,
    BTN_DPAD_RIGHT, ABS_Z, ABS_RZ, ABS_HAT0X, ABS_HAT0Y,
};
use crate::text::{has_substring, str_contains, str_equal};

verus! {

/// A declarative remap of one raw key event.
#[derive(Clone, Copy, Debug, PartialEq, Eq, Structural)]
pub enum InputRemap {
    /// Source key, target key.
    KeyToKey(u16, u16),
    /// Source key, target absolute axis.
    KeyToAbs(u16, u16),
    /// Key that opens the quick access menu; it never yields an event.
    KeyToQuickAccessMenu(u16),
}

/// The digital step a directional key stands for on a hat axis.
pub open spec fn hat_step(key: u16) -> Option<i32> {
    if key == BTN_DPAD_RIGHT || key == BTN_DPAD_DOWN {
        Some(1i32)
    } else if key == BTN_DPAD_LEFT || key == BTN_DPAD_UP {
        Some(-1i32)
    } else {
        None
    }
}

pub open spec fn is_trigger_axis(axis: u16) -> bool {
    axis == ABS_Z || axis == ABS_RZ
}

pub open spec fn is_hat_axis(axis: u16) -> bool {
    axis == ABS_HAT0X || axis == ABS_HAT0Y
}

impl InputRemap {
    /// The scaled trigger value `255 * value` fits an `i32` wherever this rule computes it.
    pub open spec fn scale_fits(self, ev: Event) -> bool {
        match self {
            InputRemap::KeyToAbs(k, axis) => ev.is_key_of(k) && is_trigger_axis(axis)
                ==> i32::MIN <= 255 * ev.value <= i32::MAX,
            _ => true,
        }
    }

    /// What this rule substitutes for `ev`, if anything.
    pub open spec fn remapped(self, ev: Event) -> Option<Event> {
        if ev.event_type != EV_KEY {
            None
        } else {
            match self {
                InputRemap::KeyToKey(k, out) => if ev.code == k {
                    Some(Event { event_type: EV_KEY, code: out, value: ev.value })
                } else {
                    None
                },
                InputRemap::KeyToAbs(k, axis) => if ev.code != k {
                    None
                } else if is_trigger_axis(axis) {
                    Some(Event { event_type: EV_ABS, code: axis, value: (255 * ev.value) as i32 })
                } else if is_hat_axis(axis) {
                    if ev.value == 0 {
                        Some(Event { event_type: EV_ABS, code: axis, value: 0 })
                    } else {
                        match hat_step(k) {
                            Some(v) => Some(Event { event_type: EV_ABS, code: axis, value: v }),
                            None => None,
                        }
                    }
                } else {
                    None
                },
                InputRemap::KeyToQuickAccessMenu(_) => None,
            }
        }
    }

    /// Applies this rule to one raw event: the substitute event, or `None`
    /// where the rule does not apply.
    pub fn apply_quirk(self, input: Event) -> (r: Option<Event>)
        requires
            self.scale_fits(input),
        ensures
            r == self.remapped(input),
    {
        if input.event_type != EV_KEY {
            return None;
        }
        match self {
            InputRemap::KeyToKey(my_key, output_key) => {
                if my_key != input.code {
                    None
                } else {
                    Some(Event::key(output_key, input.value))
                }
            },
            InputRemap::KeyToAbs(my_key, axis) => {
                if my_key != input.code {
                    None
                } else if axis == ABS_Z || axis == ABS_RZ {
                    Some(Event::abs(axis, 255 * input.value))
                } else if axis == ABS_HAT0X || axis == ABS_HAT0Y {
                    if input.value == 0 {
                        Some(Event::abs(axis, 0))
                    } else if my_key == BTN_DPAD_RIGHT || my_key == BTN_DPAD_DOWN {
                        Some(Event::abs(axis, 1))
                    } else if my_key == BTN_DPAD_LEFT || my_key == BTN_DPAD_UP {
                        Some(Event::abs(axis, -1))
                    } else {
                        None
                    }
                } else {
                    None
                }
            },
            InputRemap::KeyToQuickAccessMenu(_) => None,
        }
    }
}

/// Whether every rule of `rules` can be applied to `ev` without overflow, as
/// `remap_event` requires.
pub fn rules_apply_to(rules: &Vec<InputRemap>, ev: Event) -> (r: bool)
    ensures
        r == forall|i: int| 0 <= i < rules@.len() ==> (#[trigger] rules@[i]).scale_fits(ev),
{
    let mut i: usize = 0;
    while i < rules.len()
        invariant
            i <= rules@.len(),
            forall|j: int| 0 <= j < i ==> (#[trigger] rules@[j]).scale_fits(ev),
        decreases rules@.len() - i,
    {
        if let InputRemap::KeyToAbs(k, axis) = rules[i] {
            if ev.event_type == EV_KEY && ev.code == k && (axis == ABS_Z || axis == ABS_RZ)
                && (ev.value < -8421504 || ev.value > 8421504) {
                assert(!rules@[i as int].scale_fits(ev));
                return false;
            }
        }
        i += 1;
    }
    true
}

/// A trigger rule turns a released or pressed key into 0 or 255: always 255
/// times the key's value.
pub proof fn trigger_rule_is_digital(key: u16, axis: u16, value: i32)
    requires
        is_trigger_axis(axis),
        value == 0 || value == 1,
    ensures
        InputRemap::KeyToAbs(key, axis).remapped(Event { event_type: EV_KEY, code: key, value })
            == Some(Event { event_type: EV_ABS, code: axis, value: (255 * value) as i32 }),
        (255 * value) as i32 == 0 || (255 * value) as i32 == 255,
{
}

/// The first substitute that `rules`, tried in order, produce for `ev`.
pub open spec fn first_remap(rules: Seq<InputRemap>, ev: Event) -> Option<Event>
    decreases rules.len(),
{
    if rules.len() == 0 {
        None
    } else {
        match rules[0].remapped(ev) {
            Some(e) => Some(e),
            None => first_remap(rules.drop_first(), ev),
        }
    }
}

/// The event forwarded for `ev` under `rules`: the first substitute, or `ev` itself.
pub open spec fn remapped_event(rules: Seq<InputRemap>, ev: Event) -> Event {
    match first_remap(rules, ev) {
        Some(e) => e,
        None => ev,
    }
}

/// Applies `rules` in order to `ev`; the first rule that yields a substitute
/// wins, and where none does `ev` passes unchanged.
pub fn remap_event(rules: &Vec<InputRemap>, ev: Event) -> (r: Event)
    requires
        forall|i: int| 0 <= i < rules@.len() ==> (#[trigger] rules@[i]).scale_fits(ev),
    ensures
        r == remapped_event(rules@, ev),
{
    let mut i: usize = 0;
    assert(rules@.subrange(0, rules@.len() as int) =~= rules@);
    while i < rules.len()
        invariant
            i <= rules@.len(),
            forall|j: int| 0 <= j < rules@.len() ==> (#[trigger] rules@[j]).scale_fits(ev),
            first_remap(rules@, ev) == first_remap(rules@.subrange(i as int, rules@.len() as int), ev),
        decreases rules@.len() - i,
    {
        let ghost rest = rules@.subrange(i as int, rules@.len() as int);
        assert(rest.drop_first() =~= rules@.subrange(i + 1, rules@.len() as int));
        if let Some(e) = rules[i].apply_quirk(ev) {
            return e;
        }
        i += 1;
    }
    assert(rules@.subrange(i as int, rules@.len() as int).len() == 0);
    ev
}

/// A hardware quirk record: platform identification criteria and the remap
/// rules for devices on a matching platform.
#[derive(Clone, Debug)]
pub struct DmiQuirk {
    pub board_vendor: &'static str,
    pub board_name: &'static str,
    pub product_vendor: &'static str,
    pub product_name: &'static str,
    pub relaxed_name: bool,
    pub relaxed_vendor: bool,
    pub phys_path: &'static str,
    pub remap_codes: Vec<InputRemap>,
}

/// A quirk record as mathematical values.
pub struct DmiQuirkView {
    pub board_vendor: Seq<char>,
    pub board_name: Seq<char>,
    pub product_vendor: Seq<char>,
    pub product_name: Seq<char>,
    pub relaxed_name: bool,
    pub relaxed_vendor: bool,
    pub phys_path: Seq<char>,
    pub remap_codes: Seq<InputRemap>,
}

impl View for DmiQuirk {
    type V = DmiQuirkView;

    open spec fn view(&self) -> DmiQuirkView {
        DmiQuirkView {
            board_vendor: self.board_vendor@,
            board_name: self.board_name@,
            product_vendor: self.product_vendor@,
            product_name: self.product_name@,
            relaxed_name: self.relaxed_name,
            relaxed_vendor: self.relaxed_vendor,
            phys_path: self.phys_path@,
            remap_codes: self.remap_codes@,
        }
    }
}

/// The platform identification strings a quirk record is matched against.
pub struct DmiIds {
    pub board_vendor: String,
    pub board_name: String,
    pub product_vendor: String,
    pub product_name: String,
}

/// One criterion against one queried string: empty matches anything; relaxed
/// means either contains the other; otherwise the two are equal.
pub open spec fn criterion_matches(inp: Seq<char>, x: Seq<char>, relaxed: bool) -> bool {
    if inp.len() == 0 {
        true
    } else if relaxed {
        has_substring(inp, x) || has_substring(x, inp)
    } else {
        inp == x
    }
}

impl DmiQuirkView {
    /// All four criteria hold for the queried strings.
    pub open spec fn matches(self, bv: Seq<char>, bn: Seq<char>, pv: Seq<char>, pn: Seq<char>) -> bool {
        &&& criterion_matches(self.product_name, pn, self.relaxed_name)
        &&& criterion_matches(self.product_vendor, pv, self.relaxed_vendor)
        &&& criterion_matches(self.board_name, bn, self.relaxed_name)
        &&& criterion_matches(self.board_vendor, bv, self.relaxed_vendor)
    }
}

impl DmiIds {
    pub open spec fn matched_by(&self, q: DmiQuirkView) -> bool {
        q.matches(self.board_vendor@, self.board_name@, self.product_vendor@, self.product_name@)
    }
}

/// Compares one criterion `inp` with the queried string `x`.
pub fn match_str(inp: &str, x: &str, relaxed: bool) -> (r: bool)
    ensures
        r == criterion_matches(inp@, x@, relaxed),
{
    if inp.unicode_len() == 0 {
        true
    } else if relaxed {
        str_contains(inp, x) || str_contains(x, inp)
    } else {
        str_equal(inp, x)
    }
}

/// An empty criterion is a wildcard: it matches every queried string, and a
/// record whose four criteria are empty matches every platform.
pub proof fn empty_criterion_is_wildcard(q: DmiQuirkView, bv: Seq<char>, bn: Seq<char>, pv: Seq<char>, pn: Seq<char>)
    ensures
        forall|x: Seq<char>, relaxed: bool| criterion_matches(Seq::<char>::empty(), x, relaxed),
        q.board_vendor.len() == 0 ==> criterion_matches(q.board_vendor, bv, q.relaxed_vendor),
        q.board_name.len() == 0 ==> criterion_matches(q.board_name, bn, q.relaxed_name),
        q.product_vendor.len() == 0 ==> criterion_matches(q.product_vendor, pv, q.relaxed_vendor),
        q.product_name.len() == 0 ==> criterion_matches(q.product_name, pn, q.relaxed_name),
        q.board_vendor.len() == 0 && q.board_name.len() == 0 && q.product_vendor.len() == 0
            && q.product_name.len() == 0 ==> q.matches(bv, bn, pv, pn),
{
}

/// The quirk records, in the order they are tried.
pub open spec fn dmi_quirk_table() -> Seq<DmiQuirkView> {
    seq![
        DmiQuirkView {
            board_vendor: "AYANEO"@,
            board_name: "AIR"@,
            product_vendor: ""@,
            product_name: ""@,
            relaxed_name: true,
            relaxed_vendor: false,
            phys_path: ""@,
            remap_codes: seq![InputRemap::KeyToKey(KEY_F12, BTN_MODE), InputRemap::KeyToQuickAccessMenu(KEY_D)],
        },
        DmiQuirkView {
            board_vendor: "AYANEO"@,
            board_name: "NEXT"@,
            product_vendor: ""@,
            product_name: ""@,
            relaxed_name: true,
            relaxed_vendor: false,
            phys_path: ""@,
            remap_codes: seq![InputRemap::KeyToKey(KEY_F12, BTN_MODE), InputRemap::KeyToQuickAccessMenu(KEY_D)],
        },
    ]
}

fn ayaneo_remaps() -> (r: Vec<InputRemap>)
    ensures
        r@ == seq![InputRemap::KeyToKey(KEY_F12, BTN_MODE), InputRemap::KeyToQuickAccessMenu(KEY_D)],
{
    let r = vec![InputRemap::KeyToKey(KEY_F12, BTN_MODE), InputRemap::KeyToQuickAccessMenu(KEY_D)];
    assert(r@ =~= seq![InputRemap::KeyToKey(KEY_F12, BTN_MODE), InputRemap::KeyToQuickAccessMenu(KEY_D)]);
    r
}

/// The quirk records, in the order they are tried.
pub fn dmi_quirks() -> (r: Vec<DmiQuirk>)
    ensures
        r@.len() == dmi_quirk_table().len(),
        forall|i: int| 0 <= i < r@.len() ==> (#[trigger] r@[i])@ == dmi_quirk_table()[i],
{
    proof {
        reveal_strlit("AYANEO");
        reveal_strlit("AIR");
        reveal_strlit("NEXT");
        reveal_strlit("");
    }
    let air = DmiQuirk {
        board_vendor: "AYANEO",
        board_name: "AIR",
        product_vendor: "",
        product_name: "",
        relaxed_name: true,
        relaxed_vendor: false,
        phys_path: "",
        remap_codes: ayaneo_remaps(),
    };
    let next = DmiQuirk {
        board_vendor: "AYANEO",
        board_name: "NEXT",
        product_vendor: "",
        product_name: "",
        relaxed_name: true,
        relaxed_vendor: false,
        phys_path: "",
        remap_codes: ayaneo_remaps(),
    };
    let r = vec![air, next];
    assert(r@[0]@ == dmi_quirk_table()[0]);
    assert(r@[1]@ == dmi_quirk_table()[1]);
    r
}

/// The first quirk record, in table order, that matches the platform `ids`.
pub fn get_dmi_quirk(ids: &DmiIds) -> (r: Option<DmiQuirk>)
    ensures
        r is Some <==> exists|i: int| 0 <= i < dmi_quirk_table().len() && ids.matched_by(#[trigger] dmi_quirk_table()[i]),
        r is Some ==> exists|i: int| 0 <= i < dmi_quirk_table().len()
            && ids.matched_by(#[trigger] dmi_quirk_table()[i])
            && (forall|j: int| 0 <= j < i ==> !ids.matched_by(#[trigger] dmi_quirk_table()[j]))
            && r->0@ == dmi_quirk_table()[i],
{
    let mut table = dmi_quirks();
    let mut i: usize = 0;
    while i < table.len()
        invariant
            table@.len() == dmi_quirk_table().len(),
            forall|k: int| 0 <= k < table@.len() ==> (#[trigger] table@[k])@ == dmi_quirk_table()[k],
            i <= table@.len(),
            forall|j: int| 0 <= j < i ==> !ids.matched_by(#[trigger] dmi_quirk_table()[j]),
        decreases table@.len() - i,
    {
        let q = &table[i];
        let pn = match_str(q.product_name, ids.product_name.as_str(), q.relaxed_name);
        let pv = match_str(q.product_vendor, ids.product_vendor.as_str(), q.relaxed_vendor);
        let bn = match_str(q.board_name, ids.board_name.as_str(), q.relaxed_name);
        let bv = match_str(q.board_vendor, ids.board_vendor.as_str(), q.relaxed_vendor);
        if pn && pv && bn && bv {
            assert(ids.matched_by(dmi_quirk_table()[i as int]));
            let found = table.swap_remove(i);
            return Some(found);
        }
        i += 1;
    }
    None
}

} // verus!
