use rinputer::device::SourceCaps;
use rinputer::event::{
    Event, ABS_HAT0X, ABS_HAT0Y, ABS_RX, ABS_X, ABS_Y, BTN_EAST, BTN_MODE, BTN_NORTH, BTN_SELECT,
    BTN_SOUTH, BTN_TL, BTN_TL2, BTN_TR, BTN_TR2, BTN_WEST,
};
use rinputer::middleman::Middleman;
use rinputer::pairing::{
    classify_source, immediate_choice, plan_pairing, ChordDecision, ChordState, HalfKind,
    PairingGroup, SourceInfo,
};

#[test]
fn combine_when_both_pairing_buttons_held() {
    let mut s = ChordState::new();
    s.observe_left(Event::key(BTN_TR, 1));
    s.observe_right(Event::key(BTN_TL, 1));
    assert_eq!(s.decide(), ChordDecision::Continue);
    s.observe_left(Event::key(BTN_TL, 1));
    assert_eq!(s.decide(), ChordDecision::Continue);
    s.observe_right(Event::key(BTN_TR, 1));
    assert_eq!(s.decide(), ChordDecision::Combine);
    // Other held buttons do not change the outcome.
    s.observe_left(Event::key(BTN_TR2, 1));
    s.observe_right(Event::key(BTN_TL2, 1));
    assert_eq!(s.decide(), ChordDecision::Combine);
}

#[test]
fn combined_source_info() {
    let left = SourceInfo {
        name: "Nintendo Switch Left Joy-Con".to_string(),
        path: "path-left".to_string(),
        caps: SourceCaps::DpadAndAB,
    };
    let c = left.combined();
    assert_eq!(c.name, "Nintendo Switch Both Joy-Cons");
    assert_eq!(c.path, "path-left");
    assert_eq!(c.caps, SourceCaps::FullX360);
}

#[test]
fn lone_left_half_goes_alone() {
    let mut s = ChordState::new();
    s.observe_left(Event::key(BTN_TL, 1));
    s.observe_left(Event::key(BTN_TR, 1));
    assert_eq!(s.decide(), ChordDecision::Continue);
    s.observe_left(Event::key(BTN_TR2, 1));
    assert_eq!(s.decide(), ChordDecision::SelfRemapLeft);
}

#[test]
fn right_half_goes_alone_and_release_clears() {
    let mut s = ChordState::new();
    s.observe_right(Event::key(BTN_TL, 1));
    s.observe_right(Event::key(BTN_TL2, 1));
    assert_eq!(s.decide(), ChordDecision::SelfRemapRight);
    s.observe_right(Event::key(BTN_TL2, 0));
    assert_eq!(s.decide(), ChordDecision::Continue);
    s.observe_right(Event::abs(ABS_X, 5));
    assert_eq!(s.decide(), ChordDecision::Continue);
}

#[test]
fn classify_halves() {
    assert_eq!(classify_source("Nintendo Switch Left Joy-Con"), HalfKind::Left);
    assert_eq!(classify_source("Nintendo Switch Right Joy-Con"), HalfKind::Right);
    assert_eq!(classify_source("Xbox Wireless Controller"), HalfKind::Whole);
}

#[test]
fn pairing_plan_groups_halves() {
    let names: Vec<String> = [
        "Pad A",
        "Nintendo Switch Left Joy-Con",
        "Pad B",
        "Nintendo Switch Right Joy-Con",
        "Nintendo Switch Right Joy-Con",
    ]
    .iter()
    .map(|s| s.to_string())
    .collect();
    assert_eq!(
        plan_pairing(&names),
        vec![
            PairingGroup::Single(0),
            PairingGroup::Single(2),
            PairingGroup::Halves(Some(1), Some(3)),
            PairingGroup::Halves(None, Some(4)),
        ]
    );
    assert_eq!(plan_pairing(&vec![]), vec![]);
}

#[test]
fn right_half_relabels_keys() {
    let mut m = Middleman::new("Nintendo Switch Right Joy-Con");
    assert!(m.is_right);
    assert_eq!(m.translate(Event::key(BTN_EAST, 1)), vec![Event::key(BTN_SOUTH, 1)]);
    assert_eq!(m.translate(Event::key(BTN_WEST, 0)), vec![Event::key(BTN_NORTH, 0)]);
    assert_eq!(m.translate(Event::key(BTN_SOUTH, 1)), vec![Event::key(BTN_WEST, 1)]);
    assert_eq!(m.translate(Event::key(BTN_NORTH, 1)), vec![Event::key(BTN_EAST, 1)]);
    assert_eq!(m.translate(Event::key(BTN_TL2, 1)), vec![Event::key(BTN_TR, 1)]);
    assert_eq!(m.translate(Event::key(BTN_TR, 1)), vec![]);
    assert_eq!(m.translate(Event::key(BTN_MODE, 1)), vec![Event::key(BTN_SELECT, 1)]);
    assert_eq!(m.translate(Event::key(BTN_TL, 1)), vec![Event::key(BTN_TL, 1)]);
}

#[test]
fn left_half_relabels_shoulders() {
    let mut m = Middleman::new("Nintendo Switch Left Joy-Con");
    assert!(!m.is_right);
    assert_eq!(m.translate(Event::key(BTN_TR, 1)), vec![Event::key(BTN_TL, 1)]);
    assert_eq!(m.translate(Event::key(BTN_TR2, 1)), vec![Event::key(BTN_TR, 1)]);
    assert_eq!(m.translate(Event::key(BTN_SOUTH, 1)), vec![Event::key(BTN_SOUTH, 1)]);
    assert_eq!(m.translate(Event::abs(ABS_HAT0X, 1)), vec![Event::abs(ABS_HAT0X, 1)]);
}

#[test]
fn stick_becomes_debounced_hat_steps() {
    let mut m = Middleman::new("Nintendo Switch Left Joy-Con");
    let raw = [0, 5000, 20000, 25000, 30000, 10000, -10000, -10001, -20000, 0];
    let mut emitted = Vec::new();
    for v in raw {
        emitted.extend(m.translate(Event::abs(ABS_Y, v)));
    }
    // ABS_Y keeps its sign on the vertical hat; steps: 0 0 1 1 1 0 0 -1 -1 0.
    assert_eq!(
        emitted,
        vec![
            Event::abs(ABS_HAT0Y, 1),
            Event::abs(ABS_HAT0Y, 0),
            Event::abs(ABS_HAT0Y, -1),
            Event::abs(ABS_HAT0Y, 0),
        ]
    );
}

#[test]
fn repeated_samples_emit_nothing_more() {
    let mut a = Middleman::new("Nintendo Switch Left Joy-Con");
    let mut b = Middleman::new("Nintendo Switch Left Joy-Con");
    let once = [20000, -20000, 0];
    let repeated = [20000, 20000, 20000, -20000, -20000, 0, 0];
    let out_a: Vec<Event> = once.iter().flat_map(|v| a.translate(Event::abs(ABS_Y, *v))).collect();
    let out_b: Vec<Event> = repeated.iter().flat_map(|v| b.translate(Event::abs(ABS_Y, *v))).collect();
    assert_eq!(out_a, out_b);
    assert_eq!(out_a.len(), 3);
}

#[test]
fn stick_polarity_per_axis() {
    let mut m = Middleman::new("Nintendo Switch Right Joy-Con");
    assert_eq!(m.translate(Event::abs(ABS_X, 20000)), vec![Event::abs(ABS_HAT0X, -1)]);
    assert_eq!(m.translate(Event::abs(ABS_RX, 20000)), vec![Event::abs(ABS_HAT0X, 1)]);
    assert_eq!(m.translate(Event::abs(ABS_RX, 20000)), vec![]);
    assert_eq!(m.translate(Event::abs(ABS_Y, -20000)), vec![Event::abs(ABS_HAT0Y, -1)]);
}

#[test]
fn ordinary_source_is_bound_at_once() {
    let plan = vec![PairingGroup::Halves(Some(0), None), PairingGroup::Single(2), PairingGroup::Single(1)];
    assert_eq!(immediate_choice(&plan), Some(2));
    assert_eq!(immediate_choice(&vec![PairingGroup::Halves(Some(0), Some(1))]), None);
    assert_eq!(immediate_choice(&vec![]), None);
}

#[test]
fn step_reads_right_then_left() {
    let mut s = ChordState::new();
    assert_eq!(s.step(Some(Event::key(BTN_TR, 1)), None), ChordDecision::Continue);
    assert_eq!(s.step(None, Some(Event::key(BTN_TL, 1))), ChordDecision::Combine);
    let mut t = ChordState::new();
    assert_eq!(t.step(None, None), ChordDecision::Continue);
    assert_eq!(t.step(Some(Event::key(BTN_TL, 1)), Some(Event::key(BTN_TR2, 1))), ChordDecision::Continue);
    assert_eq!(t.step(Some(Event::key(BTN_TL2, 1)), Some(Event::key(BTN_TR, 1))), ChordDecision::SelfRemapLeft);
}
