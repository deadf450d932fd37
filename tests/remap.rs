use rinputer::event::{
    Event, ABS_HAT0X, ABS_HAT0Y, ABS_RZ, ABS_Z, BTN_DPAD_DOWN, BTN_DPAD_LEFT, BTN_DPAD_RIGHT,
    BTN_DPAD_UP, BTN_MODE, BTN_SOUTH, BTN_START, BTN_TL2, BTN_TR2, BTN_Z, KEY_D, KEY_F12,
};
use rinputer::quirks::{
    dmi_quirks, get_dmi_quirk, match_str, remap_event, rules_apply_to, DmiIds, InputRemap,
};

fn ids(bv: &str, bn: &str, pv: &str, pn: &str) -> DmiIds {
    DmiIds {
        board_vendor: bv.to_string(),
        board_name: bn.to_string(),
        product_vendor: pv.to_string(),
        product_name: pn.to_string(),
    }
}

#[test]
fn empty_criterion_matches_anything() {
    for relaxed in [false, true] {
        assert!(match_str("", "", relaxed));
        assert!(match_str("", "AYANEO", relaxed));
        assert!(match_str("", "<failed to read>", relaxed));
    }
}

#[test]
fn exact_criterion_needs_equality() {
    assert!(match_str("AYANEO", "AYANEO", false));
    assert!(!match_str("AYANEO", "ayaneo", false));
    assert!(!match_str("AYANEO", "AYANEO ", false));
}

#[test]
fn relaxed_criterion_accepts_containment_either_way() {
    assert!(match_str("AIR", "AIR Pro", true));
    assert!(match_str("AIR Pro", "AIR", true));
    assert!(!match_str("AIR", "NEXT", true));
}

#[test]
fn quirk_table_order() {
    let table = dmi_quirks();
    assert_eq!(table.len(), 2);
    assert_eq!(table[0].board_name, "AIR");
    assert_eq!(table[1].board_name, "NEXT");
    assert_eq!(
        table[0].remap_codes,
        vec![InputRemap::KeyToKey(KEY_F12, BTN_MODE), InputRemap::KeyToQuickAccessMenu(KEY_D)]
    );
}

#[test]
fn quirk_lookup_matches_platform() {
    let q = get_dmi_quirk(&ids("AYANEO", "AIR Pro", "x", "y")).unwrap();
    assert_eq!(q.board_name, "AIR");
    let q = get_dmi_quirk(&ids("AYANEO", "NEXT", "", "")).unwrap();
    assert_eq!(q.board_name, "NEXT");
    assert!(get_dmi_quirk(&ids("ayaneo", "AIR", "", "")).is_none());
    assert!(get_dmi_quirk(&ids("<failed to read>", "<failed to read>", "", "")).is_none());
}

#[test]
fn key_to_key_keeps_value() {
    let rule = InputRemap::KeyToKey(KEY_F12, BTN_MODE);
    for v in [0, 1, 2] {
        assert_eq!(rule.apply_quirk(Event::key(KEY_F12, v)), Some(Event::key(BTN_MODE, v)));
    }
    assert_eq!(rule.apply_quirk(Event::key(KEY_D, 1)), None);
}

#[test]
fn trigger_rule_scales_by_255() {
    for axis in [ABS_Z, ABS_RZ] {
        let rule = InputRemap::KeyToAbs(BTN_TR2, axis);
        assert_eq!(rule.apply_quirk(Event::key(BTN_TR2, 0)), Some(Event::abs(axis, 0)));
        assert_eq!(rule.apply_quirk(Event::key(BTN_TR2, 1)), Some(Event::abs(axis, 255)));
    }
}

#[test]
fn hat_rules_give_directions() {
    let cases = [
        (BTN_DPAD_RIGHT, ABS_HAT0X, 1),
        (BTN_DPAD_LEFT, ABS_HAT0X, -1),
        (BTN_DPAD_DOWN, ABS_HAT0Y, 1),
        (BTN_DPAD_UP, ABS_HAT0Y, -1),
    ];
    for (key, axis, dir) in cases {
        let rule = InputRemap::KeyToAbs(key, axis);
        assert_eq!(rule.apply_quirk(Event::key(key, 1)), Some(Event::abs(axis, dir)));
        assert_eq!(rule.apply_quirk(Event::key(key, 0)), Some(Event::abs(axis, 0)));
    }
    let odd = InputRemap::KeyToAbs(BTN_SOUTH, ABS_HAT0X);
    assert_eq!(odd.apply_quirk(Event::key(BTN_SOUTH, 1)), None);
    assert_eq!(odd.apply_quirk(Event::key(BTN_SOUTH, 0)), Some(Event::abs(ABS_HAT0X, 0)));
}

#[test]
fn non_key_events_are_not_remapped() {
    let rule = InputRemap::KeyToKey(0, BTN_MODE);
    assert_eq!(rule.apply_quirk(Event::abs(0, 1)), None);
}

#[test]
fn quick_access_menu_yields_nothing() {
    let rule = InputRemap::KeyToQuickAccessMenu(KEY_D);
    assert_eq!(rule.apply_quirk(Event::key(KEY_D, 1)), None);
}

#[test]
fn first_matching_rule_wins() {
    let rules = vec![
        InputRemap::KeyToQuickAccessMenu(BTN_Z),
        InputRemap::KeyToKey(BTN_Z, BTN_START),
        InputRemap::KeyToKey(BTN_Z, BTN_MODE),
        InputRemap::KeyToAbs(BTN_TL2, ABS_Z),
    ];
    assert_eq!(remap_event(&rules, Event::key(BTN_Z, 1)), Event::key(BTN_START, 1));
    assert_eq!(remap_event(&rules, Event::key(BTN_TL2, 1)), Event::abs(ABS_Z, 255));
    assert_eq!(remap_event(&rules, Event::key(BTN_SOUTH, 1)), Event::key(BTN_SOUTH, 1));
    assert_eq!(remap_event(&vec![], Event::key(BTN_SOUTH, 1)), Event::key(BTN_SOUTH, 1));
}

#[test]
fn codes_agree_with_evdev() {
    assert_eq!(BTN_SOUTH, evdev::Key::BTN_SOUTH.code());
    assert_eq!(BTN_MODE, evdev::Key::BTN_MODE.code());
    assert_eq!(BTN_DPAD_UP, evdev::Key::BTN_DPAD_UP.code());
    assert_eq!(KEY_F12, evdev::Key::KEY_F12.code());
    assert_eq!(ABS_RZ, evdev::AbsoluteAxisType::ABS_RZ.0);
    assert_eq!(ABS_HAT0Y, evdev::AbsoluteAxisType::ABS_HAT0Y.0);
    assert_eq!(rinputer::event::EV_KEY, evdev::EventType::KEY.0);
    assert_eq!(rinputer::event::EV_ABS, evdev::EventType::ABSOLUTE.0);
}

#[test]
fn overflowing_trigger_values_are_detected() {
    let rules = vec![InputRemap::KeyToKey(BTN_Z, BTN_START), InputRemap::KeyToAbs(BTN_TR2, ABS_RZ)];
    assert!(rules_apply_to(&rules, Event::key(BTN_TR2, 1)));
    assert!(rules_apply_to(&rules, Event::key(BTN_TR2, 8421504)));
    assert!(!rules_apply_to(&rules, Event::key(BTN_TR2, 8421505)));
    assert!(!rules_apply_to(&rules, Event::key(BTN_TR2, -8421505)));
    assert!(rules_apply_to(&rules, Event::key(BTN_Z, i32::MAX)));
    assert!(rules_apply_to(&rules, Event::abs(BTN_TR2, i32::MAX)));
}
