use rinputer::device::{discover, get_device_quirks, DeviceInfo, SourceCaps, VIRTUAL_DEVICE_VERSION};
use rinputer::event::{
    ABS_HAT0X, ABS_HAT0Y, ABS_RZ, ABS_X, ABS_Y, ABS_Z, BTN_DPAD_DOWN, BTN_DPAD_LEFT, BTN_DPAD_RIGHT,
    BTN_DPAD_UP, BTN_EAST, BTN_MODE, BTN_SOUTH, BTN_START, BTN_THUMBL, BTN_TL2, BTN_TR2, BTN_Z,
    KEY_D, KEY_F12,
};
use rinputer::quirks::{get_dmi_quirk, DmiIds, InputRemap};

fn dev(name: Option<&str>, version: u16, keys: Option<Vec<u16>>, axes: Option<Vec<u16>>) -> DeviceInfo {
    DeviceInfo {
        name: name.map(|s| s.to_string()),
        phys: Some("usb-0000:09:00.3-3/input0".to_string()),
        version,
        keys,
        axes,
    }
}

#[test]
fn gamepad_needs_south_or_thumb_button() {
    assert!(dev(None, 1, Some(vec![BTN_SOUTH]), None).is_gamepad());
    assert!(dev(None, 1, Some(vec![BTN_THUMBL]), None).is_gamepad());
    assert!(!dev(None, 1, Some(vec![BTN_EAST, KEY_D]), None).is_gamepad());
    assert!(!dev(None, 1, None, None).is_gamepad());
}

#[test]
fn own_virtual_device_is_never_discovered() {
    let devs = vec![
        dev(Some("pad"), 1, Some(vec![BTN_SOUTH]), Some(vec![ABS_X, ABS_Y])),
        dev(Some("ours"), VIRTUAL_DEVICE_VERSION, Some(vec![BTN_SOUTH]), Some(vec![ABS_X, ABS_Y])),
        dev(Some("keyboard"), 1, Some(vec![KEY_D]), None),
        dev(Some("stick"), 7, Some(vec![BTN_THUMBL]), None),
    ];
    assert!(devs[1].is_gamepad());
    assert!(!devs[1].is_eligible());
    assert_eq!(discover(&devs), vec![0, 3]);
    assert_eq!(discover(&vec![]), Vec::<usize>::new());
}

#[test]
fn capability_classes() {
    let full = dev(None, 1, Some(vec![BTN_SOUTH]), Some(vec![ABS_X, ABS_Y]));
    assert_eq!(full.get_capabilities(), SourceCaps::FullX360);
    let no_stick = dev(None, 1, Some(vec![BTN_SOUTH]), Some(vec![ABS_X]));
    assert_eq!(no_stick.get_capabilities(), SourceCaps::DpadAndAB);
    let no_axes = dev(None, 1, Some(vec![BTN_SOUTH]), None);
    assert_eq!(no_axes.get_capabilities(), SourceCaps::DpadAndAB);
    let no_south = dev(None, 1, Some(vec![BTN_THUMBL]), Some(vec![ABS_X, ABS_Y]));
    assert_eq!(no_south.get_capabilities(), SourceCaps::DpadAndAB);
    // Documented quirk: with neither key nor axis introspection the class falls back to a full gamepad.
    let unknown_both = dev(None, 1, None, None);
    assert_eq!(unknown_both.get_capabilities(), SourceCaps::FullX360);
    // Keys unknown but axes known: no fallback.
    let unknown_keys = dev(None, 1, None, Some(vec![ABS_X, ABS_Y]));
    assert_eq!(unknown_keys.get_capabilities(), SourceCaps::DpadAndAB);
}

#[test]
fn names_and_paths() {
    let d = dev(Some("Pad"), 1, None, None);
    assert_eq!(d.name_with(&Some("Override".to_string())), "Override");
    assert_eq!(d.name_with(&None), "Pad");
    assert_eq!(dev(None, 1, None, None).name_with(&None), "Linux event device");
    assert_eq!(d.path(), "usb-0000:09:00.3-3/input0");
    let mut no_phys = d;
    no_phys.phys = None;
    assert_eq!(no_phys.path(), "Unknown");
}

#[test]
fn left_joycon_quirks() {
    let d = dev(Some("Nintendo Switch Left Joy-Con"), 1, None, None);
    let q = get_device_quirks(&d, None, Some("Nintendo Co., Ltd. Joy-Con".to_string()));
    assert_eq!(q.override_name.as_deref(), Some("Nintendo Co., Ltd. Joy-Con"));
    assert_eq!(
        q.remap_events,
        vec![
            InputRemap::KeyToAbs(BTN_TL2, ABS_Z),
            InputRemap::KeyToKey(BTN_Z, BTN_START),
            InputRemap::KeyToAbs(BTN_DPAD_LEFT, ABS_HAT0X),
            InputRemap::KeyToAbs(BTN_DPAD_RIGHT, ABS_HAT0X),
            InputRemap::KeyToAbs(BTN_DPAD_DOWN, ABS_HAT0Y),
            InputRemap::KeyToAbs(BTN_DPAD_UP, ABS_HAT0Y),
        ]
    );
}

#[test]
fn built_in_controller_quirks() {
    let platform = DmiIds {
        board_vendor: "AYANEO".to_string(),
        board_name: "AIR".to_string(),
        product_vendor: String::new(),
        product_name: String::new(),
    };
    let d = dev(Some("AT Translated Set 2 keyboard"), 1, None, None);
    let q = get_device_quirks(&d, get_dmi_quirk(&platform), Some("ignored".to_string()));
    assert_eq!(q.override_name.as_deref(), Some("Built-in Controller"));
    assert_eq!(
        q.remap_events,
        vec![
            InputRemap::KeyToKey(KEY_F12, BTN_MODE),
            InputRemap::KeyToQuickAccessMenu(KEY_D),
            InputRemap::KeyToAbs(BTN_TR2, ABS_RZ),
        ]
    );
}

#[test]
fn unnamed_device_without_path_gets_the_trigger_rule() {
    let mut d = dev(None, 1, None, None);
    d.phys = None;
    let q = get_device_quirks(&d, None, Some("unused".to_string()));
    assert_eq!(q.override_name, None);
    assert_eq!(q.remap_events, vec![InputRemap::KeyToAbs(BTN_TR2, ABS_RZ)]);
}

#[test]
fn other_named_device_gets_the_trigger_rule() {
    let d = dev(Some("Nintendo Switch Right Joy-Con"), 1, None, None);
    let q = get_device_quirks(&d, None, None);
    assert_eq!(q.override_name, None);
    assert_eq!(q.remap_events, vec![InputRemap::KeyToAbs(BTN_TR2, ABS_RZ)]);
}
