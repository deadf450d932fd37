use rinputer::usb::{join_manufacturer_product, parse_usb_phys, usb_display_name};

#[test]
fn parses_usb_topology_path() {
    let loc = parse_usb_phys("usb-0000:09:00.3-3/input0").unwrap();
    assert_eq!(loc.pci_id, "0000:09:00.3");
    assert_eq!(loc.bus, 3);
    assert_eq!(loc.port, "3");
    assert_eq!(loc.pci_dir(), "/sys/bus/pci/devices/0000:09:00.3");
    assert_eq!(loc.device_dir(), "/sys/bus/pci/devices/0000:09:00.3/usb3/3-3");
}

#[test]
fn rejects_other_paths() {
    assert!(parse_usb_phys("isa0060/serio0/input0").is_none());
    assert!(parse_usb_phys("usb-0000:09:00.3/input0").is_none());
    assert!(parse_usb_phys("usb-0000:00:14.0-1.2/input0").is_none());
    assert!(parse_usb_phys("").is_none());
}

#[test]
fn multi_digit_bus() {
    let loc = parse_usb_phys("usb-0000:00:14.0-12-extra/input1").unwrap();
    assert_eq!(loc.bus, 12);
    assert_eq!(loc.device_dir(), "/sys/bus/pci/devices/0000:00:14.0/usb12/12-12");
}

#[test]
fn manufacturer_and_product_names() {
    assert_eq!(usb_display_name("Nintendo\n", "Pro Controller\n"), "Nintendo Pro Controller");
    assert_eq!(usb_display_name("  Sony ", "Sony Wireless Controller\n"), "Sony Wireless Controller");
    assert_eq!(usb_display_name("", "Pad\n"), "Pad");
    assert_eq!(usb_display_name("Maker\n", ""), "Maker");
    assert_eq!(join_manufacturer_product("a", "b"), "a b");
}
