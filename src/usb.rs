//! Display names from USB topology: where a device's sysfs entry lies, and
//! how its manufacturer and product strings combine.

use vstd::prelude::*;
use crate::text::{
    decimal, find_char, find_char_from, has_prefix, parsed_unsigned, parse_unsigned, push_decimal,
    str_starts_with, trim, trimmed,
};

verus! {

/// Where a USB device's sysfs entry lies: the PCI id of its host controller,
/// its bus number and its port path.
pub struct UsbLocation {
    pub pci_id: String,
    pub bus: u32,
    pub port: String,
}

/// The pieces of `usb-<pci-id>-<port>/<rest>`: the PCI id, and the port,
/// which also names the bus; `None` for any other shape.
pub open spec fn usb_phys_parts(phys: Seq<char>) -> Option<(Seq<char>, Seq<char>)> {
    if !has_prefix(phys, "usb-"@) {
        None
    } else {
        let rest = phys.subrange(4, phys.len() as int);
        let head = rest.subrange(0, find_char(rest, '/', 0));
        let d = find_char(head, '-', 0);
        if d == head.len() {
            None
        } else {
            let after = head.subrange(d + 1, head.len() as int);
            Some((head.subrange(0, d), after.subrange(0, find_char(after, '-', 0))))
        }
    }
}

/// Parses a physical path such as `usb-0000:09:00.3-3/input0`. `None` unless
/// it has that shape and its port is a bus number.
pub fn parse_usb_phys(phys: &str) -> (r: Option<UsbLocation>)
    ensures
        match usb_phys_parts(phys@) {
            None => r is None,
            Some((pci, port)) => match parsed_unsigned(port, u32::MAX as nat) {
                None => r is None,
                Some(bus) => r is Some && r->0.pci_id@ == pci && r->0.port@ == port
                    && r->0.bus as nat == bus,
            },
        },
{
    proof {
        reveal_strlit("usb-");
    }
    if !str_starts_with(phys, "usb-") {
        return None;
    }
    let n = phys.unicode_len();
    let rest = phys.substring_char(4, n);
    let slash = find_char_from(rest, '/', 0);
    let head = rest.substring_char(0, slash);
    let hl = head.unicode_len();
    let d = find_char_from(head, '-', 0);
    if d == hl {
        return None;
    }
    let after = head.substring_char(d + 1, hl);
    let e = find_char_from(after, '-', 0);
    let port = after.substring_char(0, e);
    match parse_unsigned(port, 0xffff_ffff) {
        None => None,
        Some(bus) => Some(UsbLocation {
            pci_id: String::from_str(head.substring_char(0, d)),
            bus: bus as u32,
            port: String::from_str(port),
        }),
    }
}

impl UsbLocation {
    /// The sysfs directory of the host controller.
    pub fn pci_dir(&self) -> (r: String)
        ensures
            r@ == "/sys/bus/pci/devices/"@ + self.pci_id@,
    {
        let mut r = String::from_str("/sys/bus/pci/devices/");
        r.append(self.pci_id.as_str());
        r
    }

    /// The sysfs directory of the device: `<pci_dir>/usb<bus>/<bus>-<port>`.
    pub fn device_dir(&self) -> (r: String)
        ensures
            r@ == "/sys/bus/pci/devices/"@ + self.pci_id@ + "/usb"@ + decimal(self.bus as nat) + "/"@
                + decimal(self.bus as nat) + "-"@ + self.port@,
    {
        let mut r = self.pci_dir();
        r.append("/usb");
        push_decimal(&mut r, self.bus as usize);
        r.append("/");
        push_decimal(&mut r, self.bus as usize);
        r.append("-");
        r.append(self.port.as_str());
        r
    }
}

/// A device name from its manufacturer and product strings: the product
/// alone when it already begins with the manufacturer; the two run together
/// when either is empty; else the two separated by a space.
pub open spec fn joined_name(m: Seq<char>, p: Seq<char>) -> Seq<char> {
    if has_prefix(p, m) {
        p
    } else if m.len() == 0 || p.len() == 0 {
        m + p
    } else {
        m + " "@ + p
    }
}

/// Combines already trimmed manufacturer and product strings.
pub fn join_manufacturer_product(m: &str, p: &str) -> (r: String)
    ensures
        r@ == joined_name(m@, p@),
{
    if str_starts_with(p, m) {
        String::from_str(p)
    } else if m.unicode_len() == 0 || p.unicode_len() == 0 {
        let mut r = String::from_str(m);
        r.append(p);
        r
    } else {
        let mut r = String::from_str(m);
        r.append(" ");
        r.append(p);
        r
    }
}

/// The display name from the manufacturer and product strings as read from
/// sysfs, each trimmed first.
pub fn usb_display_name(manufacturer: &str, product: &str) -> (r: String)
    ensures
        r@ == joined_name(trimmed(manufacturer@), trimmed(product@)),
{
    join_manufacturer_product(trim(manufacturer), trim(product))
}

} // verus!
