//! Input devices as the pipeline sees them: which are gamepads, their
//! capability class, their names, and the quirks resolved for them at open time.

use vstd::prelude::*;
use crate::event::{
    BTN_SOUTH, BTN_THUMBL, BTN_TR2, BTN_TL2, BTN_Z, BTN_START, BTN_DPAD_LEFT, BTN_DPAD_RIGHT,
    BTN_DPAD_DOWN, BTN_DPAD_UP, ABS_X, ABS_Y, ABS_Z, ABS_RZ, ABS_HAT0X, ABS_HAT0Y,
};
use crate::quirks::{DmiQuirk, InputRemap};
use crate::text::{has_substring, str_contains};

verus! {

/// Version marker carried by the virtual devices this system creates.
pub const VIRTUAL_DEVICE_VERSION: u16 = 0x2137;

/// How rich a source's layout is.
#[derive(Clone, Copy, Debug, PartialEq, Eq, Structural)]
pub enum SourceCaps {
    /// A complete analog gamepad.
    FullX360,
    /// Buttons and a digital hat, no analog sticks or triggers.
    DpadAndAB,
}

/// What the pipeline reads from a kernel input device when it probes it.
#[derive(Clone, Debug)]
pub struct DeviceInfo {
    /// The device's own name, if it reports one.
    pub name: Option<String>,
    /// The physical topology path, if it reports one.
    pub phys: Option<String>,
    /// The version field of the device's input id.
    pub version: u16,
    /// The key codes it supports, where key capabilities can be read.
    pub keys: Option<Vec<u16>>,
    /// The absolute axes it supports, where axis capabilities can be read.
    pub axes: Option<Vec<u16>>,
}

pub open spec fn supports(set: Option<Vec<u16>>, code: u16) -> bool {
    match set {
        Some(v) => v@.contains(code),
        None => false,
    }
}

impl DeviceInfo {
    /// It exposes a primary action button or a thumb-click button.
    pub open spec fn gamepad_like(&self) -> bool {
        supports(self.keys, BTN_SOUTH) || supports(self.keys, BTN_THUMBL)
    }

    /// It is one of the virtual devices this system creates.
    pub open spec fn own_output(&self) -> bool {
        self.version == VIRTUAL_DEVICE_VERSION
    }

    /// It may be opened as a source.
    pub open spec fn eligible(&self) -> bool {
        self.gamepad_like() && !self.own_output()
    }

    pub open spec fn caps(&self) -> SourceCaps {
        match self.keys {
            None => if self.axes is None {
                SourceCaps::FullX360
            } else {
                SourceCaps::DpadAndAB
            },
            Some(k) => if k@.contains(BTN_SOUTH) && supports(self.axes, ABS_X) && supports(self.axes, ABS_Y) {
                SourceCaps::FullX360
            } else {
                SourceCaps::DpadAndAB
            },
        }
    }

    /// Whether it exposes a primary action button or a thumb-click button.
    pub fn is_gamepad(&self) -> (r: bool)
        ensures
            r == self.gamepad_like(),
    {
        has_code(&self.keys, BTN_SOUTH) || has_code(&self.keys, BTN_THUMBL)
    }

    /// Whether it may be opened as a source: a gamepad that is not this
    /// system's own virtual output.
    pub fn is_eligible(&self) -> (r: bool)
        ensures
            r == self.eligible(),
    {
        self.is_gamepad() && self.version != VIRTUAL_DEVICE_VERSION
    }

    /// `FullX360` when the primary action button comes with both primary
    /// stick axes, and when neither key nor axis capabilities can be read;
    /// `DpadAndAB` otherwise (also when only key capabilities are unknown).
    pub fn get_capabilities(&self) -> (r: SourceCaps)
        ensures
            r == self.caps(),
    {
        match &self.keys {
            None => if self.axes.is_none() {
                SourceCaps::FullX360
            } else {
                SourceCaps::DpadAndAB
            },
            Some(k) => {
                if contains_code(k, BTN_SOUTH) && has_code(&self.axes, ABS_X) && has_code(&self.axes, ABS_Y) {
                    SourceCaps::FullX360
                } else {
                    SourceCaps::DpadAndAB
                }
            },
        }
    }

    /// The name the source reports: the override if any, else the device's
    /// own name, else a generic one.
    pub fn name_with(&self, override_name: &Option<String>) -> (r: String)
        ensures
            r@ == (match override_name {
                Some(n) => n@,
                None => match self.name {
                    Some(n) => n@,
                    None => "Linux event device"@,
                },
            }),
    {
        match override_name {
            Some(n) => n.clone(),
            None => match &self.name {
                Some(n) => n.clone(),
                None => String::from_str("Linux event device"),
            },
        }
    }

    /// The topology path the source reports, or `Unknown`.
    pub fn path(&self) -> (r: String)
        ensures
            r@ == (match self.phys {
                Some(p) => p@,
                None => "Unknown"@,
            }),
    {
        match &self.phys {
            Some(p) => p.clone(),
            None => String::from_str("Unknown"),
        }
    }
}

fn contains_code(v: &Vec<u16>, code: u16) -> (r: bool)
    ensures
        r == v@.contains(code),
{
    let mut i: usize = 0;
    while i < v.len()
        invariant
            i <= v@.len(),
            forall|j: int| 0 <= j < i ==> v@[j] != code,
        decreases v@.len() - i,
    {
        if v[i] == code {
            return true;
        }
        i += 1;
    }
    false
}

fn has_code(set: &Option<Vec<u16>>, code: u16) -> (r: bool)
    ensures
        r == supports(*set, code),
{
    match set {
        Some(v) => contains_code(v, code),
        None => false,
    }
}

/// Indices, in order, of the devices among `devs[..n]` that may be opened.
pub open spec fn eligible_indices(devs: Seq<DeviceInfo>, n: int) -> Seq<usize>
    decreases n,
{
    if n <= 0 {
        Seq::empty()
    } else if devs[n - 1].eligible() {
        eligible_indices(devs, n - 1).push((n - 1) as usize)
    } else {
        eligible_indices(devs, n - 1)
    }
}

/// Discovery: the indices, in order, of the probed devices that may be opened.
pub fn discover(devs: &Vec<DeviceInfo>) -> (r: Vec<usize>)
    ensures
        r@ == eligible_indices(devs@, devs@.len() as int),
{
    let mut r: Vec<usize> = Vec::new();
    let mut i: usize = 0;
    while i < devs.len()
        invariant
            i <= devs@.len(),
            r@ == eligible_indices(devs@, i as int),
        decreases devs@.len() - i,
    {
        if devs[i].is_eligible() {
            r.push(i);
        }
        i += 1;
    }
    r
}

/// A device carrying this system's version marker is never opened as a
/// source, whatever buttons it exposes.
pub proof fn own_output_is_never_opened(d: DeviceInfo)
    ensures
        d.own_output() ==> !d.eligible(),
        d.gamepad_like() && !d.own_output() ==> d.eligible(),
{
}

/// Discovery never yields one of this system's own virtual devices, even one
/// that would pass as a gamepad, and yields only gamepads.
pub proof fn discovery_excludes_own_output(devs: Seq<DeviceInfo>, n: int)
    requires
        0 <= n <= devs.len() <= usize::MAX,
    ensures
        forall|k: int| 0 <= k < eligible_indices(devs, n).len() ==> {
            let i = #[trigger] eligible_indices(devs, n)[k] as int;
            &&& 0 <= i < n
            &&& !devs[i].own_output()
            &&& devs[i].gamepad_like()
        },
    decreases n,
{
    if n > 0 {
        discovery_excludes_own_output(devs, n - 1);
        let prev = eligible_indices(devs, n - 1);
        let cur = eligible_indices(devs, n);
        assert forall|k: int| 0 <= k < cur.len() implies {
            let i = #[trigger] cur[k] as int;
            &&& 0 <= i < n
            &&& !devs[i].own_output()
            &&& devs[i].gamepad_like()
        } by {
            if k < prev.len() {
                assert(cur[k] == prev[k]);
            } else {
                assert(cur[k] == (n - 1) as usize);
            }
        }
    }
}

/// The rules for a left half of a split controller.
pub open spec fn left_joycon_remaps() -> Seq<InputRemap> {
    seq![
        InputRemap::KeyToAbs(BTN_TL2, ABS_Z),
        InputRemap::KeyToKey(BTN_Z, BTN_START),
        InputRemap::KeyToAbs(BTN_DPAD_LEFT, ABS_HAT0X),
        InputRemap::KeyToAbs(BTN_DPAD_RIGHT, ABS_HAT0X),
        InputRemap::KeyToAbs(BTN_DPAD_DOWN, ABS_HAT0Y),
        InputRemap::KeyToAbs(BTN_DPAD_UP, ABS_HAT0Y),
    ]
}

/// The rule every other device receives, named or not.
pub open spec fn default_remaps() -> Seq<InputRemap> {
    seq![InputRemap::KeyToAbs(BTN_TR2, ABS_RZ)]
}

/// The rules a device receives from its name alone.
pub open spec fn name_remaps(name: Option<String>) -> Seq<InputRemap> {
    match name {
        None => default_remaps(),
        Some(n) => if has_substring(n@, "Left Joy-Con"@) {
            left_joycon_remaps()
        } else {
            default_remaps()
        },
    }
}

/// What is resolved for a device when it is opened.
pub struct DeviceQuirks {
    pub override_name: Option<String>,
    pub remap_events: Vec<InputRemap>,
}

/// Resolves a device's quirks from its probed description, the platform's
/// matching quirk record `dmi` and the name read from the USB topology
/// (`usb_name`, looked up only for devices with a topology path).
///
/// A device with a topology path is renamed `Built-in Controller` when a
/// platform record matched, and otherwise takes `usb_name`. Its rules are the
/// record's rules followed by the left-half rules when its name says
/// `Left Joy-Con`, and by the right-trigger rule otherwise (also when it
/// reports no name).
pub fn get_device_quirks(dev: &DeviceInfo, dmi: Option<DmiQuirk>, usb_name: Option<String>) -> (r: DeviceQuirks)
    ensures
        dev.phys is None ==> r.override_name is None,
        dev.phys is Some && dmi is None ==> r.override_name == usb_name,
        dev.phys is Some && dmi is Some ==> r.override_name is Some
            && r.override_name->0@ == "Built-in Controller"@,
        r.remap_events@ == (match dmi {
            Some(q) => q.remap_codes@,
            None => Seq::empty(),
        }) + name_remaps(dev.name),
{
    let has_dmi = dmi.is_some();
    let override_name = match &dev.phys {
        None => None,
        Some(_) => if has_dmi {
            Some(String::from_str("Built-in Controller"))
        } else {
            usb_name
        },
    };
    let mut remaps: Vec<InputRemap> = match dmi {
        Some(q) => q.remap_codes,
        None => Vec::new(),
    };
    let left_half = match &dev.name {
        None => false,
        Some(n) => str_contains(n.as_str(), "Left Joy-Con"),
    };
    let mut extra = if left_half {
        let v = vec![
            InputRemap::KeyToAbs(BTN_TL2, ABS_Z),
            InputRemap::KeyToKey(BTN_Z, BTN_START),
            InputRemap::KeyToAbs(BTN_DPAD_LEFT, ABS_HAT0X),
            InputRemap::KeyToAbs(BTN_DPAD_RIGHT, ABS_HAT0X),
            InputRemap::KeyToAbs(BTN_DPAD_DOWN, ABS_HAT0Y),
            InputRemap::KeyToAbs(BTN_DPAD_UP, ABS_HAT0Y),
        ];
        assert(v@ =~= left_joycon_remaps());
        v
    } else {
        let v = vec![InputRemap::KeyToAbs(BTN_TR2, ABS_RZ)];
        assert(v@ =~= default_remaps());
        v
    };
    remaps.append(&mut extra);
    assert(name_remaps(dev.name) == if left_half { left_joycon_remaps() } else { default_remaps() });
    DeviceQuirks { override_name, remap_events: remaps }
}

} // verus!
