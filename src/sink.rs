//! Sinks: the virtual gamepad's fixed layout and what a sink reports.

use vstd::prelude::*;
use crate::device::{SourceCaps, VIRTUAL_DEVICE_VERSION};
use crate::event::{
    BTN_SOUTH, BTN_EAST, BTN_NORTH, BTN_WEST, BTN_TL, BTN_TR, BTN_SELECT, BTN_START, BTN_MODE,
    BTN_THUMBL, BTN_THUMBR, ABS_X, ABS_Y, ABS_RX, ABS_RY, ABS_Z, ABS_RZ, ABS_HAT0X, ABS_HAT0Y,
};
use crate::pairing::SourceInfo;

verus! {

/// Bus type of the virtual device: USB.
pub const BUS_USB: u16 = 0x03;
/// Vendor id of the virtual device.
pub const VIRTUAL_VENDOR: u16 = 0x045e;
/// Product id of the virtual device.
pub const VIRTUAL_PRODUCT: u16 = 0x028e;

pub const MIN_OUT_ANALOG: i32 = -32768;
pub const MAX_OUT_ANALOG: i32 = 32767;
pub const ANALOG_FUZZ: i32 = 16;
pub const ANALOG_FLAT: i32 = 256;
pub const MIN_OUT_TRIG: i32 = 0;
pub const MAX_OUT_TRIG: i32 = 255;
pub const MIN_OUT_HAT: i32 = -1;
pub const MAX_OUT_HAT: i32 = 1;

/// The name of the one sink type.
pub open spec fn gamepad_sink_name() -> Seq<char> {
    "Gamepad device"@
}

/// One absolute axis of the virtual device.
#[derive(Clone, Copy, Debug, PartialEq, Eq, Structural)]
pub struct AxisSetup {
    pub axis: u16,
    pub value: i32,
    pub minimum: i32,
    pub maximum: i32,
    pub fuzz: i32,
    pub flat: i32,
    pub resolution: i32,
}

/// The virtual device's identity, buttons and axes.
pub struct GamepadLayout {
    pub bus_type: u16,
    pub vendor: u16,
    pub product: u16,
    pub version: u16,
    pub keys: Vec<u16>,
    pub axes: Vec<AxisSetup>,
}

pub open spec fn gamepad_keys() -> Seq<u16> {
    seq![
        BTN_SOUTH, BTN_EAST, BTN_NORTH, BTN_WEST, BTN_TL, BTN_TR, BTN_SELECT, BTN_START, BTN_MODE,
        BTN_THUMBL, BTN_THUMBR,
    ]
}

pub open spec fn stick_setup(axis: u16) -> AxisSetup {
    AxisSetup {
        axis,
        value: 0,
        minimum: MIN_OUT_ANALOG,
        maximum: MAX_OUT_ANALOG,
        fuzz: ANALOG_FUZZ,
        flat: ANALOG_FLAT,
        resolution: 0,
    }
}

pub open spec fn ranged_setup(axis: u16, minimum: i32, maximum: i32) -> AxisSetup {
    AxisSetup { axis, value: 0, minimum, maximum, fuzz: 0, flat: 0, resolution: 0 }
}

pub open spec fn gamepad_axes() -> Seq<AxisSetup> {
    seq![
        stick_setup(ABS_X),
        stick_setup(ABS_Y),
        stick_setup(ABS_RX),
        stick_setup(ABS_RY),
        ranged_setup(ABS_Z, MIN_OUT_TRIG, MAX_OUT_TRIG),
        ranged_setup(ABS_RZ, MIN_OUT_TRIG, MAX_OUT_TRIG),
        ranged_setup(ABS_HAT0X, MIN_OUT_HAT, MAX_OUT_HAT),
        ranged_setup(ABS_HAT0Y, MIN_OUT_HAT, MAX_OUT_HAT),
    ]
}

fn stick(axis: u16) -> (r: AxisSetup)
    ensures
        r == stick_setup(axis),
{
    AxisSetup {
        axis,
        value: 0,
        minimum: MIN_OUT_ANALOG,
        maximum: MAX_OUT_ANALOG,
        fuzz: ANALOG_FUZZ,
        flat: ANALOG_FLAT,
        resolution: 0,
    }
}

fn ranged(axis: u16, minimum: i32, maximum: i32) -> (r: AxisSetup)
    ensures
        r == ranged_setup(axis, minimum, maximum),
{
    AxisSetup { axis, value: 0, minimum, maximum, fuzz: 0, flat: 0, resolution: 0 }
}

/// The canonical layout every virtual gamepad exposes: eleven buttons, two
/// sticks, two triggers and one hat, under this system's own identity.
pub fn gamepad_layout() -> (r: GamepadLayout)
    ensures
        r.bus_type == BUS_USB,
        r.vendor == VIRTUAL_VENDOR,
        r.product == VIRTUAL_PRODUCT,
        r.version == VIRTUAL_DEVICE_VERSION,
        r.keys@ == gamepad_keys(),
        r.axes@ == gamepad_axes(),
{
    let keys = vec![
        BTN_SOUTH, BTN_EAST, BTN_NORTH, BTN_WEST, BTN_TL, BTN_TR, BTN_SELECT, BTN_START, BTN_MODE,
        BTN_THUMBL, BTN_THUMBR,
    ];
    let axes = vec![
        stick(ABS_X),
        stick(ABS_Y),
        stick(ABS_RX),
        stick(ABS_RY),
        ranged(ABS_Z, MIN_OUT_TRIG, MAX_OUT_TRIG),
        ranged(ABS_RZ, MIN_OUT_TRIG, MAX_OUT_TRIG),
        ranged(ABS_HAT0X, MIN_OUT_HAT, MAX_OUT_HAT),
        ranged(ABS_HAT0Y, MIN_OUT_HAT, MAX_OUT_HAT),
    ];
    assert(keys@ =~= gamepad_keys());
    assert(axes@ =~= gamepad_axes());
    GamepadLayout {
        bus_type: BUS_USB,
        vendor: VIRTUAL_VENDOR,
        product: VIRTUAL_PRODUCT,
        version: VIRTUAL_DEVICE_VERSION,
        keys,
        axes,
    }
}

/// A sink driving a virtual gamepad: the name and capability class of the
/// source it was bound to, fixed at construction.
pub struct UinputSink {
    source_name: String,
    source_caps: SourceCaps,
}

impl View for UinputSink {
    type V = (Seq<char>, SourceCaps);

    closed spec fn view(&self) -> (Seq<char>, SourceCaps) {
        (self.source_name@, self.source_caps)
    }
}

impl UinputSink {
    /// A sink for `source`, mirroring its name and capability class.
    pub fn new(source: &SourceInfo) -> (r: UinputSink)
        ensures
            r@ == (source.name@, source.caps),
    {
        UinputSink { source_name: source.name.clone(), source_caps: source.caps }
    }

    /// The sink type's name.
    pub fn name(&self) -> (r: &'static str)
        ensures
            r@ == gamepad_sink_name(),
    {
        "Gamepad device"
    }

    /// The name of the bound source.
    pub fn source_name(&self) -> (r: String)
        ensures
            r@ == self@.0,
    {
        self.source_name.clone()
    }

    /// The capability class of the bound source.
    pub fn source_caps(&self) -> (r: SourceCaps)
        ensures
            r == self@.1,
    {
        self.source_caps
    }
}

/// The sink types, by index.
pub fn list_names() -> (r: Vec<String>)
    ensures
        r@.len() == 1,
        r@[0]@ == gamepad_sink_name(),
{
    vec![String::from_str("Gamepad device")]
}

} // verus!
