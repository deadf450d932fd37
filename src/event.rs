//! Canonical input events and the Linux input codes the pipeline uses.

use vstd::prelude::*;

verus! {

/// Event type: synchronisation marker.
pub const EV_SYN: u16 = 0x00;
/// Event type: key or button.
pub const EV_KEY: u16 = 0x01;
/// Event type: absolute axis.
pub const EV_ABS: u16 = 0x03;

pub const KEY_D: u16 = 32;
pub const KEY_F12: u16 = 88;
pub const BTN_SOUTH: u16 = 0x130;
pub const BTN_EAST: u16 = 0x131;
pub const BTN_NORTH: u16 = 0x133;
pub const BTN_WEST: u16 = 0x134;
pub const BTN_Z: u16 = 0x135;
pub const BTN_TL: u16 = 0x136;
pub const BTN_TR: u16 = 0x137;
pub const BTN_TL2: u16 = 0x138;
pub const BTN_TR2: u16 = 0x139;
pub const BTN_SELECT: u16 = 0x13a;
pub const BTN_START: u16 = 0x13b;
pub const BTN_MODE: u16 = 0x13c;
pub const BTN_THUMBL: u16 = 0x13d;
pub const BTN_THUMBR: u16 = 0x13e;
pub const BTN_DPAD_UP: u16 = 0x220;
pub const BTN_DPAD_DOWN: u16 = 0x221;
pub const BTN_DPAD_LEFT: u16 = 0x222;
pub const BTN_DPAD_RIGHT: u16 = 0x223;

pub const ABS_X: u16 = 0x00;
pub const ABS_Y: u16 = 0x01;
pub const ABS_Z: u16 = 0x02;
pub const ABS_RX: u16 = 0x03;
pub const ABS_RY: u16 = 0x04;
pub const ABS_RZ: u16 = 0x05;
pub const ABS_HAT0X: u16 = 0x10;
pub const ABS_HAT0Y: u16 = 0x11;

/// One input event: its type, its code within that type, and its value.
#[derive(Clone, Copy, Debug, PartialEq, Eq, Structural)]
pub struct Event {
    pub event_type: u16,
    pub code: u16,
    pub value: i32,
}

impl Event {
    pub open spec fn is_key_of(self, key: u16) -> bool {
        self.event_type == EV_KEY && self.code == key
    }

    pub open spec fn is_abs_of(self, axis: u16) -> bool {
        self.event_type == EV_ABS && self.code == axis
    }

    /// A key event for `key` with `value` (0 released, 1 pressed, 2 repeat).
    pub fn key(key: u16, value: i32) -> (r: Event)
        ensures
            r == (Event { event_type: EV_KEY, code: key, value }),
    {
        Event { event_type: EV_KEY, code: key, value }
    }

    /// An absolute-axis event for `axis` with `value`.
    pub fn abs(axis: u16, value: i32) -> (r: Event)
        ensures
            r == (Event { event_type: EV_ABS, code: axis, value }),
    {
        Event { event_type: EV_ABS, code: axis, value }
    }

    /// Whether this is a key event.
    pub fn is_key(&self) -> (r: bool)
        ensures
            r == (self.event_type == EV_KEY),
    {
        self.event_type == EV_KEY
    }

    /// Whether this is an absolute-axis event.
    pub fn is_abs(&self) -> (r: bool)
        ensures
            r == (self.event_type == EV_ABS),
    {
        self.event_type == EV_ABS
    }
}

} // verus!
