//! The two input reports the device can send, field for field as the HID
//! report descriptors of a boot keyboard and a five-axis mouse lay them out.

use vstd::prelude::*;

verus! {

/// Modifier bit of the left shift key.
pub const MOD_LEFT_SHIFT: u8 = 0x02;

/// Usage id meaning "no key in this slot".
pub const KEY_NONE: u8 = 0x00;

pub const KEY_A: u8 = 0x04;

pub const KEY_B: u8 = 0x05;

pub const KEY_K: u8 = 0x0e;

pub const KEY_O: u8 = 0x12;

pub const KEY_7: u8 = 0x24;

pub const KEY_8: u8 = 0x25;

pub const KEY_9: u8 = 0x26;

/// Button bit of the left mouse button.
pub const BUTTON_LEFT: u8 = 0x01;

/// Button bit of the right mouse button.
pub const BUTTON_RIGHT: u8 = 0x02;

/// Number of key slots in a keyboard report.
pub const KEY_SLOTS: usize = 6;

/// A keyboard input report: modifier bits, a reserved byte, the LED byte and
/// up to six keys held at once.
#[derive(Clone, Copy, Debug, PartialEq, Eq)]
pub struct KeyboardReport {
    pub modifier: u8,
    pub reserved: u8,
    pub leds: u8,
    pub keycodes: [u8; 6],
}

/// A mouse input report: button bits and signed movement since the last report.
#[derive(Clone, Copy, Debug, PartialEq, Eq, Structural)]
pub struct MouseReport {
    pub buttons: u8,
    pub x: i8,
    pub y: i8,
    pub wheel: i8,
    pub pan: i8,
}

impl KeyboardReport {
    /// The report that holds `modifier` and at most the one key `keycode`.
    pub open spec fn spec_single(modifier: u8, keycode: u8) -> KeyboardReport {
        KeyboardReport {
            modifier,
            reserved: 0,
            leds: 0,
            keycodes: [keycode, KEY_NONE, KEY_NONE, KEY_NONE, KEY_NONE, KEY_NONE],
        }
    }

    /// Builds the report that holds `modifier` and at most the one key
    /// `keycode` (`KEY_NONE` for none).
    pub fn single(modifier: u8, keycode: u8) -> (report: KeyboardReport)
        ensures
            report == Self::spec_single(modifier, keycode),
    {
        KeyboardReport {
            modifier,
            reserved: 0,
            leds: 0,
            keycodes: [keycode, KEY_NONE, KEY_NONE, KEY_NONE, KEY_NONE, KEY_NONE],
        }
    }
}

} // verus!
