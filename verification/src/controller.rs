//! Joypad: the NES controller's latch-and-shift-register protocol.
//!
//! While the strobe bit is high the pad keeps presenting button A.  When the
//! strobe goes low the button bitmap is latched and each read shifts out one
//! button in the order A, B, Select, Start, Up, Down, Left, Right; after the
//! eighth read every further read returns 1.

use vstd::prelude::*;

verus! {

/// One of the eight buttons, in shift-out order.
#[derive(Debug, PartialEq, Eq, Clone, Copy, Structural)]
pub enum JoypadButton {
    ButtonA,
    ButtonB,
    Select,
    Start,
    Up,
    Down,
    Left,
    Right,
}

/// The bit each button occupies in the latched bitmap.
pub open spec fn spec_button_mask(button: JoypadButton) -> u8 {
    match button {
        JoypadButton::ButtonA => 0b0000_0001,
        JoypadButton::ButtonB => 0b0000_0010,
        JoypadButton::Select => 0b0000_0100,
        JoypadButton::Start => 0b0000_1000,
        JoypadButton::Up => 0b0001_0000,
        JoypadButton::Down => 0b0010_0000,
        JoypadButton::Left => 0b0100_0000,
        JoypadButton::Right => 0b1000_0000,
    }
}

/// Shift-register joypad state.
pub struct Joypad {
    pub strobe: bool,
    pub button_index: u8,
    pub button_status: u8,
}

/// What one `$4016` read returns: the bit at the current shift position, or 1
/// once all eight bits have been shifted out.
pub open spec fn spec_joypad_read_value(j: Joypad) -> u8 {
    if j.button_index > 7 {
        1
    } else if j.button_status & (1u8 << j.button_index) != 0 {
        1
    } else {
        0
    }
}

/// The register after one read: the shift position advances only while the
/// strobe is low.
pub open spec fn spec_joypad_after_read(j: Joypad) -> Joypad {
    if j.button_index <= 7 && !j.strobe {
        Joypad { button_index: (j.button_index + 1) as u8, ..j }
    } else {
        j
    }
}

impl Joypad {
    /// A pad with no buttons pressed and the shift register at bit 0.
    pub fn new() -> (j: Joypad)
        ensures
            j == (Joypad { strobe: false, button_index: 0, button_status: 0 }),
    {
        Joypad { strobe: false, button_index: 0, button_status: 0 }
    }

    /// Strobe write: bit 0 high rewinds the shift register and keeps it
    /// presenting button A.
    pub fn write(&mut self, data: u8)
        ensures
            final(self).strobe == (data & 1 == 1),
            final(self).button_index == if data & 1 == 1 {
                0u8
            } else {
                old(self).button_index
            },
            final(self).button_status == old(self).button_status,
    {
        self.strobe = data & 1 == 1;
        if self.strobe {
            self.button_index = 0;
        }
    }

    /// One serial read of the pad.
    pub fn read(&mut self) -> (r: u8)
        ensures
            r == spec_joypad_read_value(*old(self)),
            *final(self) == spec_joypad_after_read(*old(self)),
    {
        if self.button_index > 7 {
            return 1;
        }
        let bit = self.button_status & (1u8 << self.button_index);
        let response: u8 = if bit != 0 {
            1
        } else {
            0
        };
        if !self.strobe {
            self.button_index = self.button_index + 1;
        }
        response
    }

    /// Host-side button injection into the live bitmap.
    pub fn set_button_pressed_status(&mut self, button: JoypadButton, pressed: bool)
        ensures
            final(self).button_status == if pressed {
                old(self).button_status | spec_button_mask(button)
            } else {
                old(self).button_status & !spec_button_mask(button)
            },
            final(self).strobe == old(self).strobe,
            final(self).button_index == old(self).button_index,
    {
        let mask = button_mask(button);
        if pressed {
            self.button_status = self.button_status | mask;
        } else {
            self.button_status = self.button_status & !mask;
        }
    }
}

/// Executable form of `spec_button_mask`.
pub fn button_mask(button: JoypadButton) -> (m: u8)
    ensures
        m == spec_button_mask(button),
{
    match button {
        JoypadButton::ButtonA => 0b0000_0001,
        JoypadButton::ButtonB => 0b0000_0010,
        JoypadButton::Select => 0b0000_0100,
        JoypadButton::Start => 0b0000_1000,
        JoypadButton::Up => 0b0001_0000,
        JoypadButton::Down => 0b0010_0000,
        JoypadButton::Left => 0b0100_0000,
        JoypadButton::Right => 0b1000_0000,
    }
}

} // verus!
