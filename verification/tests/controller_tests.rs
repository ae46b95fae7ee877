//! The joypad shift-register protocol.

use nes_core::controller::{Joypad, JoypadButton};

#[test]
fn test_strobe_mode() {
    let mut joypad = Joypad::new();
    joypad.write(1);
    joypad.set_button_pressed_status(JoypadButton::ButtonA, true);
    for _x in 0..10 {
        assert_eq!(joypad.read(), 1);
    }
}

#[test]
fn test_strobe_mode_on_off() {
    let mut joypad = Joypad::new();

    joypad.write(0);
    joypad.set_button_pressed_status(JoypadButton::Right, true);
    joypad.set_button_pressed_status(JoypadButton::Left, true);
    joypad.set_button_pressed_status(JoypadButton::Select, true);
    joypad.set_button_pressed_status(JoypadButton::ButtonB, true);

    for _ in 0..=1 {
        assert_eq!(joypad.read(), 0);
        assert_eq!(joypad.read(), 1);
        assert_eq!(joypad.read(), 1);
        assert_eq!(joypad.read(), 0);
        assert_eq!(joypad.read(), 0);
        assert_eq!(joypad.read(), 0);
        assert_eq!(joypad.read(), 1);
        assert_eq!(joypad.read(), 1);

        for _x in 0..10 {
            assert_eq!(joypad.read(), 1);
        }
        joypad.write(1);
        joypad.write(0);
    }
}

#[test]
fn test_release_button() {
    let mut joypad = Joypad::new();
    joypad.set_button_pressed_status(JoypadButton::Start, true);
    joypad.set_button_pressed_status(JoypadButton::Start, false);
    joypad.write(1);
    joypad.write(0);
    assert_eq!(joypad.read(), 0);
    assert_eq!(joypad.read(), 0);
    assert_eq!(joypad.read(), 0);
    assert_eq!(joypad.read(), 0);
}
