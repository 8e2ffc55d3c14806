//! Tests for the input code tables and the integer conversions.

use raybind::enums::Gesture;
use raybind::enums::GamepadButton;
use raybind::enums::KeyboardKey;
use raybind::rcore::integer_to_gesture;
use raybind::rcore::integer_to_gamepad_button;
use raybind::rcore::integer_to_keyboard_key;

#[test]
fn keyboard_letters_and_digits() {
    assert_eq!(integer_to_keyboard_key(65), KeyboardKey::A);
    assert_eq!(integer_to_keyboard_key(77), KeyboardKey::M);
    assert_eq!(integer_to_keyboard_key(90), KeyboardKey::Z);
    assert_eq!(integer_to_keyboard_key(48), KeyboardKey::Zero);
    assert_eq!(integer_to_keyboard_key(57), KeyboardKey::Nine);
}

#[test]
fn keyboard_punctuation_and_controls() {
    assert_eq!(integer_to_keyboard_key(0), KeyboardKey::Null);
    assert_eq!(integer_to_keyboard_key(32), KeyboardKey::Space);
    assert_eq!(integer_to_keyboard_key(39), KeyboardKey::Apostrophe);
    assert_eq!(integer_to_keyboard_key(96), KeyboardKey::Grave);
    assert_eq!(integer_to_keyboard_key(256), KeyboardKey::Escape);
    assert_eq!(integer_to_keyboard_key(257), KeyboardKey::Enter);
    assert_eq!(integer_to_keyboard_key(348), KeyboardKey::KbMenu);
}

#[test]
fn keyboard_function_and_keypad() {
    assert_eq!(integer_to_keyboard_key(290), KeyboardKey::F1);
    assert_eq!(integer_to_keyboard_key(301), KeyboardKey::F12);
    assert_eq!(integer_to_keyboard_key(320), KeyboardKey::Kp0);
    assert_eq!(integer_to_keyboard_key(329), KeyboardKey::Kp9);
    assert_eq!(integer_to_keyboard_key(336), KeyboardKey::KpEqual);
    assert_eq!(integer_to_keyboard_key(4), KeyboardKey::Back);
    assert_eq!(integer_to_keyboard_key(24), KeyboardKey::VolumeUp);
    assert_eq!(integer_to_keyboard_key(25), KeyboardKey::VolumeDown);
}

#[test]
fn keyboard_unknown_codes_fall_back_to_null() {
    for code in [-1, 1, 5, 31, 33, 38, 58, 64, 94, 97, 255, 302, 349, 1000] {
        assert_eq!(integer_to_keyboard_key(code), KeyboardKey::Null);
    }
}

#[test]
fn keyboard_codes_survive_the_round_trip() {
    let codes: Vec<i32> = vec![0, 39, 44, 45, 46, 47, 48, 49, 50, 51, 52, 53, 54, 55, 56, 57, 59, 61, 65, 66, 67, 68, 69, 70, 71, 72, 73, 74, 75, 76, 77, 78, 79, 80, 81, 82, 83, 84, 85, 86, 87, 88, 89, 90, 91, 92, 93, 96, 32, 256, 257, 258, 259, 260, 261, 262, 263, 264, 265, 266, 267, 268, 269, 280, 281, 282, 283, 284, 290, 291, 292, 293, 294, 295, 296, 297, 298, 299, 300, 301, 340, 341, 342, 343, 344, 345, 346, 347, 348, 320, 321, 322, 323, 324, 325, 326, 327, 328, 329, 330, 331, 332, 333, 334, 335, 336, 4, 24, 25];
    for code in codes {
        assert_eq!(integer_to_keyboard_key(code).code(), code);
    }
}

#[test]
fn keyboard_code_values() {
    assert_eq!(KeyboardKey::Null.code(), 0);
    assert_eq!(KeyboardKey::Space.code(), 32);
    assert_eq!(KeyboardKey::A.code(), 65);
    assert_eq!(KeyboardKey::F12.code(), 301);
    assert_eq!(KeyboardKey::RightSuper.code(), 347);
    assert_eq!(KeyboardKey::VolumeDown.code(), 25);
}

#[test]
fn gamepad_buttons_by_code() {
    assert_eq!(integer_to_gamepad_button(0), GamepadButton::Unknown);
    assert_eq!(integer_to_gamepad_button(1), GamepadButton::LeftFaceUp);
    assert_eq!(integer_to_gamepad_button(8), GamepadButton::RightFaceLeft);
    assert_eq!(integer_to_gamepad_button(14), GamepadButton::Middle);
    assert_eq!(integer_to_gamepad_button(17), GamepadButton::RightThumb);
}

#[test]
fn gamepad_unknown_codes_fall_back_to_unknown() {
    for code in [-1, 18, 19, 100, 1000] {
        assert_eq!(integer_to_gamepad_button(code), GamepadButton::Unknown);
    }
}

#[test]
fn gamepad_codes_survive_the_round_trip() {
    let codes: Vec<i32> = vec![0, 1, 2, 3, 4, 5, 6, 7, 8, 9, 10, 11, 12, 13, 14, 15, 16, 17];
    for code in codes {
        assert_eq!(integer_to_gamepad_button(code).code(), code);
    }
}

#[test]
fn gestures_by_code() {
    assert_eq!(integer_to_gesture(0), Gesture::NoGesture);
    assert_eq!(integer_to_gesture(1), Gesture::Tap);
    assert_eq!(integer_to_gesture(2), Gesture::Doubletap);
    assert_eq!(integer_to_gesture(4), Gesture::Hold);
    assert_eq!(integer_to_gesture(8), Gesture::Drag);
    assert_eq!(integer_to_gesture(16), Gesture::SwipeRight);
    assert_eq!(integer_to_gesture(32), Gesture::SwipeLeft);
    assert_eq!(integer_to_gesture(64), Gesture::SwipeUp);
    assert_eq!(integer_to_gesture(128), Gesture::SwipeDown);
    assert_eq!(integer_to_gesture(256), Gesture::PinchIn);
    assert_eq!(integer_to_gesture(512), Gesture::PinchOut);
}

#[test]
fn gesture_unknown_codes_fall_back_to_none() {
    for code in [-1, 3, 5, 6, 7, 9, 100, 513, 1024] {
        assert_eq!(integer_to_gesture(code), Gesture::NoGesture);
    }
}

#[test]
fn gesture_codes_survive_the_round_trip() {
    let codes: Vec<i32> = vec![0, 1, 2, 4, 8, 16, 32, 64, 128, 256, 512];
    for code in codes {
        assert_eq!(integer_to_gesture(code).code() as i32, code);
    }
}
