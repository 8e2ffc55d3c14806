//! Conversions from the integers the native library reports to the input
//! enumerations, as the binding layer's input functions use them.
//!
//! Each conversion is proved equal to the reverse lookup of the matching
//! code table in [`crate::enums`]; a code outside the table yields the
//! enumeration's resting variant.

use vstd::prelude::*;
use crate::enums::Gesture;
use crate::enums::GamepadButton;
use crate::enums::KeyboardKey;
use crate::enums::gesture_from_code;
use crate::enums::gamepad_button_from_code;
use crate::enums::keyboard_key_from_code;

verus! {

/// Helper function for converting from integer to KeyboardKey
pub fn integer_to_keyboard_key(num: i32) -> (k: KeyboardKey)
    ensures
        k == keyboard_key_from_code(num as int),
{
    match num {
        0 => KeyboardKey::Null,
        39 => KeyboardKey::Apostrophe,
        44 => KeyboardKey::Comma,
        45 => KeyboardKey::Minus,
        46 => KeyboardKey::Period,
        47 => KeyboardKey::Slash,
        48 => KeyboardKey::Zero,
        49 => KeyboardKey::One,
        50 => KeyboardKey::Two,
        51 => KeyboardKey::Three,
        52 => KeyboardKey::Four,
        53 => KeyboardKey::Five,
        54 => KeyboardKey::Six,
        55 => KeyboardKey::Seven,
        56 => KeyboardKey::Eight,
        57 => KeyboardKey::Nine,
        59 => KeyboardKey::Semicolon,
        61 => KeyboardKey::Equal,
        65 => KeyboardKey::A,
        66 => KeyboardKey::B,
        67 => KeyboardKey::C,
        68 => KeyboardKey::D,
        69 => KeyboardKey::E,
        70 => KeyboardKey::F,
        71 => KeyboardKey::G,
        72 => KeyboardKey::H,
        73 => KeyboardKey::I,
        74 => KeyboardKey::J,
        75 => KeyboardKey::K,
        76 => KeyboardKey::L,
        77 => KeyboardKey::M,
        78 => KeyboardKey::N,
        79 => KeyboardKey::O,
        80 => KeyboardKey::P,
        81 => KeyboardKey::Q,
        82 => KeyboardKey::R,
        83 => KeyboardKey::S,
        84 => KeyboardKey::T,
        85 => KeyboardKey::U,
        86 => KeyboardKey::V,
        87 => KeyboardKey::W,
        88 => KeyboardKey::X,
        89 => KeyboardKey::Y,
        90 => KeyboardKey::Z,
        91 => KeyboardKey::LeftBracket,
        92 => KeyboardKey::Backslash,
        93 => KeyboardKey::RightBracket,
        96 => KeyboardKey::Grave,
        32 => KeyboardKey::Space,
        256 => KeyboardKey::Escape,
        257 => KeyboardKey::Enter,
        258 => KeyboardKey::Tab,
        259 => KeyboardKey::Backspace,
        260 => KeyboardKey::Insert,
        261 => KeyboardKey::Delete,
        262 => KeyboardKey::Right,
        263 => KeyboardKey::Left,
        264 => KeyboardKey::Down,
        265 => KeyboardKey::Up,
        266 => KeyboardKey::PageUp,
        267 => KeyboardKey::PageDown,
        268 => KeyboardKey::Home,
        269 => KeyboardKey::End,
        280 => KeyboardKey::CapsLock,
        281 => KeyboardKey::ScrollLock,
        282 => KeyboardKey::NumLock,
        283 => KeyboardKey::PrintScreen,
        284 => KeyboardKey::Pause,
        290 => KeyboardKey::F1,
        291 => KeyboardKey::F2,
        292 => KeyboardKey::F3,
        293 => KeyboardKey::F4,
        294 => KeyboardKey::F5,
        295 => KeyboardKey::F6,
        296 => KeyboardKey::F7,
        297 => KeyboardKey::F8,
        298 => KeyboardKey::F9,
        299 => KeyboardKey::F10,
        300 => KeyboardKey::F11,
        301 => KeyboardKey::F12,
        340 => KeyboardKey::LeftShift,
        341 => KeyboardKey::LeftControl,
        342 => KeyboardKey::LeftAlt,
        343 => KeyboardKey::LeftSuper,
        344 => KeyboardKey::RightShift,
        345 => KeyboardKey::RightControl,
        346 => KeyboardKey::RightAlt,
        347 => KeyboardKey::RightSuper,
        348 => KeyboardKey::KbMenu,
        320 => KeyboardKey::Kp0,
        321 => KeyboardKey::Kp1,
        322 => KeyboardKey::Kp2,
        323 => KeyboardKey::Kp3,
        324 => KeyboardKey::Kp4,
        325 => KeyboardKey::Kp5,
        326 => KeyboardKey::Kp6,
        327 => KeyboardKey::Kp7,
        328 => KeyboardKey::Kp8,
        329 => KeyboardKey::Kp9,
        330 => KeyboardKey::KpDecimal,
        331 => KeyboardKey::KpDivide,
        332 => KeyboardKey::KpMultiply,
        333 => KeyboardKey::KpSubtract,
        334 => KeyboardKey::KpAdd,
        335 => KeyboardKey::KpEnter,
        336 => KeyboardKey::KpEqual,
        4 => KeyboardKey::Back,
        24 => KeyboardKey::VolumeUp,
        25 => KeyboardKey::VolumeDown,
        _ => KeyboardKey::Null,
    }
}

/// Helper function for converting from integer to GamepadButton
pub fn integer_to_gamepad_button(num: i32) -> (k: GamepadButton)
    ensures
        k == gamepad_button_from_code(num as int),
{
    match num {
        0 => GamepadButton::Unknown,
        1 => GamepadButton::LeftFaceUp,
        2 => GamepadButton::LeftFaceRight,
        3 => GamepadButton::LeftFaceDown,
        4 => GamepadButton::LeftFaceLeft,
        5 => GamepadButton::RightFaceUp,
        6 => GamepadButton::RightFaceRight,
        7 => GamepadButton::RightFaceDown,
        8 => GamepadButton::RightFaceLeft,
        9 => GamepadButton::LeftTrigger1,
        10 => GamepadButton::LeftTrigger2,
        11 => GamepadButton::RightTrigger1,
        12 => GamepadButton::RightTrigger2,
        13 => GamepadButton::MiddleLeft,
        14 => GamepadButton::Middle,
        15 => GamepadButton::MiddleRight,
        16 => GamepadButton::LeftThumb,
        17 => GamepadButton::RightThumb,
        _ => GamepadButton::Unknown,
    }
}

/// Helper function to convert integer to gesture
pub fn integer_to_gesture(num: i32) -> (g: Gesture)
    ensures
        g == gesture_from_code(num as int),
{
    match num {
        0 => Gesture::NoGesture,
        1 => Gesture::Tap,
        2 => Gesture::Doubletap,
        4 => Gesture::Hold,
        8 => Gesture::Drag,
        16 => Gesture::SwipeRight,
        32 => Gesture::SwipeLeft,
        64 => Gesture::SwipeUp,
        128 => Gesture::SwipeDown,
        256 => Gesture::PinchIn,
        512 => Gesture::PinchOut,
        _ => Gesture::NoGesture,
    }
}

} // verus!
