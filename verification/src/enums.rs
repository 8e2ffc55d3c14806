//! Input enumerations and the integer codes the native library uses for them.
//!
//! The native library reports input as plain integers; the bindings expose
//! them as enumerations. Each enumeration here carries its code table as a
//! spec function, an executable accessor proved against it, and lemmas
//! showing that the reverse lookups in [`crate::rcore`] invert the tables.

use vstd::prelude::*;

verus! {

/// A keyboard key, as the native library identifies it.
#[derive(Clone, Copy, PartialEq, Eq, Structural, Debug)]
pub enum KeyboardKey {
    Null,
    Apostrophe,
    Comma,
    Minus,
    Period,
    Slash,
    Zero,
    One,
    Two,
    Three,
    Four,
    Five,
    Six,
    Seven,
    Eight,
    Nine,
    Semicolon,
    Equal,
    A,
    B,
    C,
    D,
    E,
    F,
    G,
    H,
    I,
    J,
    K,
    L,
    M,
    N,
    O,
    P,
    Q,
    R,
    S,
    T,
    U,
    V,
    W,
    X,
    Y,
    Z,
    LeftBracket,
    Backslash,
    RightBracket,
    Grave,
    Space,
    Escape,
    Enter,
    Tab,
    Backspace,
    Insert,
    Delete,
    Right,
    Left,
    Down,
    Up,
    PageUp,
    PageDown,
    Home,
    End,
    CapsLock,
    ScrollLock,
    NumLock,
    PrintScreen,
    Pause,
    F1,
    F2,
    F3,
    F4,
    F5,
    F6,
    F7,
    F8,
    F9,
    F10,
    F11,
    F12,
    LeftShift,
    LeftControl,
    LeftAlt,
    LeftSuper,
    RightShift,
    RightControl,
    RightAlt,
    RightSuper,
    KbMenu,
    Kp0,
    Kp1,
    Kp2,
    Kp3,
    Kp4,
    Kp5,
    Kp6,
    Kp7,
    Kp8,
    Kp9,
    KpDecimal,
    KpDivide,
    KpMultiply,
    KpSubtract,
    KpAdd,
    KpEnter,
    KpEqual,
    Back,
    VolumeUp,
    VolumeDown,
}

/// The key code the native library assigns to each keyboard key.
pub open spec fn keyboard_key_code(k: KeyboardKey) -> int {
    match k {
        KeyboardKey::Null => 0,
        KeyboardKey::Apostrophe => 39,
        KeyboardKey::Comma => 44,
        KeyboardKey::Minus => 45,
        KeyboardKey::Period => 46,
        KeyboardKey::Slash => 47,
        KeyboardKey::Zero => 48,
        KeyboardKey::One => 49,
        KeyboardKey::Two => 50,
        KeyboardKey::Three => 51,
        KeyboardKey::Four => 52,
        KeyboardKey::Five => 53,
        KeyboardKey::Six => 54,
        KeyboardKey::Seven => 55,
        KeyboardKey::Eight => 56,
        KeyboardKey::Nine => 57,
        KeyboardKey::Semicolon => 59,
        KeyboardKey::Equal => 61,
        KeyboardKey::A => 65,
        KeyboardKey::B => 66,
        KeyboardKey::C => 67,
        KeyboardKey::D => 68,
        KeyboardKey::E => 69,
        KeyboardKey::F => 70,
        KeyboardKey::G => 71,
        KeyboardKey::H => 72,
        KeyboardKey::I => 73,
        KeyboardKey::J => 74,
        KeyboardKey::K => 75,
        KeyboardKey::L => 76,
        KeyboardKey::M => 77,
        KeyboardKey::N => 78,
        KeyboardKey::O => 79,
        KeyboardKey::P => 80,
        KeyboardKey::Q => 81,
        KeyboardKey::R => 82,
        KeyboardKey::S => 83,
        KeyboardKey::T => 84,
        KeyboardKey::U => 85,
        KeyboardKey::V => 86,
        KeyboardKey::W => 87,
        KeyboardKey::X => 88,
        KeyboardKey::Y => 89,
        KeyboardKey::Z => 90,
        KeyboardKey::LeftBracket => 91,
        KeyboardKey::Backslash => 92,
        KeyboardKey::RightBracket => 93,
        KeyboardKey::Grave => 96,
        KeyboardKey::Space => 32,
        KeyboardKey::Escape => 256,
        KeyboardKey::Enter => 257,
        KeyboardKey::Tab => 258,
        KeyboardKey::Backspace => 259,
        KeyboardKey::Insert => 260,
        KeyboardKey::Delete => 261,
        KeyboardKey::Right => 262,
        KeyboardKey::Left => 263,
        KeyboardKey::Down => 264,
        KeyboardKey::Up => 265,
        KeyboardKey::PageUp => 266,
        KeyboardKey::PageDown => 267,
        KeyboardKey::Home => 268,
        KeyboardKey::End => 269,
        KeyboardKey::CapsLock => 280,
        KeyboardKey::ScrollLock => 281,
        KeyboardKey::NumLock => 282,
        KeyboardKey::PrintScreen => 283,
        KeyboardKey::Pause => 284,
        KeyboardKey::F1 => 290,
        KeyboardKey::F2 => 291,
        KeyboardKey::F3 => 292,
        KeyboardKey::F4 => 293,
        KeyboardKey::F5 => 294,
        KeyboardKey::F6 => 295,
        KeyboardKey::F7 => 296,
        KeyboardKey::F8 => 297,
        KeyboardKey::F9 => 298,
        KeyboardKey::F10 => 299,
        KeyboardKey::F11 => 300,
        KeyboardKey::F12 => 301,
        KeyboardKey::LeftShift => 340,
        KeyboardKey::LeftControl => 341,
        KeyboardKey::LeftAlt => 342,
        KeyboardKey::LeftSuper => 343,
        KeyboardKey::RightShift => 344,
        KeyboardKey::RightControl => 345,
        KeyboardKey::RightAlt => 346,
        KeyboardKey::RightSuper => 347,
        KeyboardKey::KbMenu => 348,
        KeyboardKey::Kp0 => 320,
        KeyboardKey::Kp1 => 321,
        KeyboardKey::Kp2 => 322,
        KeyboardKey::Kp3 => 323,
        KeyboardKey::Kp4 => 324,
        KeyboardKey::Kp5 => 325,
        KeyboardKey::Kp6 => 326,
        KeyboardKey::Kp7 => 327,
        KeyboardKey::Kp8 => 328,
        KeyboardKey::Kp9 => 329,
        KeyboardKey::KpDecimal => 330,
        KeyboardKey::KpDivide => 331,
        KeyboardKey::KpMultiply => 332,
        KeyboardKey::KpSubtract => 333,
        KeyboardKey::KpAdd => 334,
        KeyboardKey::KpEnter => 335,
        KeyboardKey::KpEqual => 336,
        KeyboardKey::Back => 4,
        KeyboardKey::VolumeUp => 24,
        KeyboardKey::VolumeDown => 25,
    }
}

/// The keyboard key a reported code stands for; codes outside the table
/// stand for no key (`Null`).
pub open spec fn keyboard_key_from_code(n: int) -> KeyboardKey {
    if n == 39 {
        KeyboardKey::Apostrophe
    } else if n == 44 {
        KeyboardKey::Comma
    } else if n == 45 {
        KeyboardKey::Minus
    } else if n == 46 {
        KeyboardKey::Period
    } else if n == 47 {
        KeyboardKey::Slash
    } else if n == 48 {
        KeyboardKey::Zero
    } else if n == 49 {
        KeyboardKey::One
    } else if n == 50 {
        KeyboardKey::Two
    } else if n == 51 {
        KeyboardKey::Three
    } else if n == 52 {
        KeyboardKey::Four
    } else if n == 53 {
        KeyboardKey::Five
    } else if n == 54 {
        KeyboardKey::Six
    } else if n == 55 {
        KeyboardKey::Seven
    } else if n == 56 {
        KeyboardKey::Eight
    } else if n == 57 {
        KeyboardKey::Nine
    } else if n == 59 {
        KeyboardKey::Semicolon
    } else if n == 61 {
        KeyboardKey::Equal
    } else if n == 65 {
        KeyboardKey::A
    } else if n == 66 {
        KeyboardKey::B
    } else if n == 67 {
        KeyboardKey::C
    } else if n == 68 {
        KeyboardKey::D
    } else if n == 69 {
        KeyboardKey::E
    } else if n == 70 {
        KeyboardKey::F
    } else if n == 71 {
        KeyboardKey::G
    } else if n == 72 {
        KeyboardKey::H
    } else if n == 73 {
        KeyboardKey::I
    } else if n == 74 {
        KeyboardKey::J
    } else if n == 75 {
        KeyboardKey::K
    } else if n == 76 {
        KeyboardKey::L
    } else if n == 77 {
        KeyboardKey::M
    } else if n == 78 {
        KeyboardKey::N
    } else if n == 79 {
        KeyboardKey::O
    } else if n == 80 {
        KeyboardKey::P
    } else if n == 81 {
        KeyboardKey::Q
    } else if n == 82 {
        KeyboardKey::R
    } else if n == 83 {
        KeyboardKey::S
    } else if n == 84 {
        KeyboardKey::T
    } else if n == 85 {
        KeyboardKey::U
    } else if n == 86 {
        KeyboardKey::V
    } else if n == 87 {
        KeyboardKey::W
    } else if n == 88 {
        KeyboardKey::X
    } else if n == 89 {
        KeyboardKey::Y
    } else if n == 90 {
        KeyboardKey::Z
    } else if n == 91 {
        KeyboardKey::LeftBracket
    } else if n == 92 {
        KeyboardKey::Backslash
    } else if n == 93 {
        KeyboardKey::RightBracket
    } else if n == 96 {
        KeyboardKey::Grave
    } else if n == 32 {
        KeyboardKey::Space
    } else if n == 256 {
        KeyboardKey::Escape
    } else if n == 257 {
        KeyboardKey::Enter
    } else if n == 258 {
        KeyboardKey::Tab
    } else if n == 259 {
        KeyboardKey::Backspace
    } else if n == 260 {
        KeyboardKey::Insert
    } else if n == 261 {
        KeyboardKey::Delete
    } else if n == 262 {
        KeyboardKey::Right
    } else if n == 263 {
        KeyboardKey::Left
    } else if n == 264 {
        KeyboardKey::Down
    } else if n == 265 {
        KeyboardKey::Up
    } else if n == 266 {
        KeyboardKey::PageUp
    } else if n == 267 {
        KeyboardKey::PageDown
    } else if n == 268 {
        KeyboardKey::Home
    } else if n == 269 {
        KeyboardKey::End
    } else if n == 280 {
        KeyboardKey::CapsLock
    } else if n == 281 {
        KeyboardKey::ScrollLock
    } else if n == 282 {
        KeyboardKey::NumLock
    } else if n == 283 {
        KeyboardKey::PrintScreen
    } else if n == 284 {
        KeyboardKey::Pause
    } else if n == 290 {
        KeyboardKey::F1
    } else if n == 291 {
        KeyboardKey::F2
    } else if n == 292 {
        KeyboardKey::F3
    } else if n == 293 {
        KeyboardKey::F4
    } else if n == 294 {
        KeyboardKey::F5
    } else if n == 295 {
        KeyboardKey::F6
    } else if n == 296 {
        KeyboardKey::F7
    } else if n == 297 {
        KeyboardKey::F8
    } else if n == 298 {
        KeyboardKey::F9
    } else if n == 299 {
        KeyboardKey::F10
    } else if n == 300 {
        KeyboardKey::F11
    } else if n == 301 {
        KeyboardKey::F12
    } else if n == 340 {
        KeyboardKey::LeftShift
    } else if n == 341 {
        KeyboardKey::LeftControl
    } else if n == 342 {
        KeyboardKey::LeftAlt
    } else if n == 343 {
        KeyboardKey::LeftSuper
    } else if n == 344 {
        KeyboardKey::RightShift
    } else if n == 345 {
        KeyboardKey::RightControl
    } else if n == 346 {
        KeyboardKey::RightAlt
    } else if n == 347 {
        KeyboardKey::RightSuper
    } else if n == 348 {
        KeyboardKey::KbMenu
    } else if n == 320 {
        KeyboardKey::Kp0
    } else if n == 321 {
        KeyboardKey::Kp1
    } else if n == 322 {
        KeyboardKey::Kp2
    } else if n == 323 {
        KeyboardKey::Kp3
    } else if n == 324 {
        KeyboardKey::Kp4
    } else if n == 325 {
        KeyboardKey::Kp5
    } else if n == 326 {
        KeyboardKey::Kp6
    } else if n == 327 {
        KeyboardKey::Kp7
    } else if n == 328 {
        KeyboardKey::Kp8
    } else if n == 329 {
        KeyboardKey::Kp9
    } else if n == 330 {
        KeyboardKey::KpDecimal
    } else if n == 331 {
        KeyboardKey::KpDivide
    } else if n == 332 {
        KeyboardKey::KpMultiply
    } else if n == 333 {
        KeyboardKey::KpSubtract
    } else if n == 334 {
        KeyboardKey::KpAdd
    } else if n == 335 {
        KeyboardKey::KpEnter
    } else if n == 336 {
        KeyboardKey::KpEqual
    } else if n == 4 {
        KeyboardKey::Back
    } else if n == 24 {
        KeyboardKey::VolumeUp
    } else if n == 25 {
        KeyboardKey::VolumeDown
    } else {
        KeyboardKey::Null
    }
}

impl KeyboardKey {
    /// The key's code, as the native calls expect it.
    pub fn code(self) -> (c: i32)
        ensures
            c == keyboard_key_code(self),
    {
        match self {
            KeyboardKey::Null => 0,
            KeyboardKey::Apostrophe => 39,
            KeyboardKey::Comma => 44,
            KeyboardKey::Minus => 45,
            KeyboardKey::Period => 46,
            KeyboardKey::Slash => 47,
            KeyboardKey::Zero => 48,
            KeyboardKey::One => 49,
            KeyboardKey::Two => 50,
            KeyboardKey::Three => 51,
            KeyboardKey::Four => 52,
            KeyboardKey::Five => 53,
            KeyboardKey::Six => 54,
            KeyboardKey::Seven => 55,
            KeyboardKey::Eight => 56,
            KeyboardKey::Nine => 57,
            KeyboardKey::Semicolon => 59,
            KeyboardKey::Equal => 61,
            KeyboardKey::A => 65,
            KeyboardKey::B => 66,
            KeyboardKey::C => 67,
            KeyboardKey::D => 68,
            KeyboardKey::E => 69,
            KeyboardKey::F => 70,
            KeyboardKey::G => 71,
            KeyboardKey::H => 72,
            KeyboardKey::I => 73,
            KeyboardKey::J => 74,
            KeyboardKey::K => 75,
            KeyboardKey::L => 76,
            KeyboardKey::M => 77,
            KeyboardKey::N => 78,
            KeyboardKey::O => 79,
            KeyboardKey::P => 80,
            KeyboardKey::Q => 81,
            KeyboardKey::R => 82,
            KeyboardKey::S => 83,
            KeyboardKey::T => 84,
            KeyboardKey::U => 85,
            KeyboardKey::V => 86,
            KeyboardKey::W => 87,
            KeyboardKey::X => 88,
            KeyboardKey::Y => 89,
            KeyboardKey::Z => 90,
            KeyboardKey::LeftBracket => 91,
            KeyboardKey::Backslash => 92,
            KeyboardKey::RightBracket => 93,
            KeyboardKey::Grave => 96,
            KeyboardKey::Space => 32,
            KeyboardKey::Escape => 256,
            KeyboardKey::Enter => 257,
            KeyboardKey::Tab => 258,
            KeyboardKey::Backspace => 259,
            KeyboardKey::Insert => 260,
            KeyboardKey::Delete => 261,
            KeyboardKey::Right => 262,
            KeyboardKey::Left => 263,
            KeyboardKey::Down => 264,
            KeyboardKey::Up => 265,
            KeyboardKey::PageUp => 266,
            KeyboardKey::PageDown => 267,
            KeyboardKey::Home => 268,
            KeyboardKey::End => 269,
            KeyboardKey::CapsLock => 280,
            KeyboardKey::ScrollLock => 281,
            KeyboardKey::NumLock => 282,
            KeyboardKey::PrintScreen => 283,
            KeyboardKey::Pause => 284,
            KeyboardKey::F1 => 290,
            KeyboardKey::F2 => 291,
            KeyboardKey::F3 => 292,
            KeyboardKey::F4 => 293,
            KeyboardKey::F5 => 294,
            KeyboardKey::F6 => 295,
            KeyboardKey::F7 => 296,
            KeyboardKey::F8 => 297,
            KeyboardKey::F9 => 298,
            KeyboardKey::F10 => 299,
            KeyboardKey::F11 => 300,
            KeyboardKey::F12 => 301,
            KeyboardKey::LeftShift => 340,
            KeyboardKey::LeftControl => 341,
            KeyboardKey::LeftAlt => 342,
            KeyboardKey::LeftSuper => 343,
            KeyboardKey::RightShift => 344,
            KeyboardKey::RightControl => 345,
            KeyboardKey::RightAlt => 346,
            KeyboardKey::RightSuper => 347,
            KeyboardKey::KbMenu => 348,
            KeyboardKey::Kp0 => 320,
            KeyboardKey::Kp1 => 321,
            KeyboardKey::Kp2 => 322,
            KeyboardKey::Kp3 => 323,
            KeyboardKey::Kp4 => 324,
            KeyboardKey::Kp5 => 325,
            KeyboardKey::Kp6 => 326,
            KeyboardKey::Kp7 => 327,
            KeyboardKey::Kp8 => 328,
            KeyboardKey::Kp9 => 329,
            KeyboardKey::KpDecimal => 330,
            KeyboardKey::KpDivide => 331,
            KeyboardKey::KpMultiply => 332,
            KeyboardKey::KpSubtract => 333,
            KeyboardKey::KpAdd => 334,
            KeyboardKey::KpEnter => 335,
            KeyboardKey::KpEqual => 336,
            KeyboardKey::Back => 4,
            KeyboardKey::VolumeUp => 24,
            KeyboardKey::VolumeDown => 25,
        }
    }
}

/// Every keyboard key is recovered from its own code: the reverse lookup
/// inverts the code table.
pub proof fn lemma_keyboard_key_round_trip(k: KeyboardKey)
    ensures
        keyboard_key_from_code(keyboard_key_code(k)) == k,
{
}

/// The reverse lookup answers `Null` exactly on the codes that no other key
/// carries; on any other answer it returns the code's own key.
pub proof fn lemma_keyboard_key_from_code_sound(n: int)
    ensures
        keyboard_key_from_code(n) == KeyboardKey::Null <==> !(exists|k: KeyboardKey|
            k != KeyboardKey::Null && keyboard_key_code(k) == n),
        keyboard_key_from_code(n) != KeyboardKey::Null ==> keyboard_key_code(keyboard_key_from_code(n)) == n,
{
    if keyboard_key_from_code(n) != KeyboardKey::Null {
        assert(keyboard_key_code(keyboard_key_from_code(n)) == n);
    }
}

/// A gamepad button, as the native library identifies it.
#[derive(Clone, Copy, PartialEq, Eq, Structural, Debug)]
pub enum GamepadButton {
    Unknown,
    LeftFaceUp,
    LeftFaceRight,
    LeftFaceDown,
    LeftFaceLeft,
    RightFaceUp,
    RightFaceRight,
    RightFaceDown,
    RightFaceLeft,
    LeftTrigger1,
    LeftTrigger2,
    RightTrigger1,
    RightTrigger2,
    MiddleLeft,
    Middle,
    MiddleRight,
    LeftThumb,
    RightThumb,
}

/// The button code the native library assigns to each gamepad button.
pub open spec fn gamepad_button_code(k: GamepadButton) -> int {
    match k {
        GamepadButton::Unknown => 0,
        GamepadButton::LeftFaceUp => 1,
        GamepadButton::LeftFaceRight => 2,
        GamepadButton::LeftFaceDown => 3,
        GamepadButton::LeftFaceLeft => 4,
        GamepadButton::RightFaceUp => 5,
        GamepadButton::RightFaceRight => 6,
        GamepadButton::RightFaceDown => 7,
        GamepadButton::RightFaceLeft => 8,
        GamepadButton::LeftTrigger1 => 9,
        GamepadButton::LeftTrigger2 => 10,
        GamepadButton::RightTrigger1 => 11,
        GamepadButton::RightTrigger2 => 12,
        GamepadButton::MiddleLeft => 13,
        GamepadButton::Middle => 14,
        GamepadButton::MiddleRight => 15,
        GamepadButton::LeftThumb => 16,
        GamepadButton::RightThumb => 17,
    }
}

/// The gamepad button a reported code stands for; codes outside the table
/// stand for `Unknown`.
pub open spec fn gamepad_button_from_code(n: int) -> GamepadButton {
    if n == 1 {
        GamepadButton::LeftFaceUp
    } else if n == 2 {
        GamepadButton::LeftFaceRight
    } else if n == 3 {
        GamepadButton::LeftFaceDown
    } else if n == 4 {
        GamepadButton::LeftFaceLeft
    } else if n == 5 {
        GamepadButton::RightFaceUp
    } else if n == 6 {
        GamepadButton::RightFaceRight
    } else if n == 7 {
        GamepadButton::RightFaceDown
    } else if n == 8 {
        GamepadButton::RightFaceLeft
    } else if n == 9 {
        GamepadButton::LeftTrigger1
    } else if n == 10 {
        GamepadButton::LeftTrigger2
    } else if n == 11 {
        GamepadButton::RightTrigger1
    } else if n == 12 {
        GamepadButton::RightTrigger2
    } else if n == 13 {
        GamepadButton::MiddleLeft
    } else if n == 14 {
        GamepadButton::Middle
    } else if n == 15 {
        GamepadButton::MiddleRight
    } else if n == 16 {
        GamepadButton::LeftThumb
    } else if n == 17 {
        GamepadButton::RightThumb
    } else {
        GamepadButton::Unknown
    }
}

impl GamepadButton {
    /// The button's code, as the native calls expect it.
    pub fn code(self) -> (c: i32)
        ensures
            c == gamepad_button_code(self),
    {
        match self {
            GamepadButton::Unknown => 0,
            GamepadButton::LeftFaceUp => 1,
            GamepadButton::LeftFaceRight => 2,
            GamepadButton::LeftFaceDown => 3,
            GamepadButton::LeftFaceLeft => 4,
            GamepadButton::RightFaceUp => 5,
            GamepadButton::RightFaceRight => 6,
            GamepadButton::RightFaceDown => 7,
            GamepadButton::RightFaceLeft => 8,
            GamepadButton::LeftTrigger1 => 9,
            GamepadButton::LeftTrigger2 => 10,
            GamepadButton::RightTrigger1 => 11,
            GamepadButton::RightTrigger2 => 12,
            GamepadButton::MiddleLeft => 13,
            GamepadButton::Middle => 14,
            GamepadButton::MiddleRight => 15,
            GamepadButton::LeftThumb => 16,
            GamepadButton::RightThumb => 17,
        }
    }
}

/// Every gamepad button is recovered from its own code: the reverse lookup
/// inverts the code table.
pub proof fn lemma_gamepad_button_round_trip(b: GamepadButton)
    ensures
        gamepad_button_from_code(gamepad_button_code(b)) == b,
{
}

/// The reverse lookup answers `Unknown` exactly on the codes that no other
/// button carries; on any other answer it returns the code's own button.
pub proof fn lemma_gamepad_button_from_code_sound(n: int)
    ensures
        gamepad_button_from_code(n) == GamepadButton::Unknown <==> !(exists|b: GamepadButton|
            b != GamepadButton::Unknown && gamepad_button_code(b) == n),
        gamepad_button_from_code(n) != GamepadButton::Unknown ==> gamepad_button_code(gamepad_button_from_code(n)) == n,
{
    if gamepad_button_from_code(n) != GamepadButton::Unknown {
        assert(gamepad_button_code(gamepad_button_from_code(n)) == n);
    }
}

/// A touch gesture, as the native library classifies it.
#[derive(Clone, Copy, PartialEq, Eq, Structural, Debug)]
pub enum Gesture {
    NoGesture,
    Tap,
    Doubletap,
    Hold,
    Drag,
    SwipeRight,
    SwipeLeft,
    SwipeUp,
    SwipeDown,
    PinchIn,
    PinchOut,
}

/// The flag value the native library assigns to each gesture.
pub open spec fn gesture_code(g: Gesture) -> int {
    match g {
        Gesture::NoGesture => 0,
        Gesture::Tap => 1,
        Gesture::Doubletap => 2,
        Gesture::Hold => 4,
        Gesture::Drag => 8,
        Gesture::SwipeRight => 16,
        Gesture::SwipeLeft => 32,
        Gesture::SwipeUp => 64,
        Gesture::SwipeDown => 128,
        Gesture::PinchIn => 256,
        Gesture::PinchOut => 512,
    }
}

/// The gesture a reported code stands for; codes outside the table stand
/// for no gesture at all.
pub open spec fn gesture_from_code(n: int) -> Gesture {
    if n == 1 {
        Gesture::Tap
    } else if n == 2 {
        Gesture::Doubletap
    } else if n == 4 {
        Gesture::Hold
    } else if n == 8 {
        Gesture::Drag
    } else if n == 16 {
        Gesture::SwipeRight
    } else if n == 32 {
        Gesture::SwipeLeft
    } else if n == 64 {
        Gesture::SwipeUp
    } else if n == 128 {
        Gesture::SwipeDown
    } else if n == 256 {
        Gesture::PinchIn
    } else if n == 512 {
        Gesture::PinchOut
    } else {
        Gesture::NoGesture
    }
}

impl Gesture {
    /// The gesture's flag value, as the native calls expect it.
    pub fn code(self) -> (c: u32)
        ensures
            c == gesture_code(self),
    {
        match self {
            Gesture::NoGesture => 0,
            Gesture::Tap => 1,
            Gesture::Doubletap => 2,
            Gesture::Hold => 4,
            Gesture::Drag => 8,
            Gesture::SwipeRight => 16,
            Gesture::SwipeLeft => 32,
            Gesture::SwipeUp => 64,
            Gesture::SwipeDown => 128,
            Gesture::PinchIn => 256,
            Gesture::PinchOut => 512,
        }
    }
}

/// Every gesture is recovered from its own code: the reverse lookup inverts
/// the code table.
pub proof fn lemma_gesture_round_trip(g: Gesture)
    ensures
        gesture_from_code(gesture_code(g)) == g,
{
}

/// The reverse lookup answers `NoGesture` exactly on the codes that no
/// gesture carries; on any other answer it returns the code's own gesture.
pub proof fn lemma_gesture_from_code_sound(n: int)
    ensures
        gesture_from_code(n) == Gesture::NoGesture <==> !(exists|g: Gesture| g != Gesture::NoGesture && gesture_code(g) == n),
        gesture_from_code(n) != Gesture::NoGesture ==> gesture_code(gesture_from_code(n)) == n,
{
    if gesture_from_code(n) != Gesture::NoGesture {
        assert(gesture_code(gesture_from_code(n)) == n);
    }
}

} // verus!
