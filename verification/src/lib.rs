//! Verified core of a binding layer over the raylib graphics library.
//!
//! The native calls themselves cannot be checked here; what can be is the
//! pure marshalling logic the bindings rest on: the keyboard key, gamepad
//! button and gesture enumerations, the integer codes the native library
//! exchanges them under, and the conversions in both directions.

pub mod enums;
pub mod rcore;
