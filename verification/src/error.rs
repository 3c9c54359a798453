//! Error taxonomy of the protocol layer.
//!
//! A reply that does not echo the request, or whose payload holds a byte
//! outside a command's known enumerated range, is a decode failure; caller
//! input that is out of range is rejected before any frame is built.

use vstd::prelude::*;

verus! {

/// Why a reply frame could not be decoded.
#[derive(Debug, Clone, Copy, PartialEq, Eq, Structural)]
pub enum DecodeError {
    /// The reply does not begin with the request's opcode and sub-opcode.
    EchoMismatch,
    /// A light-pattern byte outside the known range.
    UnknownLightMode(u8),
    /// A brightness-step byte outside the known range.
    UnknownBrightness(u8),
    /// A sleep-idle byte outside the known range.
    UnknownSleepMode(u8),
}

/// Why caller input was rejected before a frame was built.
#[derive(Debug, Clone, Copy, PartialEq, Eq, Structural)]
pub enum InputError {
    /// Profile index outside 0..=2.
    InvalidProfile(u8),
    /// Brightness percent outside {0, 25, 50, 75, 100}.
    InvalidBrightness(usize),
    /// Color text that is not exactly six hex digits.
    InvalidColor,
}

} // verus!
