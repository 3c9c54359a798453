//! The power query: opcode 0x12, sub-opcode 0x07. The reply carries the
//! battery level at offset 4 and the alert threshold at offset 6, both in 25%
//! steps, and the sleep-idle timeout at offset 5 as an enumerated byte with
//! one sentinel meaning "no sleep".

use vstd::prelude::*;

use crate::error::DecodeError;
use crate::frame::echo_ok;
use crate::frame::request_frame;
use crate::frame::header_frame;

verus! {

/// How long the device waits on inactivity before sleeping.
#[derive(Debug, Clone, Copy, PartialEq, Eq, Structural)]
pub enum SleepModeIdle {
    Minute1,
    Minute2,
    Minute3,
    Minute5,
    Minute10,
    NoSleep,
}

/// The raw byte of each sleep-idle timeout; 255 is the "no sleep" sentinel.
pub open spec fn sleep_code(s: SleepModeIdle) -> u8 {
    match s {
        SleepModeIdle::Minute1 => 0u8,
        SleepModeIdle::Minute2 => 1u8,
        SleepModeIdle::Minute3 => 2u8,
        SleepModeIdle::Minute5 => 3u8,
        SleepModeIdle::Minute10 => 4u8,
        SleepModeIdle::NoSleep => 255u8,
    }
}

/// The sleep-idle timeout of a raw byte, if the byte is in range.
pub open spec fn sleep_of_code(b: u8) -> Option<SleepModeIdle> {
    match b {
        0u8 => Some(SleepModeIdle::Minute1),
        1u8 => Some(SleepModeIdle::Minute2),
        2u8 => Some(SleepModeIdle::Minute3),
        3u8 => Some(SleepModeIdle::Minute5),
        4u8 => Some(SleepModeIdle::Minute10),
        255u8 => Some(SleepModeIdle::NoSleep),
        _ => None,
    }
}

/// The text of each sleep-idle timeout.
pub open spec fn sleep_label(s: SleepModeIdle) -> Seq<char> {
    match s {
        SleepModeIdle::Minute1 => "1 minute"@,
        SleepModeIdle::Minute2 => "2 minutes"@,
        SleepModeIdle::Minute3 => "3 minutes"@,
        SleepModeIdle::Minute5 => "5 minutes"@,
        SleepModeIdle::Minute10 => "10 minutes"@,
        SleepModeIdle::NoSleep => "Off"@,
    }
}

impl SleepModeIdle {
    /// The timeout of a raw byte; rejects bytes outside the known range.
    pub fn from_byte(b: u8) -> (r: Option<SleepModeIdle>)
        ensures
            r == sleep_of_code(b),
    {
        match b {
            0 => Some(SleepModeIdle::Minute1),
            1 => Some(SleepModeIdle::Minute2),
            2 => Some(SleepModeIdle::Minute3),
            3 => Some(SleepModeIdle::Minute5),
            4 => Some(SleepModeIdle::Minute10),
            255 => Some(SleepModeIdle::NoSleep),
            _ => None,
        }
    }

    /// The raw byte the device uses for this timeout.
    pub fn as_byte(&self) -> (r: u8)
        ensures
            r == sleep_code(*self),
    {
        match self {
            SleepModeIdle::Minute1 => 0,
            SleepModeIdle::Minute2 => 1,
            SleepModeIdle::Minute3 => 2,
            SleepModeIdle::Minute5 => 3,
            SleepModeIdle::Minute10 => 4,
            SleepModeIdle::NoSleep => 255,
        }
    }

    /// Human-readable name of this timeout.
    pub fn label(&self) -> (r: &'static str)
        ensures
            r@ == sleep_label(*self),
    {
        match self {
            SleepModeIdle::Minute1 => "1 minute",
            SleepModeIdle::Minute2 => "2 minutes",
            SleepModeIdle::Minute3 => "3 minutes",
            SleepModeIdle::Minute5 => "5 minutes",
            SleepModeIdle::Minute10 => "10 minutes",
            SleepModeIdle::NoSleep => "Off",
        }
    }
}

/// The decoded power state: battery level and alert threshold in percent,
/// both in 25% steps, and the sleep-idle timeout.
#[derive(Debug, Clone, Copy, PartialEq, Eq, Structural)]
pub struct PowerResponse {
    pub battery_level: usize,
    pub battery_alert: usize,
    pub sleep_mode: SleepModeIdle,
}

/// Reading a power reply: the echo check first, then the payload; battery
/// level and alert threshold are 25% per raw unit, and only the six known
/// sleep-idle bytes decode.
pub open spec fn decode_power(s: Seq<u8>) -> Result<PowerResponse, DecodeError> {
    if !echo_ok(request_frame(0x12, 0x07), s) {
        Err(DecodeError::EchoMismatch)
    } else {
        match sleep_of_code(s[5]) {
            None => Err(DecodeError::UnknownSleepMode(s[5])),
            Some(m) => Ok(
                PowerResponse {
                    battery_level: (s[4] * 25) as usize,
                    battery_alert: (s[6] * 25) as usize,
                    sleep_mode: m,
                },
            ),
        }
    }
}

/// The power read request.
#[derive(Debug, Clone, Copy, PartialEq, Eq, Structural)]
pub struct GetPowerData;

impl GetPowerData {
    /// Encodes the request into its 64-byte frame.
    pub fn as_byte_vec(&self) -> (buf: [u8; 64])
        ensures
            buf@ == request_frame(0x12, 0x07),
    {
        header_frame(0x12, 0x07)
    }

    /// Decodes a reply: the echo check first, then the payload. A sleep-idle
    /// byte outside the known range is a decode failure, not a default.
    pub fn decode(reply: &[u8; 64]) -> (r: Result<PowerResponse, DecodeError>)
        ensures
            r == decode_power(reply@),
    {
        if !(reply[0] == 0x12 && reply[1] == 0x07) {
            return Err(DecodeError::EchoMismatch);
        }
        let sleep_mode = match SleepModeIdle::from_byte(reply[5]) {
            Some(s) => s,
            None => {
                return Err(DecodeError::UnknownSleepMode(reply[5]));
            },
        };
        Ok(
            PowerResponse {
                battery_level: reply[4] as usize * 25,
                battery_alert: reply[6] as usize * 25,
                sleep_mode,
            },
        )
    }
}

} // verus!
