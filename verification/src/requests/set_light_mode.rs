//! LED value codecs and the light-mode write request.
//!
//! Each enumerated value maps to and from a single raw byte; the maps are
//! exhaustive and rejecting, so a byte outside the known range never becomes
//! a variant. The request frame is opcode 0x51, sub-opcode 0x28, with the
//! LED payload at fixed offsets.

use vstd::prelude::*;

use crate::color::hex_bytes;
use crate::color::parse_color;
use crate::color::valid_hex;
use crate::error::InputError;

verus! {

/// Which LED a command addresses.
#[derive(Debug, Clone, Copy, PartialEq, Eq, Structural)]
pub enum LedType {
    Logo,
    Wheel,
    Bottom,
    All,
}

/// The raw byte of each LED position.
pub open spec fn led_type_code(t: LedType) -> u8 {
    match t {
        LedType::Logo => 0u8,
        LedType::Wheel => 1u8,
        LedType::Bottom => 2u8,
        LedType::All => 3u8,
    }
}

/// The LED position of a raw byte, if the byte is in range.
pub open spec fn led_type_of_code(b: u8) -> Option<LedType> {
    match b {
        0u8 => Some(LedType::Logo),
        1u8 => Some(LedType::Wheel),
        2u8 => Some(LedType::Bottom),
        3u8 => Some(LedType::All),
        _ => None,
    }
}

impl LedType {
    /// The raw byte the device uses for this position.
    pub fn as_byte(&self) -> (r: u8)
        ensures
            r == led_type_code(*self),
    {
        match self {
            LedType::Logo => 0,
            LedType::Wheel => 1,
            LedType::Bottom => 2,
            LedType::All => 3,
        }
    }

    /// The position of a raw byte; rejects bytes outside the known range.
    pub fn from_byte(b: u8) -> (r: Option<LedType>)
        ensures
            r == led_type_of_code(b),
    {
        match b {
            0 => Some(LedType::Logo),
            1 => Some(LedType::Wheel),
            2 => Some(LedType::Bottom),
            3 => Some(LedType::All),
            _ => None,
        }
    }
}

/// The light pattern an LED plays.
#[derive(Debug, Clone, Copy, PartialEq, Eq, Structural)]
pub enum LightMode {
    Default,
    Breathing,
    ColorCycle,
    Wave,
    Reactive,
    Flasher,
    Battery,
}

/// The raw byte of each light pattern.
pub open spec fn light_mode_code(m: LightMode) -> u8 {
    match m {
        LightMode::Default => 0u8,
        LightMode::Breathing => 1u8,
        LightMode::ColorCycle => 2u8,
        LightMode::Wave => 3u8,
        LightMode::Reactive => 4u8,
        LightMode::Flasher => 5u8,
        LightMode::Battery => 6u8,
    }
}

/// The light pattern of a raw byte, if the byte is in range.
pub open spec fn light_mode_of_code(b: u8) -> Option<LightMode> {
    match b {
        0u8 => Some(LightMode::Default),
        1u8 => Some(LightMode::Breathing),
        2u8 => Some(LightMode::ColorCycle),
        3u8 => Some(LightMode::Wave),
        4u8 => Some(LightMode::Reactive),
        5u8 => Some(LightMode::Flasher),
        6u8 => Some(LightMode::Battery),
        _ => None,
    }
}

impl LightMode {
    /// The raw byte the device uses for this pattern.
    pub fn as_byte(&self) -> (r: u8)
        ensures
            r == light_mode_code(*self),
    {
        match self {
            LightMode::Default => 0,
            LightMode::Breathing => 1,
            LightMode::ColorCycle => 2,
            LightMode::Wave => 3,
            LightMode::Reactive => 4,
            LightMode::Flasher => 5,
            LightMode::Battery => 6,
        }
    }

    /// The pattern of a raw byte; rejects bytes outside the known range.
    pub fn from_byte(b: u8) -> (r: Option<LightMode>)
        ensures
            r == light_mode_of_code(b),
    {
        match b {
            0 => Some(LightMode::Default),
            1 => Some(LightMode::Breathing),
            2 => Some(LightMode::ColorCycle),
            3 => Some(LightMode::Wave),
            4 => Some(LightMode::Reactive),
            5 => Some(LightMode::Flasher),
            6 => Some(LightMode::Battery),
            _ => None,
        }
    }
}

/// LED brightness, a five-step scale of 25% increments.
#[derive(Debug, Clone, Copy, PartialEq, Eq, Structural)]
pub enum LedBrightness {
    Percent0,
    Percent25,
    Percent50,
    Percent75,
    Percent100,
}

/// The raw step byte of each brightness level.
pub open spec fn brightness_step(b: LedBrightness) -> u8 {
    match b {
        LedBrightness::Percent0 => 0u8,
        LedBrightness::Percent25 => 1u8,
        LedBrightness::Percent50 => 2u8,
        LedBrightness::Percent75 => 3u8,
        LedBrightness::Percent100 => 4u8,
    }
}

/// The brightness level of a raw step byte, if the byte is in range.
pub open spec fn brightness_of_step(b: u8) -> Option<LedBrightness> {
    match b {
        0u8 => Some(LedBrightness::Percent0),
        1u8 => Some(LedBrightness::Percent25),
        2u8 => Some(LedBrightness::Percent50),
        3u8 => Some(LedBrightness::Percent75),
        4u8 => Some(LedBrightness::Percent100),
        _ => None,
    }
}

/// The percent value of each brightness level.
pub open spec fn percent_of_brightness(b: LedBrightness) -> usize {
    match b {
        LedBrightness::Percent0 => 0usize,
        LedBrightness::Percent25 => 25usize,
        LedBrightness::Percent50 => 50usize,
        LedBrightness::Percent75 => 75usize,
        LedBrightness::Percent100 => 100usize,
    }
}

/// True exactly for the five percent values the device understands.
pub open spec fn is_valid_percent(p: usize) -> bool {
    p == 0 || p == 25 || p == 50 || p == 75 || p == 100
}

impl LedBrightness {
    /// The brightness level of a percent value. The five listed percent
    /// values are the only ones accepted.
    pub fn from_percent(percent: usize) -> (r: LedBrightness)
        requires
            is_valid_percent(percent),
        ensures
            percent_of_brightness(r) == percent,
    {
        match percent {
            0 => LedBrightness::Percent0,
            25 => LedBrightness::Percent25,
            50 => LedBrightness::Percent50,
            75 => LedBrightness::Percent75,
            _ => LedBrightness::Percent100,
        }
    }

    /// The brightness level of a percent value; rejects any percent outside
    /// {0, 25, 50, 75, 100}.
    pub fn try_from_percent(percent: usize) -> (r: Option<LedBrightness>)
        ensures
            match r {
                Some(b) => is_valid_percent(percent) && percent_of_brightness(b) == percent,
                None => !is_valid_percent(percent),
            },
    {
        match percent {
            0 => Some(LedBrightness::Percent0),
            25 => Some(LedBrightness::Percent25),
            50 => Some(LedBrightness::Percent50),
            75 => Some(LedBrightness::Percent75),
            100 => Some(LedBrightness::Percent100),
            _ => None,
        }
    }

    /// The percent value of this brightness level.
    pub fn as_percent(&self) -> (r: usize)
        ensures
            r == percent_of_brightness(*self),
            is_valid_percent(r),
    {
        match self {
            LedBrightness::Percent0 => 0,
            LedBrightness::Percent25 => 25,
            LedBrightness::Percent50 => 50,
            LedBrightness::Percent75 => 75,
            LedBrightness::Percent100 => 100,
        }
    }

    /// The raw step byte the device uses for this brightness level.
    pub fn as_byte(&self) -> (r: u8)
        ensures
            r == brightness_step(*self),
    {
        match self {
            LedBrightness::Percent0 => 0,
            LedBrightness::Percent25 => 1,
            LedBrightness::Percent50 => 2,
            LedBrightness::Percent75 => 3,
            LedBrightness::Percent100 => 4,
        }
    }

    /// The brightness level of a raw step byte; rejects bytes outside the
    /// known range.
    pub fn from_byte(b: u8) -> (r: Option<LedBrightness>)
        ensures
            r == brightness_of_step(b),
    {
        match b {
            0 => Some(LedBrightness::Percent0),
            1 => Some(LedBrightness::Percent25),
            2 => Some(LedBrightness::Percent50),
            3 => Some(LedBrightness::Percent75),
            4 => Some(LedBrightness::Percent100),
            _ => None,
        }
    }
}

/// One LED's full state: position, pattern, brightness and color. Serves both
/// as the write payload and as one entry of a read reply.
#[derive(Debug, Clone, Copy, PartialEq, Eq, Structural)]
pub struct LedData {
    pub led_type: LedType,
    pub light_mode: LightMode,
    pub brightness: LedBrightness,
    pub r: u8,
    pub g: u8,
    pub b: u8,
}

/// The light-mode request frame: opcode 0x51, sub-opcode 0x28, position at
/// offset 2, pattern at 4, brightness step at 5, color at 6..=8, zeroes
/// everywhere else.
pub open spec fn light_frame(d: LedData) -> Seq<u8> {
    Seq::new(
        64,
        |i: int|
            if i == 0 {
                0x51u8
            } else if i == 1 {
                0x28u8
            } else if i == 2 {
                led_type_code(d.led_type)
            } else if i == 4 {
                light_mode_code(d.light_mode)
            } else if i == 5 {
                brightness_step(d.brightness)
            } else if i == 6 {
                d.r
            } else if i == 7 {
                d.g
            } else if i == 8 {
                d.b
            } else {
                0u8
            },
    )
}

/// Reading a light-mode frame back: checks the header, then maps each payload
/// byte through the byte-to-variant tables.
pub open spec fn decode_light_frame(s: Seq<u8>) -> Option<LedData> {
    if s.len() == 64 && s[0] == 0x51 && s[1] == 0x28 {
        match (led_type_of_code(s[2]), light_mode_of_code(s[4]), brightness_of_step(s[5])) {
            (Some(t), Some(m), Some(br)) => Some(
                LedData { led_type: t, light_mode: m, brightness: br, r: s[6], g: s[7], b: s[8] },
            ),
            _ => None,
        }
    } else {
        None
    }
}

/// The write request that applies one LED's state.
#[derive(Debug, Clone, Copy, PartialEq, Eq, Structural)]
pub struct SetLightModeRequest(pub LedData);

impl From<LedData> for SetLightModeRequest {
    fn from(data: LedData) -> (r: Self) {
        SetLightModeRequest(data)
    }
}

impl vstd::std_specs::convert::FromSpecImpl<LedData> for SetLightModeRequest {
    open spec fn obeys_from_spec() -> bool {
        true
    }

    open spec fn from_spec(data: LedData) -> Self {
        SetLightModeRequest(data)
    }
}

impl SetLightModeRequest {
    /// Encodes the request into its 64-byte frame.
    pub fn as_byte_vec(&self) -> (buf: [u8; 64])
        ensures
            buf@ == light_frame(self.0),
    {
        let mut buf = [0u8; 64];
        buf[0] = 0x51;
        buf[1] = 0x28;
        buf[2] = self.0.led_type.as_byte();
        buf[4] = self.0.light_mode.as_byte();
        buf[5] = self.0.brightness.as_byte();
        buf[6] = self.0.r;
        buf[7] = self.0.g;
        buf[8] = self.0.b;
        proof {
            assert(buf@ =~= light_frame(self.0));
        }
        buf
    }

    /// The write is applied exactly when the reply echoes the request header.
    pub fn decode(reply: &[u8; 64]) -> (applied: bool)
        ensures
            applied == (reply@[0] == 0x51 && reply@[1] == 0x28),
    {
        reply[0] == 0x51 && reply[1] == 0x28
    }
}

/// Encoding an LED state and reading the same bytes back through the
/// byte-to-variant maps recovers every field exactly.
pub proof fn lemma_light_frame_round_trip(d: LedData)
    ensures
        decode_light_frame(light_frame(d)) == Some(d),
{
}

/// Builds the light-mode request from caller input. The color text is parsed
/// first, as six hex digits; then the brightness percent is checked against
/// the five allowed steps. Invalid input is rejected before any frame is
/// built and is never retried.
pub fn build_light_request(
    led_type: LedType,
    light_mode: LightMode,
    brightness: usize,
    color: &[u8],
) -> (r: Result<SetLightModeRequest, InputError>)
    ensures
        match r {
            Ok(req) => {
                &&& valid_hex(color@) && color@.len() == 6
                &&& is_valid_percent(brightness)
                &&& req.0.led_type == led_type
                &&& req.0.light_mode == light_mode
                &&& percent_of_brightness(req.0.brightness) == brightness
                &&& req.0.r == hex_bytes(color@)[0]
                &&& req.0.g == hex_bytes(color@)[1]
                &&& req.0.b == hex_bytes(color@)[2]
            },
            Err(InputError::InvalidColor) => !(valid_hex(color@) && color@.len() == 6),
            Err(InputError::InvalidBrightness(p)) => {
                &&& valid_hex(color@) && color@.len() == 6
                &&& p == brightness
                &&& !is_valid_percent(brightness)
            },
            Err(_) => false,
        },
{
    let (red, green, blue) = match parse_color(color) {
        Ok(rgb) => rgb,
        Err(e) => {
            return Err(e);
        },
    };
    let step = match LedBrightness::try_from_percent(brightness) {
        Some(b) => b,
        None => {
            return Err(InputError::InvalidBrightness(brightness));
        },
    };
    Ok(
        SetLightModeRequest(
            LedData { led_type, light_mode, brightness: step, r: red, g: green, b: blue },
        ),
    )
}

} // verus!
