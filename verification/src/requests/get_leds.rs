//! The LED state query: opcode 0x12, sub-opcode 0x03. The reply carries three
//! 5-byte LED slots at offsets 4, 9 and 14, each holding pattern byte,
//! brightness byte and color; the position follows from the slot index
//! (0 = logo, 1 = wheel, 2 = bottom).

use vstd::prelude::*;

use crate::error::DecodeError;
use crate::frame::echo_ok;
use crate::frame::request_frame;
use crate::frame::header_frame;
use crate::requests::set_light_mode::LedType;
use crate::requests::set_light_mode::LightMode;
use crate::requests::set_light_mode::LedBrightness;
use crate::requests::set_light_mode::LedData;
use crate::requests::set_light_mode::light_mode_of_code;
use crate::requests::set_light_mode::brightness_of_step;

verus! {

/// The LED position a reply slot describes.
pub open spec fn slot_position(slot: int) -> LedType {
    if slot == 0 {
        LedType::Logo
    } else if slot == 1 {
        LedType::Wheel
    } else {
        LedType::Bottom
    }
}

/// Reading one 5-byte slot: the first byte outside its known range, in field
/// order, decides the error.
pub open spec fn decode_slot(s: Seq<u8>, slot: int) -> Result<LedData, DecodeError> {
    let base = 4 + 5 * slot;
    match (light_mode_of_code(s[base]), brightness_of_step(s[base + 1])) {
        (None, _) => Err(DecodeError::UnknownLightMode(s[base])),
        (Some(_), None) => Err(DecodeError::UnknownBrightness(s[base + 1])),
        (Some(m), Some(br)) => Ok(
            LedData {
                led_type: slot_position(slot),
                light_mode: m,
                brightness: br,
                r: s[base + 2],
                g: s[base + 3],
                b: s[base + 4],
            },
        ),
    }
}

/// Reading a full LED reply: the echo check first, then the three slots in
/// order; the first failing slot decides the error.
pub open spec fn decode_leds(s: Seq<u8>) -> Result<Seq<LedData>, DecodeError> {
    if !echo_ok(request_frame(0x12, 0x03), s) {
        Err(DecodeError::EchoMismatch)
    } else {
        match (decode_slot(s, 0), decode_slot(s, 1), decode_slot(s, 2)) {
            (Err(e), _, _) => Err(e),
            (Ok(_), Err(e), _) => Err(e),
            (Ok(_), Ok(_), Err(e)) => Err(e),
            (Ok(a), Ok(b), Ok(c)) => Ok(seq![a, b, c]),
        }
    }
}

/// The decoded LED states, one entry per reply slot.
#[derive(Debug, Clone, PartialEq, Eq)]
pub struct GetLedsResponse(pub Vec<LedData>);

/// The LED read request.
#[derive(Debug, Clone, Copy, PartialEq, Eq, Structural)]
pub struct GetLeds;

fn decode_slot_at(reply: &[u8; 64], slot: usize) -> (r: Result<LedData, DecodeError>)
    requires
        slot < 3,
    ensures
        r == decode_slot(reply@, slot as int),
{
    let base: usize = 4 + 5 * slot;
    let light_mode = match LightMode::from_byte(reply[base]) {
        Some(m) => m,
        None => {
            return Err(DecodeError::UnknownLightMode(reply[base]));
        },
    };
    let brightness = match LedBrightness::from_byte(reply[base + 1]) {
        Some(b) => b,
        None => {
            return Err(DecodeError::UnknownBrightness(reply[base + 1]));
        },
    };
    let led_type = if slot == 0 {
        LedType::Logo
    } else if slot == 1 {
        LedType::Wheel
    } else {
        LedType::Bottom
    };
    Ok(
        LedData {
            led_type,
            light_mode,
            brightness,
            r: reply[base + 2],
            g: reply[base + 3],
            b: reply[base + 4],
        },
    )
}

impl GetLeds {
    /// Encodes the request into its 64-byte frame.
    pub fn as_byte_vec(&self) -> (buf: [u8; 64])
        ensures
            buf@ == request_frame(0x12, 0x03),
    {
        header_frame(0x12, 0x03)
    }

    /// Decodes a reply: the echo check first, then the three LED slots. A
    /// pattern or brightness byte outside its known range is a decode
    /// failure, not a default.
    pub fn decode(reply: &[u8; 64]) -> (r: Result<GetLedsResponse, DecodeError>)
        ensures
            match r {
                Ok(resp) => decode_leds(reply@) matches Ok(s) && resp.0@ == s,
                Err(e) => decode_leds(reply@) == Err::<Seq<LedData>, _>(e),
            },
    {
        if !(reply[0] == 0x12 && reply[1] == 0x03) {
            return Err(DecodeError::EchoMismatch);
        }
        let mut leds: Vec<LedData> = Vec::new();
        let slot0 = match decode_slot_at(reply, 0) {
            Ok(d) => d,
            Err(e) => {
                return Err(e);
            },
        };
        let slot1 = match decode_slot_at(reply, 1) {
            Ok(d) => d,
            Err(e) => {
                return Err(e);
            },
        };
        let slot2 = match decode_slot_at(reply, 2) {
            Ok(d) => d,
            Err(e) => {
                return Err(e);
            },
        };
        leds.push(slot0);
        leds.push(slot1);
        leds.push(slot2);
        proof {
            assert(leds@ =~= seq![slot0, slot1, slot2]);
        }
        Ok(GetLedsResponse(leds))
    }
}

} // verus!
