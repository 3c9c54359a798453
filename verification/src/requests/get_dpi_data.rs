//! The DPI query: opcode 0x12, sub-opcode 0x04. The reply carries four raw
//! DPI bytes at offsets 4, 6, 8 and 10, each mapped through the same
//! byte-to-DPI transform: 100 DPI per raw unit with a 100 DPI floor.

use vstd::prelude::*;

use crate::frame::echo_ok;
use crate::frame::request_frame;
use crate::frame::header_frame;

verus! {

/// The four DPI settings of the current profile.
#[derive(Debug, Clone, Copy, PartialEq, Eq, Structural)]
pub struct DpiDataResponse {
    pub dpi1: usize,
    pub dpi2: usize,
    pub dpi3: usize,
    pub dpi4: usize,
}

/// The DPI value of one raw byte.
pub open spec fn dpi_value(b: u8) -> int {
    (b * 50 + 50) * 2
}

/// Reading a DPI reply: the echo check, then the four raw bytes at offsets
/// 4, 6, 8 and 10, each through the byte-to-DPI transform.
pub open spec fn decode_dpi(s: Seq<u8>) -> Option<DpiDataResponse> {
    if echo_ok(request_frame(0x12, 0x04), s) {
        Some(
            DpiDataResponse {
                dpi1: dpi_value(s[4]) as usize,
                dpi2: dpi_value(s[6]) as usize,
                dpi3: dpi_value(s[8]) as usize,
                dpi4: dpi_value(s[10]) as usize,
            },
        )
    } else {
        None
    }
}

/// The DPI read request.
#[derive(Debug, Clone, Copy, PartialEq, Eq, Structural)]
pub struct GetDpiData;

impl GetDpiData {
    /// Encodes the request into its 64-byte frame.
    pub fn as_byte_vec(&self) -> (buf: [u8; 64])
        ensures
            buf@ == request_frame(0x12, 0x04),
    {
        header_frame(0x12, 0x04)
    }

    /// Decodes a reply. Every payload byte is a valid DPI value, so the only
    /// failure is a reply that does not echo the request header.
    pub fn decode(reply: &[u8; 64]) -> (r: Option<DpiDataResponse>)
        ensures
            r == decode_dpi(reply@),
            r matches Some(d) ==> d.dpi1 == dpi_value(reply@[4]) && d.dpi2 == dpi_value(reply@[6])
                && d.dpi3 == dpi_value(reply@[8]) && d.dpi4 == dpi_value(reply@[10]),
    {
        if !(reply[0] == 0x12 && reply[1] == 0x04) {
            return None;
        }
        Some(
            DpiDataResponse {
                dpi1: (reply[4] as usize * 50 + 50) * 2,
                dpi2: (reply[6] as usize * 50 + 50) * 2,
                dpi3: (reply[8] as usize * 50 + 50) * 2,
                dpi4: (reply[10] as usize * 50 + 50) * 2,
            },
        )
    }
}

} // verus!
