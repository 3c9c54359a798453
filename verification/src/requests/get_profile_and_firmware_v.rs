//! The profile-and-firmware query: opcode 0x12, sub-opcode 0x00, no payload;
//! no reply payload is currently decoded.

use vstd::prelude::*;

use crate::frame::request_frame;
use crate::frame::header_frame;

verus! {

/// The write-only profile-and-firmware query.
#[derive(Debug, Clone, Copy, PartialEq, Eq, Structural)]
pub struct GetProfileAndFirmwareV;

impl GetProfileAndFirmwareV {
    /// Encodes the request into its 64-byte frame.
    pub fn as_byte_vec(&self) -> (buf: [u8; 64])
        ensures
            buf@ == request_frame(0x12, 0x00),
    {
        header_frame(0x12, 0x00)
    }
}

} // verus!
