//! The confirmation command: opcode 0x50, sub-opcode 0x03, no payload, and no
//! reply payload is decoded — the write itself is the acknowledgment.

use vstd::prelude::*;

use crate::frame::request_frame;
use crate::frame::header_frame;

verus! {

/// The write-only confirmation request.
#[derive(Debug, Clone, Copy, PartialEq, Eq, Structural)]
pub struct RogConfirm;

impl RogConfirm {
    /// Encodes the request into its 64-byte frame.
    pub fn as_byte_vec(&self) -> (buf: [u8; 64])
        ensures
            buf@ == request_frame(0x50, 0x03),
    {
        header_frame(0x50, 0x03)
    }
}

} // verus!
