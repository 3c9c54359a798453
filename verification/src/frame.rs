//! The fixed-size report buffer and the echo check.
//!
//! Every request and every reply on the wire is exactly one 64-byte report.
//! The device offers no status codes; the only correctness signal is that a
//! reply begins with the same opcode and sub-opcode bytes as the request.

use vstd::prelude::*;

verus! {

/// True when the reply begins with the request's opcode and sub-opcode.
pub open spec fn echo_ok(req: Seq<u8>, reply: Seq<u8>) -> bool {
    reply[0] == req[0] && reply[1] == req[1]
}

/// A request that carries no payload: the opcode at offset 0, the sub-opcode
/// at offset 1, and zeroes everywhere else.
pub open spec fn request_frame(op: u8, sub: u8) -> Seq<u8> {
    Seq::new(
        64,
        |i: int|
            if i == 0 {
                op
            } else if i == 1 {
                sub
            } else {
                0u8
            },
    )
}

/// Builds a payload-free request frame.
pub fn header_frame(op: u8, sub: u8) -> (buf: [u8; 64])
    ensures
        buf@ == request_frame(op, sub),
{
    let mut buf = [0u8; 64];
    buf[0] = op;
    buf[1] = sub;
    proof {
        assert(buf@ =~= request_frame(op, sub));
    }
    buf
}

} // verus!
