//! Protocol layer for a vendor-specific HID mouse: fixed 64-byte request and
//! reply frames, the per-command encodings and decodings, and the execution
//! discipline that turns an unreliable byte exchange into a request/response
//! call.

pub mod color;
pub mod error;
pub mod executor;
pub mod frame;
pub mod requests;
