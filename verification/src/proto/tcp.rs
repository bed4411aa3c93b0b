//! The TCP side of the protocol.
//!
//! In both directions the stream is a row of frames: a length in two bytes,
//! most significant first, one id byte, then the payload. The length counts
//! the id and the payload, so a payload holds at most 65534 bytes.

pub mod inbound;
pub mod outbound;

use crate::wire::be_u16;
use vstd::prelude::*;

verus! {

/// Longest payload that fits a frame.
pub const MAX_PAYLOAD: usize = 65534;

/// The frame of a tag: length, id, payload.
pub open spec fn frame(id: u8, payload: Seq<u8>) -> Seq<u8> {
    be_u16((1 + payload.len()) as u16) + seq![id] + payload
}

} // verus!
