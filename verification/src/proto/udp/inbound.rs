//! The status packet received from the robot controller.

pub mod types;

use self::types::{Status, Trace, Voltage};
use crate::proto::DecodeError;
use crate::wire::{advance, buf_contents};
use bytes::BytesMut;
use vstd::prelude::*;

verus! {

/// The length of the fixed part of a status packet.
pub const HEADER_LEN: usize = 8;

/// A status packet, as far as this library reads it.
#[derive(Copy, Clone, Debug, PartialEq, Eq, Structural)]
pub struct UdpResponsePacket {
    pub seqnum: u16,
    pub status: Status,
    pub trace: Trace,
    pub battery: Voltage,
    pub need_date: bool,
}

/// The length of the payload that follows the id of a known inbound tag, or
/// `None` for an id that is not known.
pub open spec fn tag_len(id: u8) -> Option<nat> {
    if id == 0x01 {
        Some(8)
    } else if id == 0x04 {
        Some(4)
    } else if id == 0x05 {
        Some(20)
    } else if id == 0x06 {
        Some(8)
    } else if id == 0x08 {
        Some(25)
    } else if id == 0x09 {
        Some(9)
    } else if id == 0x0e {
        Some(14)
    } else {
        None
    }
}

/// Whether the tags that start at `pos` can be walked without running off
/// the end of `bytes`. The walk reads an id, skips the payload of a known
/// tag and goes on; it ends at the end of the buffer or at an id that is not
/// known, whatever follows that id.
pub open spec fn tags_complete(bytes: Seq<u8>, pos: int) -> bool
    decreases bytes.len() - pos,
{
    if pos < 0 || pos >= bytes.len() {
        true
    } else {
        match tag_len(bytes[pos]) {
            None => true,
            Some(len) => pos + 1 + len <= bytes.len() && tags_complete(bytes, pos + 1 + len),
        }
    }
}

/// The fixed part of a status packet, read from the first eight bytes:
/// sequence number (most significant byte first), version (not kept),
/// status, trace, battery (whole volts, then 256ths), and the date request,
/// which is set where the byte is 1.
pub open spec fn header_fields(bytes: Seq<u8>) -> UdpResponsePacket {
    UdpResponsePacket {
        seqnum: (256 * bytes[0] + bytes[1]) as u16,
        status: Status(bytes[3]),
        trace: Trace(bytes[4]),
        battery: Voltage { whole: bytes[5], fraction: bytes[6] },
        need_date: bytes[7] == 1,
    }
}

/// What decoding `bytes` gives.
pub open spec fn decoded(bytes: Seq<u8>) -> Result<UdpResponsePacket, DecodeError> {
    if bytes.len() < HEADER_LEN {
        Err(DecodeError::TruncatedHeader)
    } else if !tags_complete(bytes, HEADER_LEN as int) {
        Err(DecodeError::TruncatedTag)
    } else {
        Ok(header_fields(bytes))
    }
}

/// Where the walk over the tags that start at `pos` ends: behind the last
/// known tag, or behind the first id that is not known.
pub open spec fn walk_end(bytes: Seq<u8>, pos: int) -> int
    decreases bytes.len() - pos,
{
    if pos < 0 || pos >= bytes.len() {
        pos
    } else {
        match tag_len(bytes[pos]) {
            None => pos + 1,
            Some(len) => if pos + 1 + len <= bytes.len() {
                walk_end(bytes, pos + 1 + len)
            } else {
                pos + 1
            },
        }
    }
}

/// How many bytes decoding takes off the front of `bytes`: the fixed part
/// and the tags that were walked, or nothing where decoding fails.
pub open spec fn consumed(bytes: Seq<u8>) -> int {
    if decoded(bytes) is Ok {
        walk_end(bytes, HEADER_LEN as int)
    } else {
        0
    }
}

/// The eight bytes that a controller sends for `packet` under the given
/// version byte.
pub open spec fn header_bytes(packet: UdpResponsePacket, version: u8) -> Seq<u8> {
    seq![
        (packet.seqnum / 256) as u8,
        (packet.seqnum % 256) as u8,
        version,
        packet.status.0,
        packet.trace.0,
        packet.battery.whole,
        packet.battery.fraction,
        if packet.need_date {
            1u8
        } else {
            0u8
        },
    ]
}

/// Decoding reads back what was sent: the header of any packet, under any
/// version byte, decodes to that packet and is consumed whole.
pub proof fn lemma_decode_header(packet: UdpResponsePacket, version: u8)
    ensures
        decoded(header_bytes(packet, version)) == Ok::<UdpResponsePacket, DecodeError>(packet),
        consumed(header_bytes(packet, version)) == HEADER_LEN,
{
}

/// The payload length of a known tag id.
fn known_tag_len(id: u8) -> (len: Option<usize>)
    ensures
        match len {
            Some(n) => tag_len(id) == Some(n as nat),
            None => tag_len(id) is None,
        },
{
    match id {
        0x01 => Some(8),
        0x04 => Some(4),
        0x05 => Some(20),
        0x06 => Some(8),
        0x08 => Some(25),
        0x09 => Some(9),
        0x0e => Some(14),
        _ => None,
    }
}

/// Walks the tags behind the fixed part. Gives the position where the walk
/// ends, or `None` where the buffer ends inside a known tag.
fn walk_tags(bytes: &[u8]) -> (end: Option<usize>)
    requires
        HEADER_LEN <= bytes@.len(),
    ensures
        match end {
            Some(end) => {
                &&& tags_complete(bytes@, HEADER_LEN as int)
                &&& end == walk_end(bytes@, HEADER_LEN as int)
                &&& HEADER_LEN <= end <= bytes@.len()
            },
            None => !tags_complete(bytes@, HEADER_LEN as int),
        },
{
    let len = bytes.len();
    let mut pos: usize = HEADER_LEN;
    while pos < len
        invariant
            HEADER_LEN <= pos <= len,
            len == bytes@.len(),
            tags_complete(bytes@, HEADER_LEN as int) == tags_complete(bytes@, pos as int),
            walk_end(bytes@, HEADER_LEN as int) == walk_end(bytes@, pos as int),
        decreases len - pos,
    {
        match known_tag_len(bytes[pos]) {
            Some(payload_len) => {
                if payload_len > len - pos - 1 {
                    return None;
                }
                pos = pos + 1 + payload_len;
            },
            None => {
                return Some(pos + 1);
            },
        }
    }
    Some(pos)
}

impl UdpResponsePacket {
    /// Decodes a status packet off the front of `buf`: see [`decoded`].
    ///
    /// The bytes that were read are taken off the buffer: see [`consumed`].
    /// Where decoding fails the buffer is left as it was.
    pub fn decode(buf: &mut BytesMut) -> (result: Result<UdpResponsePacket, DecodeError>)
        ensures
            result == decoded(buf_contents(*old(buf))),
            buf_contents(*final(buf)) == buf_contents(*old(buf)).skip(
                consumed(buf_contents(*old(buf))),
            ),
    {
        let (packet, end) = {
            let bytes: &[u8] = &*buf;
            if bytes.len() < HEADER_LEN {
                return Err(DecodeError::TruncatedHeader);
            }
            let seqnum = (bytes[0] as u16) * 256 + bytes[1] as u16;
            let status = Status(bytes[3]);
            let trace = Trace(bytes[4]);
            let battery = Voltage { whole: bytes[5], fraction: bytes[6] };
            let need_date = bytes[7] == 1;
            match walk_tags(bytes) {
                Some(end) => (UdpResponsePacket { seqnum, status, trace, battery, need_date }, end),
                None => {
                    return Err(DecodeError::TruncatedTag);
                },
            }
        };
        advance(buf, end);
        Ok(packet)
    }
}

} // verus!
