//! The frames received from the robot controller over TCP.

use crate::proto::tcp::frame;
use crate::proto::DecodeError;
use crate::wire::{advance, buf_contents};
use bytes::BytesMut;
use vstd::prelude::*;
use vstd::slice::slice_subrange;

verus! {

/// One received frame: its id and its payload.
#[derive(Clone, Debug)]
pub struct TcpPacket {
    pub id: u8,
    pub data: Vec<u8>,
}

/// What the front of a stream holds.
pub enum FrontOfStream {
    /// Not yet a whole frame: more bytes are needed.
    Incomplete,
    /// A frame that announces a length of zero.
    Empty,
    /// A whole frame of `used` bytes, with this id and payload.
    Frame { id: u8, payload: Seq<u8>, used: nat },
}

/// Reads the front of `bytes` as a frame.
pub open spec fn front(bytes: Seq<u8>) -> FrontOfStream {
    if bytes.len() < 2 {
        FrontOfStream::Incomplete
    } else {
        let len = 256 * bytes[0] + bytes[1];
        if len == 0 {
            FrontOfStream::Empty
        } else if bytes.len() < 2 + len {
            FrontOfStream::Incomplete
        } else {
            FrontOfStream::Frame {
                id: bytes[2],
                payload: bytes.subrange(3, 2 + len),
                used: (2 + len) as nat,
            }
        }
    }
}

/// A frame reads back: whatever follows it in the stream, the front of the
/// stream is the id and the payload that were framed.
pub proof fn lemma_frame_reads_back(id: u8, payload: Seq<u8>, rest: Seq<u8>)
    requires
        payload.len() <= crate::proto::tcp::MAX_PAYLOAD,
    ensures
        front(frame(id, payload) + rest) == (FrontOfStream::Frame {
            id,
            payload,
            used: (3 + payload.len()) as nat,
        }),
{
    let bytes = frame(id, payload) + rest;
    let n = (1 + payload.len()) as u16;
    assert(bytes.subrange(3, 2 + n) =~= payload);
}

impl TcpPacket {
    /// Takes one frame off the front of `buf`.
    ///
    /// Gives the frame, and leaves in the buffer what follows it. While the
    /// frame is not yet whole the result is `None`, and for a frame of
    /// length zero an error; in both cases the buffer is left as it was.
    pub fn decode(buf: &mut BytesMut) -> (result: Result<Option<TcpPacket>, DecodeError>)
        ensures
            match front(buf_contents(*old(buf))) {
                FrontOfStream::Incomplete => {
                    &&& result == Ok::<Option<TcpPacket>, DecodeError>(None)
                    &&& buf_contents(*final(buf)) == buf_contents(*old(buf))
                },
                FrontOfStream::Empty => {
                    &&& result == Err::<Option<TcpPacket>, DecodeError>(DecodeError::EmptyFrame)
                    &&& buf_contents(*final(buf)) == buf_contents(*old(buf))
                },
                FrontOfStream::Frame { id, payload, used } => {
                    &&& result matches Ok(Some(packet))
                    &&& packet.id == id
                    &&& packet.data@ == payload
                    &&& buf_contents(*final(buf)) == buf_contents(*old(buf)).skip(used as int)
                },
            },
    {
        let (packet, used) = {
            let view: &[u8] = &*buf;
            if view.len() < 2 {
                return Ok(None);
            }
            let len = (view[0] as usize) * 256 + view[1] as usize;
            if len == 0 {
                return Err(DecodeError::EmptyFrame);
            }
            if view.len() - 2 < len {
                return Ok(None);
            }
            let id = view[2];
            let payload = slice_subrange(view, 3, 2 + len);
            let mut data: Vec<u8> = Vec::with_capacity(len - 1);
            data.extend_from_slice(payload);
            (TcpPacket { id, data }, 2 + len)
        };
        advance(buf, used);
        Ok(Some(packet))
    }
}

} // verus!
