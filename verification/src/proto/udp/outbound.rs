//! The control packet sent to the robot controller.

pub mod types;

use self::types::tags::UdpTag;
use self::types::{Alliance, Control, Request};
use crate::wire::{be_u16, buf_contents, bytes_contents, max_buf_len, put_u16, put_u8};
use bytes::{Bytes, BytesMut};
use vstd::prelude::*;

verus! {

/// The version byte that every control packet carries.
pub const COMM_VERSION: u8 = 0x01;

/// The frames of a row of tags, one after the other.
pub open spec fn tags_wire(tags: Seq<UdpTag>) -> Seq<u8>
    decreases tags.len(),
{
    if tags.len() == 0 {
        Seq::empty()
    } else {
        tags_wire(tags.drop_last()) + tags.last().wire()
    }
}

/// The frames of the first tags of a row are no longer than those of the
/// whole row.
pub proof fn lemma_tags_wire_grows(tags: Seq<UdpTag>, n: int)
    requires
        0 <= n <= tags.len(),
    ensures
        tags_wire(tags.take(n)).len() <= tags_wire(tags).len(),
    decreases tags.len() - n,
{
    if n == tags.len() {
        assert(tags.take(n) =~= tags);
    } else {
        lemma_tags_wire_grows(tags.drop_last(), n);
        assert(tags.drop_last().take(n) =~= tags.take(n));
    }
}

/// The first six bytes of an encoded packet are its header: the control
/// byte is the fourth of them, the request byte the fifth.
pub proof fn lemma_wire_starts_with_header(packet: UdpControlPacket)
    ensures
        packet.wire().len() >= 6,
        packet.wire()[0] == packet.seqnum / 256,
        packet.wire()[1] == packet.seqnum % 256,
        packet.wire()[2] == COMM_VERSION,
        packet.wire()[3] == packet.control.0,
        packet.wire()[4] == packet.request_byte(),
        packet.wire()[5] == packet.alliance.0,
{
}

/// The control packet for one tick.
pub struct UdpControlPacket {
    pub seqnum: u16,
    pub control: Control,
    pub request: Option<Request>,
    pub alliance: Alliance,
    pub tags: Vec<UdpTag>,
}

impl UdpControlPacket {
    /// The request byte: the pending request, or 0 where there is none.
    pub open spec fn request_byte(&self) -> u8 {
        match self.request {
            Some(request) => request.0,
            None => 0,
        }
    }

    /// The six bytes in front of the tags: sequence number (most significant
    /// byte first), version, control, request, alliance.
    pub open spec fn header(&self) -> Seq<u8> {
        be_u16(self.seqnum) + seq![
            COMM_VERSION,
            self.control.0,
            self.request_byte(),
            self.alliance.0,
        ]
    }

    /// The packet as it goes on the wire: the header, then each tag's frame
    /// in the order of `tags`.
    pub open spec fn wire(&self) -> Seq<u8> {
        self.header() + tags_wire(self.tags@)
    }

    /// Whether the packet can be encoded: every tag fits its frame, and the
    /// packet is no longer than a buffer can be.
    pub open spec fn encodable(&self) -> bool {
        &&& forall|i: int| 0 <= i < self.tags@.len() ==> (#[trigger] self.tags@[i]).fits()
        &&& self.wire().len() <= max_buf_len()
    }

    /// Whether the packet can be encoded: see [`UdpControlPacket::encodable`].
    pub fn can_encode(&self) -> (ok: bool)
        ensures
            ok == self.encodable(),
    {
        let limit = isize::MAX as usize;
        let mut total: usize = 6;
        let mut i: usize = 0;
        while i < self.tags.len()
            invariant
                i <= self.tags@.len(),
                limit == max_buf_len(),
                total == 6 + tags_wire(self.tags@.take(i as int)).len(),
                total <= limit,
                forall|k: int| 0 <= k < i ==> (#[trigger] self.tags@[k]).fits(),
            decreases self.tags@.len() - i,
        {
            if !self.tags[i].can_construct() {
                return false;
            }
            let len = self.tags[i].wire_len();
            assert(self.tags@.take(i as int + 1).drop_last() =~= self.tags@.take(i as int));
            if len > limit - total {
                proof {
                    lemma_tags_wire_grows(self.tags@, i as int + 1);
                }
                return false;
            }
            total += len;
            i += 1;
        }
        assert(self.tags@.take(i as int) =~= self.tags@);
        true
    }

    /// Encodes the packet: see [`UdpControlPacket::wire`].
    pub fn encode(&self) -> (out: Bytes)
        requires
            self.encodable(),
        ensures
            bytes_contents(out) == self.wire(),
    {
        let mut buf = BytesMut::with_capacity(2 + 1 + 1 + 1 + 1);
        put_u16(&mut buf, self.seqnum);
        put_u8(&mut buf, COMM_VERSION);
        put_u8(&mut buf, self.control.bits());
        put_u8(
            &mut buf,
            match self.request {
                Some(request) => request.bits(),
                None => 0,
            },
        );
        put_u8(&mut buf, self.alliance.0);

        let mut i: usize = 0;
        while i < self.tags.len()
            invariant
                i <= self.tags@.len(),
                self.encodable(),
                buf_contents(buf) == self.header() + tags_wire(self.tags@.take(i as int)),
            decreases self.tags@.len() - i,
        {
            let tag_frame = self.tags[i].construct();
            proof {
                assert(self.tags@.take(i as int + 1).drop_last() =~= self.tags@.take(i as int));
                lemma_tags_wire_grows(self.tags@, i as int + 1);
            }
            buf.extend_from_slice(&tag_frame);
            i += 1;
        }
        assert(self.tags@.take(i as int) =~= self.tags@);
        buf.freeze()
    }
}

} // verus!
