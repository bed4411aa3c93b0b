//! The tags sent to the robot controller over TCP.

use crate::proto::tcp::{frame, MAX_PAYLOAD};
use crate::wire::{buf_contents, bytes_contents, max_buf_len, put_u16, put_u8};
use bytes::{Bytes, BytesMut};
use vstd::prelude::*;
use vstd::utf8::encode_utf8;

verus! {

/// Frames `data` under `id`.
pub fn construct_frame(id: u8, data: Bytes) -> (out: Bytes)
    requires
        bytes_contents(data).len() <= MAX_PAYLOAD,
    ensures
        bytes_contents(out) == frame(id, bytes_contents(data)),
{
    let data_len = data.len();
    let payload_len = 1 + data_len;
    let total_len = 2 + payload_len;
    let mut buf = BytesMut::with_capacity(total_len);
    put_u16(&mut buf, payload_len as u16);
    put_u8(&mut buf, id);
    buf.extend_from_slice(&data);
    buf.freeze()
}

/// The kind of match being played.
#[derive(Copy, Clone, Debug, PartialEq, Eq, Structural)]
pub enum MatchType {
    /// No kind of match: code 0.
    NoMatch,
    Practice,
    Qualifications,
    Eliminations,
}

impl MatchType {
    /// The byte that names the kind on the wire.
    pub open spec fn spec_code(self) -> u8 {
        match self {
            MatchType::NoMatch => 0,
            MatchType::Practice => 1,
            MatchType::Qualifications => 2,
            MatchType::Eliminations => 3,
        }
    }

    /// The byte that names the kind on the wire.
    pub fn code(self) -> (code: u8)
        ensures
            code == self.spec_code(),
    {
        match self {
            MatchType::NoMatch => 0,
            MatchType::Practice => 1,
            MatchType::Qualifications => 2,
            MatchType::Eliminations => 3,
        }
    }
}

/// The competition and the kind of match.
#[derive(Clone, Debug)]
pub struct MatchInfo {
    pub competition: String,
    pub match_type: MatchType,
}

impl MatchInfo {
    /// The id byte of the tag.
    pub const ID: u8 = 0x07;

    /// The tag for a competition and a kind of match.
    pub fn new(competition: &str, match_type: MatchType) -> (tag: MatchInfo)
        ensures
            tag.competition@ == competition@,
            tag.match_type == match_type,
    {
        MatchInfo { competition: competition.to_owned(), match_type }
    }

    /// The payload: the length of the competition's name in one byte, its
    /// UTF-8 bytes, and the kind of match. Of a name longer than 255 bytes
    /// the length byte holds the length modulo 256.
    pub open spec fn payload(&self) -> Seq<u8> {
        let name = encode_utf8(self.competition@);
        seq![(name.len() % 256) as u8] + name + seq![self.match_type.spec_code()]
    }

    /// The id byte of the tag.
    pub fn id(&self) -> (id: u8)
        ensures
            id == MatchInfo::ID,
    {
        0x07
    }

    /// The payload of the tag.
    pub fn data(&self) -> (data: Bytes)
        requires
            self.payload().len() <= max_buf_len(),
        ensures
            bytes_contents(data) == self.payload(),
    {
        let name = self.competition.as_str().as_bytes();
        let mut buf = BytesMut::with_capacity(1 + name.len() + 1);
        put_u8(&mut buf, (name.len() % 256) as u8);
        buf.extend_from_slice(name);
        put_u8(&mut buf, self.match_type.code());
        buf.freeze()
    }

    /// Whether the tag fits a frame.
    pub open spec fn fits(&self) -> bool {
        self.payload().len() <= MAX_PAYLOAD
    }

    /// The frame of the tag: length, id, payload.
    pub fn construct(&self) -> (out: Bytes)
        requires
            self.fits(),
        ensures
            bytes_contents(out) == frame(MatchInfo::ID, self.payload()),
    {
        construct_frame(self.id(), self.data())
    }
}

/// The game-specific message of the match.
#[derive(Clone, Debug)]
pub struct GameData {
    pub gsm: String,
}

impl GameData {
    /// The id byte of the tag.
    pub const ID: u8 = 0x0e;

    /// The payload: the UTF-8 bytes of the message.
    pub open spec fn payload(&self) -> Seq<u8> {
        encode_utf8(self.gsm@)
    }

    /// The id byte of the tag.
    pub fn id(&self) -> (id: u8)
        ensures
            id == GameData::ID,
    {
        0x0e
    }

    /// The payload of the tag.
    pub fn data(&self) -> (data: Bytes)
        requires
            self.payload().len() <= max_buf_len(),
        ensures
            bytes_contents(data) == self.payload(),
    {
        let message = self.gsm.as_str().as_bytes();
        let mut buf = BytesMut::with_capacity(message.len());
        buf.extend_from_slice(message);
        buf.freeze()
    }

    /// Whether the tag fits a frame.
    pub open spec fn fits(&self) -> bool {
        self.payload().len() <= MAX_PAYLOAD
    }

    /// The frame of the tag: length, id, payload.
    pub fn construct(&self) -> (out: Bytes)
        requires
            self.fits(),
        ensures
            bytes_contents(out) == frame(GameData::ID, self.payload()),
    {
        construct_frame(self.id(), self.data())
    }
}

/// Any tag that can be sent over TCP.
#[derive(Clone, Debug)]
pub enum TcpTag {
    MatchInfo(MatchInfo),
    GameData(GameData),
}

impl TcpTag {
    /// The id byte of the tag.
    pub open spec fn spec_id(&self) -> u8 {
        match self {
            TcpTag::MatchInfo(_) => MatchInfo::ID,
            TcpTag::GameData(_) => GameData::ID,
        }
    }

    /// The payload of the tag.
    pub open spec fn payload(&self) -> Seq<u8> {
        match self {
            TcpTag::MatchInfo(tag) => tag.payload(),
            TcpTag::GameData(tag) => tag.payload(),
        }
    }

    /// Whether the tag fits a frame.
    pub open spec fn fits(&self) -> bool {
        self.payload().len() <= MAX_PAYLOAD
    }

    /// The frame of the tag as it goes on the wire.
    pub open spec fn wire(&self) -> Seq<u8> {
        frame(self.spec_id(), self.payload())
    }

    /// Whether the tag fits a frame: see [`TcpTag::fits`].
    pub fn can_construct(&self) -> (ok: bool)
        ensures
            ok == self.fits(),
    {
        match self {
            TcpTag::MatchInfo(tag) => tag.competition.as_str().as_bytes().len() <= MAX_PAYLOAD - 2,
            TcpTag::GameData(tag) => tag.gsm.as_str().as_bytes().len() <= MAX_PAYLOAD,
        }
    }

    /// The id byte of the tag.
    pub fn id(&self) -> (id: u8)
        ensures
            id == self.spec_id(),
    {
        match self {
            TcpTag::MatchInfo(tag) => tag.id(),
            TcpTag::GameData(tag) => tag.id(),
        }
    }

    /// The frame of the tag: length, id, payload.
    pub fn construct(&self) -> (out: Bytes)
        requires
            self.fits(),
        ensures
            bytes_contents(out) == self.wire(),
    {
        match self {
            TcpTag::MatchInfo(tag) => tag.construct(),
            TcpTag::GameData(tag) => tag.construct(),
        }
    }
}

} // verus!
