//! The tags that can ride on an outbound UDP control packet.
//!
//! A tag goes on the wire as a frame: one length byte, one id byte, then the
//! payload. The length counts the id and the payload, so a payload holds at
//! most 254 bytes.

use crate::util::{pack_buttons, packed_len, to_u8_vec};
use crate::wire::{
    be_u16, be_u32, buf_contents, bytes_contents, bytes_from_string, put_i16, put_i8, put_u32,
    put_u8, twos_u16, twos_u8,
};
use bytes::{Bytes, BytesMut};
use vstd::prelude::*;
use vstd::utf8::encode_utf8;

verus! {

/// Longest payload that fits a frame.
pub const MAX_PAYLOAD: usize = 254;

/// Most axes, buttons or POVs that one count byte can announce.
pub const MAX_COUNT: usize = 255;

/// The frame of a tag: length, id, payload.
pub open spec fn frame(id: u8, payload: Seq<u8>) -> Seq<u8> {
    seq![(1 + payload.len()) as u8, id] + payload
}

/// Frames `data` under `id`.
pub fn construct_frame(id: u8, data: Bytes) -> (out: Bytes)
    requires
        bytes_contents(data).len() <= MAX_PAYLOAD,
    ensures
        bytes_contents(out) == frame(id, bytes_contents(data)),
{
    let data_len = data.len();
    let payload_len = 1 + data_len;
    let mut buf = BytesMut::with_capacity(1 + payload_len);
    put_u8(&mut buf, payload_len as u8);
    put_u8(&mut buf, id);
    buf.extend_from_slice(&data);
    buf.freeze()
}

/// The time left in the current mode, in seconds, as the bits of an IEEE-754
/// single-precision number.
#[derive(Copy, Clone, Debug)]
pub struct Countdown {
    pub seconds_bits: u32,
}

impl Countdown {
    /// The id byte of the tag.
    pub const ID: u8 = 0x07;

    /// A countdown of the seconds whose IEEE-754 bits are `seconds_bits`.
    pub fn new(seconds_bits: u32) -> (tag: Countdown)
        ensures
            tag.seconds_bits == seconds_bits,
    {
        Countdown { seconds_bits }
    }

    /// The payload: the four bytes of the number, most significant first.
    pub open spec fn payload(&self) -> Seq<u8> {
        be_u32(self.seconds_bits)
    }

    /// The id byte of the tag.
    pub fn id(&self) -> (id: u8)
        ensures
            id == Countdown::ID,
    {
        0x07
    }

    /// The payload of the tag.
    pub fn data(&self) -> (data: Bytes)
        ensures
            bytes_contents(data) == self.payload(),
    {
        let mut buf = BytesMut::with_capacity(4);
        put_u32(&mut buf, self.seconds_bits);
        buf.freeze()
    }

    /// The frame of the tag: length, id, payload.
    pub fn construct(&self) -> (out: Bytes)
        ensures
            bytes_contents(out) == frame(Countdown::ID, self.payload()),
    {
        construct_frame(self.id(), self.data())
    }
}

/// The bytes of a row of axis values, one byte each in two's complement.
pub open spec fn axis_bytes(axes: Seq<i8>) -> Seq<u8> {
    Seq::new(axes.len(), |i: int| twos_u8(axes[i]))
}

/// The bytes of a row of POV angles, two bytes each, most significant first,
/// in two's complement.
pub open spec fn pov_bytes(povs: Seq<i16>) -> Seq<u8>
    decreases povs.len(),
{
    if povs.len() == 0 {
        Seq::empty()
    } else {
        pov_bytes(povs.drop_last()) + be_u16(twos_u16(povs.last()))
    }
}

/// A row of POV angles takes two bytes per angle.
pub proof fn lemma_pov_bytes_len(povs: Seq<i16>)
    ensures
        pov_bytes(povs).len() == 2 * povs.len(),
    decreases povs.len(),
{
    if povs.len() > 0 {
        lemma_pov_bytes_len(povs.drop_last());
    }
}

/// The payload of a joystick tag: the number of axes and the axes, the
/// number of buttons and the packed buttons, the number of POVs and the POVs.
pub open spec fn joysticks_payload(axes: Seq<i8>, buttons: Seq<bool>, povs: Seq<i16>) -> Seq<u8> {
    seq![axes.len() as u8] + axis_bytes(axes) + seq![buttons.len() as u8] + pack_buttons(buttons)
        + seq![povs.len() as u8] + pov_bytes(povs)
}

/// The length of a joystick payload.
pub proof fn lemma_joysticks_payload_len(axes: Seq<i8>, buttons: Seq<bool>, povs: Seq<i16>)
    ensures
        joysticks_payload(axes, buttons, povs).len() == 3 + axes.len() + packed_len(buttons.len())
            + 2 * povs.len(),
{
    lemma_pov_bytes_len(povs);
}

/// The state of one joystick: its axes, buttons and POV hats.
#[derive(Clone, Debug)]
pub struct Joysticks {
    pub axes: Vec<i8>,
    pub buttons: Vec<bool>,
    pub povs: Vec<i16>,
}

impl Joysticks {
    /// The id byte of the tag.
    pub const ID: u8 = 0x0c;

    /// The tag for the given axes, buttons and POV hats.
    pub fn new(axes: Vec<i8>, buttons: Vec<bool>, povs: Vec<i16>) -> (tag: Joysticks)
        ensures
            tag.axes == axes,
            tag.buttons == buttons,
            tag.povs == povs,
    {
        Joysticks { axes, buttons, povs }
    }

    /// See [`joysticks_payload`].
    pub open spec fn payload(&self) -> Seq<u8> {
        joysticks_payload(self.axes@, self.buttons@, self.povs@)
    }

    /// Whether each count fits its count byte.
    pub open spec fn counts_fit(&self) -> bool {
        &&& self.axes@.len() <= MAX_COUNT
        &&& self.buttons@.len() <= MAX_COUNT
        &&& self.povs@.len() <= MAX_COUNT
    }

    /// The id byte of the tag.
    pub fn id(&self) -> (id: u8)
        ensures
            id == Joysticks::ID,
    {
        0x0c
    }

    /// The payload of the tag.
    pub fn data(&self) -> (data: Bytes)
        requires
            self.counts_fit(),
        ensures
            bytes_contents(data) == self.payload(),
    {
        let buttons_packed = to_u8_vec(self.buttons.as_slice());
        let capacity = 1 + self.axes.len() + 1 + buttons_packed.len() + 1 + (self.povs.len() * 2);
        let mut buf = BytesMut::with_capacity(capacity);

        put_u8(&mut buf, self.axes.len() as u8);
        let mut i: usize = 0;
        while i < self.axes.len()
            invariant
                i <= self.axes@.len() <= MAX_COUNT,
                buf_contents(buf) == seq![self.axes@.len() as u8] + axis_bytes(
                    self.axes@.take(i as int),
                ),
            decreases self.axes@.len() - i,
        {
            put_i8(&mut buf, self.axes[i]);
            i += 1;
        }

        put_u8(&mut buf, self.buttons.len() as u8);
        buf.extend_from_slice(buttons_packed.as_slice());

        put_u8(&mut buf, self.povs.len() as u8);
        let ghost head = buf_contents(buf);
        let mut j: usize = 0;
        while j < self.povs.len()
            invariant
                j <= self.povs@.len() <= MAX_COUNT,
                head.len() <= 3 + MAX_COUNT + MAX_COUNT,
                buf_contents(buf) == head + pov_bytes(self.povs@.take(j as int)),
            decreases self.povs@.len() - j,
        {
            proof {
                lemma_pov_bytes_len(self.povs@.take(j as int));
            }
            put_i16(&mut buf, self.povs[j]);
            assert(self.povs@.take(j as int + 1).drop_last() =~= self.povs@.take(j as int));
            j += 1;
        }
        assert(self.povs@.take(j as int) =~= self.povs@);
        buf.freeze()
    }

    /// Whether the tag can be framed: each count fits its count byte and the
    /// payload fits the frame's length byte.
    pub open spec fn fits(&self) -> bool {
        self.counts_fit() && self.payload().len() <= MAX_PAYLOAD
    }

    /// The frame of the tag: length, id, payload.
    pub fn construct(&self) -> (out: Bytes)
        requires
            self.fits(),
        ensures
            bytes_contents(out) == frame(Joysticks::ID, self.payload()),
    {
        construct_frame(self.id(), self.data())
    }
}

/// A date and time in UTC.
#[derive(Copy, Clone, Debug, PartialEq, Eq, Structural)]
pub struct DateTime {
    pub micros: u32,
    pub second: u8,
    pub minute: u8,
    pub hour: u8,
    pub day: u8,
    /// The month, counted from zero.
    pub month: u8,
    /// The year, counted from 1900.
    pub year: u8,
}

impl DateTime {
    /// The id byte of the tag.
    pub const ID: u8 = 0x0f;

    /// The tag for the given date and time.
    pub fn new(micros: u32, second: u8, minute: u8, hour: u8, day: u8, month: u8, year: u8) -> (tag:
        DateTime)
        ensures
            tag == (DateTime { micros, second, minute, hour, day, month, year }),
    {
        DateTime { micros, second, minute, hour, day, month, year }
    }

    /// The payload: the microseconds in four bytes, most significant first,
    /// then second, minute, hour, day, month and year, one byte each.
    pub open spec fn payload(&self) -> Seq<u8> {
        be_u32(self.micros) + seq![
            self.second,
            self.minute,
            self.hour,
            self.day,
            self.month,
            self.year,
        ]
    }

    /// The id byte of the tag.
    pub fn id(&self) -> (id: u8)
        ensures
            id == DateTime::ID,
    {
        0x0f
    }

    /// The payload of the tag.
    pub fn data(&self) -> (data: Bytes)
        ensures
            bytes_contents(data) == self.payload(),
    {
        let mut buf = BytesMut::with_capacity(4 + 1 + 1 + 1 + 1 + 1 + 1);
        put_u32(&mut buf, self.micros);
        put_u8(&mut buf, self.second);
        put_u8(&mut buf, self.minute);
        put_u8(&mut buf, self.hour);
        put_u8(&mut buf, self.day);
        put_u8(&mut buf, self.month);
        put_u8(&mut buf, self.year);
        buf.freeze()
    }

    /// The frame of the tag: length, id, payload.
    pub fn construct(&self) -> (out: Bytes)
        ensures
            bytes_contents(out) == frame(DateTime::ID, self.payload()),
    {
        construct_frame(self.id(), self.data())
    }
}

/// The time zone of the controller, by its identifier.
#[derive(Clone, Debug)]
pub struct Timezone {
    pub tz: String,
}

impl Timezone {
    /// The id byte of the tag.
    pub const ID: u8 = 0x10;

    /// The tag for the time zone `tz`.
    pub fn new(tz: &str) -> (tag: Timezone)
        ensures
            tag.tz@ == tz@,
    {
        Timezone { tz: tz.to_owned() }
    }

    /// The payload: the UTF-8 bytes of the identifier, with no length in
    /// front and nothing behind.
    pub open spec fn payload(&self) -> Seq<u8> {
        encode_utf8(self.tz@)
    }

    /// Whether the identifier fits a frame.
    pub open spec fn fits(&self) -> bool {
        self.payload().len() <= MAX_PAYLOAD
    }

    /// The id byte of the tag.
    pub fn id(&self) -> (id: u8)
        ensures
            id == Timezone::ID,
    {
        0x10
    }

    /// The payload of the tag.
    pub fn data(&self) -> (data: Bytes)
        ensures
            bytes_contents(data) == self.payload(),
    {
        bytes_from_string(self.tz.clone())
    }

    /// The frame of the tag: length, id, payload.
    pub fn construct(&self) -> (out: Bytes)
        requires
            self.fits(),
        ensures
            bytes_contents(out) == frame(Timezone::ID, self.payload()),
    {
        construct_frame(self.id(), self.data())
    }
}

/// Any tag that can ride on an outbound UDP packet.
#[derive(Clone, Debug)]
pub enum UdpTag {
    /// The time left in the current mode.
    Countdown(Countdown),
    /// The input of one joystick.
    Joysticks(Joysticks),
    /// The date and time, to set the controller's clock.
    DateTime(DateTime),
    /// The time zone, sent beside the date and time.
    Timezone(Timezone),
}

impl UdpTag {
    /// The id byte of the tag.
    pub open spec fn spec_id(&self) -> u8 {
        match self {
            UdpTag::Countdown(_) => Countdown::ID,
            UdpTag::Joysticks(_) => Joysticks::ID,
            UdpTag::DateTime(_) => DateTime::ID,
            UdpTag::Timezone(_) => Timezone::ID,
        }
    }

    /// The payload of the tag.
    pub open spec fn payload(&self) -> Seq<u8> {
        match self {
            UdpTag::Countdown(tag) => tag.payload(),
            UdpTag::Joysticks(tag) => tag.payload(),
            UdpTag::DateTime(tag) => tag.payload(),
            UdpTag::Timezone(tag) => tag.payload(),
        }
    }

    /// Whether the tag can be framed.
    pub open spec fn fits(&self) -> bool {
        match self {
            UdpTag::Countdown(_) => true,
            UdpTag::Joysticks(tag) => tag.fits(),
            UdpTag::DateTime(_) => true,
            UdpTag::Timezone(tag) => tag.fits(),
        }
    }

    /// The frame of the tag as it goes on the wire.
    pub open spec fn wire(&self) -> Seq<u8> {
        frame(self.spec_id(), self.payload())
    }

    /// Whether the tag can be framed: see [`UdpTag::fits`].
    pub fn can_construct(&self) -> (ok: bool)
        ensures
            ok == self.fits(),
    {
        match self {
            UdpTag::Countdown(_) => true,
            UdpTag::Joysticks(tag) => {
                proof {
                    lemma_joysticks_payload_len(tag.axes@, tag.buttons@, tag.povs@);
                }
                let axes = tag.axes.len();
                let buttons = tag.buttons.len();
                let povs = tag.povs.len();
                axes <= MAX_COUNT && buttons <= MAX_COUNT && povs <= MAX_COUNT && 3 + axes + (
                buttons + 7) / 8 + 2 * povs <= MAX_PAYLOAD
            },
            UdpTag::DateTime(_) => true,
            UdpTag::Timezone(tag) => tag.tz.as_str().as_bytes().len() <= MAX_PAYLOAD,
        }
    }

    /// The length of the tag's frame.
    pub fn wire_len(&self) -> (len: usize)
        requires
            self.fits(),
        ensures
            len == self.wire().len(),
            len <= 2 + MAX_PAYLOAD,
    {
        match self {
            UdpTag::Countdown(_) => 2 + 4,
            UdpTag::Joysticks(tag) => {
                proof {
                    lemma_joysticks_payload_len(tag.axes@, tag.buttons@, tag.povs@);
                }
                2 + 3 + tag.axes.len() + (tag.buttons.len() + 7) / 8 + 2 * tag.povs.len()
            },
            UdpTag::DateTime(_) => 2 + 10,
            UdpTag::Timezone(tag) => 2 + tag.tz.as_str().as_bytes().len(),
        }
    }

    /// The id byte of the tag.
    pub fn id(&self) -> (id: u8)
        ensures
            id == self.spec_id(),
    {
        match self {
            UdpTag::Countdown(tag) => tag.id(),
            UdpTag::Joysticks(tag) => tag.id(),
            UdpTag::DateTime(tag) => tag.id(),
            UdpTag::Timezone(tag) => tag.id(),
        }
    }

    /// The frame of the tag: length, id, payload.
    pub fn construct(&self) -> (out: Bytes)
        requires
            self.fits(),
        ensures
            bytes_contents(out) == self.wire(),
    {
        match self {
            UdpTag::Countdown(tag) => tag.construct(),
            UdpTag::Joysticks(tag) => tag.construct(),
            UdpTag::DateTime(tag) => tag.construct(),
            UdpTag::Timezone(tag) => tag.construct(),
        }
    }
}

} // verus!
