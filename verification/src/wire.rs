//! Byte buffers.
//!
//! The encoders build their output in a `bytes::BytesMut` and hand it out as
//! a `bytes::Bytes`; the decoders take their input off the front of a
//! `bytes::BytesMut`. The verifier sees neither type from the inside, so
//! this module names what each holds and states, for every buffer operation
//! the codecs use, what it does to those contents. Those statements are
//! taken from the source of the `bytes` crate and are trusted, not proved.

use bytes::{Buf, BufMut, Bytes, BytesMut};
use vstd::prelude::*;

verus! {

/// Makes `bytes::BytesMut` known to the verifier, as a type it cannot look into.
#[verifier::external_type_specification]
#[verifier::external_body]
pub struct ExBytesMut(BytesMut);

/// Makes `bytes::Bytes` known to the verifier, as a type it cannot look into.
#[verifier::external_type_specification]
#[verifier::external_body]
pub struct ExBytes(Bytes);

/// The bytes a growable buffer holds, first written first.
pub uninterp spec fn buf_contents(buf: BytesMut) -> Seq<u8>;

/// The bytes a frozen buffer holds.
pub uninterp spec fn bytes_contents(bytes: Bytes) -> Seq<u8>;

/// Largest number of bytes a buffer can hold: allocations are capped at
/// `isize::MAX` bytes.
pub open spec fn max_buf_len() -> int {
    isize::MAX as int
}

/// The two bytes of `n`, most significant first.
pub open spec fn be_u16(n: u16) -> Seq<u8> {
    seq![(n / 256) as u8, (n % 256) as u8]
}

/// The four bytes of `n`, most significant first.
pub open spec fn be_u32(n: u32) -> Seq<u8> {
    seq![
        (n / 0x100_0000) as u8,
        (n / 0x1_0000 % 256) as u8,
        (n / 0x100 % 256) as u8,
        (n % 256) as u8,
    ]
}

/// The byte that stands for `n` in two's complement.
pub open spec fn twos_u8(n: i8) -> u8 {
    if n < 0 {
        (n + 256) as u8
    } else {
        n as u8
    }
}

/// The 16-bit word that stands for `n` in two's complement.
pub open spec fn twos_u16(n: i16) -> u16 {
    if n < 0 {
        (n + 65536) as u16
    } else {
        n as u16
    }
}

/// `BytesMut::with_capacity`: a new buffer that holds no bytes. The capacity
/// only reserves room; the underlying `Vec::with_capacity` panics above
/// `isize::MAX` bytes, which `requires` leaves out.
pub assume_specification[ BytesMut::with_capacity ](capacity: usize) -> (buf: BytesMut)
    requires
        capacity <= max_buf_len(),
    ensures
        buf_contents(buf) == Seq::<u8>::empty(),
;

/// `BytesMut::extend_from_slice`: appends the slice to the buffer, growing it
/// as needed. Growing panics when the new length would pass `isize::MAX`.
pub assume_specification[ BytesMut::extend_from_slice ](buf: &mut BytesMut, extend: &[u8])
    requires
        buf_contents(*old(buf)).len() + extend@.len() <= max_buf_len(),
    ensures
        buf_contents(*final(buf)) == buf_contents(*old(buf)) + extend@,
;

/// `Deref` of a `BytesMut`: the bytes held, as a slice.
pub assume_specification<'a>[ <BytesMut as core::ops::Deref>::deref ](buf: &'a BytesMut) -> (slice:
    &'a [u8])
    ensures
        slice@ == buf_contents(*buf),
;

/// `Buf::advance` on a `BytesMut`: drops the first `cnt` bytes. It panics
/// where fewer are held.
#[verifier::external_body]
pub(crate) fn advance(buf: &mut BytesMut, cnt: usize)
    requires
        cnt <= buf_contents(*old(buf)).len(),
    ensures
        buf_contents(*final(buf)) == buf_contents(*old(buf)).skip(cnt as int),
{
    buf.advance(cnt)
}

/// `BytesMut::freeze`: the same bytes, now immutable.
pub assume_specification[ BytesMut::freeze ](buf: BytesMut) -> (bytes: Bytes)
    ensures
        bytes_contents(bytes) == buf_contents(buf),
;

/// `Bytes::len`: the number of bytes held.
pub assume_specification[ Bytes::len ](bytes: &Bytes) -> (len: usize)
    ensures
        len == bytes_contents(*bytes).len(),
;

/// `Deref` of a `Bytes`: the bytes held, as a slice.
pub assume_specification<'a>[ <Bytes as core::ops::Deref>::deref ](bytes: &'a Bytes) -> (slice:
    &'a [u8])
    ensures
        slice@ == bytes_contents(*bytes),
;

/// `Bytes::from(String)`: the UTF-8 bytes of the string, in order.
#[verifier::external_body]
pub(crate) fn bytes_from_string(s: String) -> (bytes: Bytes)
    ensures
        bytes_contents(bytes) == vstd::utf8::encode_utf8(s@),
{
    Bytes::from(s)
}

/// `BufMut::put_u8` on a `BytesMut`: appends the one byte.
#[verifier::external_body]
pub(crate) fn put_u8(buf: &mut BytesMut, n: u8)
    requires
        buf_contents(*old(buf)).len() + 1 <= max_buf_len(),
    ensures
        buf_contents(*final(buf)) == buf_contents(*old(buf)).push(n),
{
    buf.put_u8(n)
}

/// `BufMut::put_i8` on a `BytesMut`: appends the byte `n as u8`, which is
/// `n` in two's complement.
#[verifier::external_body]
pub(crate) fn put_i8(buf: &mut BytesMut, n: i8)
    requires
        buf_contents(*old(buf)).len() + 1 <= max_buf_len(),
    ensures
        buf_contents(*final(buf)) == buf_contents(*old(buf)).push(twos_u8(n)),
{
    buf.put_i8(n)
}

/// `BufMut::put_u16` on a `BytesMut`: appends `n.to_be_bytes()`.
#[verifier::external_body]
pub(crate) fn put_u16(buf: &mut BytesMut, n: u16)
    requires
        buf_contents(*old(buf)).len() + 2 <= max_buf_len(),
    ensures
        buf_contents(*final(buf)) == buf_contents(*old(buf)) + be_u16(n),
{
    buf.put_u16(n)
}

/// `BufMut::put_i16` on a `BytesMut`: appends `n.to_be_bytes()`, the
/// big-endian bytes of `n` in two's complement.
#[verifier::external_body]
pub(crate) fn put_i16(buf: &mut BytesMut, n: i16)
    requires
        buf_contents(*old(buf)).len() + 2 <= max_buf_len(),
    ensures
        buf_contents(*final(buf)) == buf_contents(*old(buf)) + be_u16(twos_u16(n)),
{
    buf.put_i16(n)
}

/// `BufMut::put_u32` on a `BytesMut`: appends `n.to_be_bytes()`.
#[verifier::external_body]
pub(crate) fn put_u32(buf: &mut BytesMut, n: u32)
    requires
        buf_contents(*old(buf)).len() + 4 <= max_buf_len(),
    ensures
        buf_contents(*final(buf)) == buf_contents(*old(buf)) + be_u32(n),
{
    buf.put_u32(n)
}

} // verus!
