//! Byte buffers of the `bytes` crate, and the big-endian integer layouts
//! that the wire protocol uses.
//!
//! `Bytes` and `BytesMut` stay opaque: what they hold is named by
//! [`bytes_seq`] and [`bytes_mut_seq`], and each method that the library
//! calls has a wrapper whose contract states its effect on those contents,
//! as the crate's source and documentation describe it.
use bytes::{Buf, BufMut, Bytes, BytesMut};
use vstd::prelude::*;

verus! {

#[verifier::external_type_specification]
#[verifier::external_body]
pub struct ExBytes(bytes::Bytes);

#[verifier::external_type_specification]
#[verifier::external_body]
pub struct ExBytesMut(bytes::BytesMut);

/// The bytes that a `Bytes` handle gives access to, in order.
pub uninterp spec fn bytes_seq(b: Bytes) -> Seq<u8>;

/// The bytes that a `BytesMut` holds, in order.
pub uninterp spec fn bytes_mut_seq(b: BytesMut) -> Seq<u8>;

// ===== big-endian layouts =====

/// Big-endian bytes of a `u16`.
pub open spec fn u16_be(v: u16) -> Seq<u8> {
    seq![(v / 0x100) as u8, (v % 0x100) as u8]
}

/// Big-endian bytes of a `u32`.
pub open spec fn u32_be(v: u32) -> Seq<u8> {
    seq![
        (v / 0x1000000) as u8,
        ((v / 0x10000) % 0x100) as u8,
        ((v / 0x100) % 0x100) as u8,
        (v % 0x100) as u8,
    ]
}

/// The two's complement bit pattern of an `i32`, read as a `u32`.
pub open spec fn i32_bits(v: i32) -> u32 {
    if v >= 0 { v as u32 } else { (v + 0x1_0000_0000) as u32 }
}

/// The two's complement bit pattern of an `i16`, read as a `u16`.
pub open spec fn i16_bits(v: i16) -> u16 {
    if v >= 0 { v as u16 } else { (v + 0x1_0000) as u16 }
}

/// Big-endian bytes of an `i32`.
pub open spec fn i32_be(v: i32) -> Seq<u8> {
    u32_be(i32_bits(v))
}

/// Big-endian bytes of an `i16`.
pub open spec fn i16_be(v: i16) -> Seq<u8> {
    u16_be(i16_bits(v))
}

/// The `u16` whose big-endian bytes start `s`.
pub open spec fn be_u16(s: Seq<u8>) -> u16 {
    (s[0] * 0x100 + s[1]) as u16
}

/// The `u32` whose big-endian bytes start `s`.
pub open spec fn be_u32(s: Seq<u8>) -> u32 {
    (s[0] * 0x1000000 + s[1] * 0x10000 + s[2] * 0x100 + s[3]) as u32
}

/// The `i32` whose two's complement big-endian bytes start `s`.
pub open spec fn be_i32(s: Seq<u8>) -> i32 {
    let u = be_u32(s);
    if u < 0x8000_0000 { u as i32 } else { (u - 0x1_0000_0000) as i32 }
}

pub proof fn lemma_u32_be_roundtrip(v: u32)
    ensures
        u32_be(v).len() == 4,
        be_u32(u32_be(v)) == v,
{
}

pub proof fn lemma_i32_be_roundtrip(v: i32)
    ensures
        i32_be(v).len() == 4,
        be_i32(i32_be(v)) == v,
{
    lemma_u32_be_roundtrip(i32_bits(v));
}

/// Computes `be_u32` of the first four bytes of `s`.
pub fn read_be_u32(s: &[u8]) -> (r: u32)
    requires
        s@.len() >= 4,
    ensures
        r == be_u32(s@),
{
    (s[0] as u32) * 0x1000000 + (s[1] as u32) * 0x10000 + (s[2] as u32) * 0x100 + (s[3] as u32)
}

/// Computes `be_i32` of the first four bytes of `s`.
pub fn read_be_i32(s: &[u8]) -> (r: i32)
    requires
        s@.len() >= 4,
    ensures
        r == be_i32(s@),
{
    let u = read_be_u32(s);
    if u < 0x8000_0000 {
        u as i32
    } else {
        let m: u32 = u - 0x8000_0000;
        (m as i32) - 0x7fff_ffff - 1
    }
}

/// Copies a slice into a new vector.
pub fn copy_to_vec(s: &[u8]) -> (r: Vec<u8>)
    ensures
        r@ == s@,
{
    let mut v: Vec<u8> = Vec::with_capacity(s.len());
    let mut i: usize = 0;
    while i < s.len()
        invariant
            i <= s@.len(),
            v@ == s@.take(i as int),
        decreases s@.len() - i,
    {
        v.push(s[i]);
        i = i + 1;
        assert(v@ =~= s@.take(i as int));
    }
    assert(s@.take(s@.len() as int) =~= s@);
    v
}

// ===== Bytes =====

/// `Bytes::new`: an empty handle.
#[verifier::external_body]
pub(crate) fn bytes_new() -> (r: Bytes)
    ensures
        bytes_seq(r) == Seq::<u8>::empty(),
{
    Bytes::new()
}

/// `Bytes::copy_from_slice`: a handle to a copy of `data`.
#[verifier::external_body]
pub(crate) fn bytes_copy_from_slice(data: &[u8]) -> (r: Bytes)
    ensures
        bytes_seq(r) == data@,
{
    Bytes::copy_from_slice(data)
}

/// `Bytes::clone`: a second handle to the same bytes.
#[verifier::external_body]
pub(crate) fn bytes_clone(b: &Bytes) -> (r: Bytes)
    ensures
        bytes_seq(r) == bytes_seq(*b),
{
    b.clone()
}

/// `Bytes::len`: the number of bytes.
#[verifier::external_body]
pub(crate) fn bytes_len(b: &Bytes) -> (r: usize)
    ensures
        r == bytes_seq(*b).len(),
{
    b.len()
}

/// `Bytes` as a slice (its `Deref` to `[u8]`).
#[verifier::external_body]
pub(crate) fn bytes_as_slice(b: &Bytes) -> (r: &[u8])
    ensures
        r@ == bytes_seq(*b),
{
    b.as_ref()
}

/// `Bytes::slice(start..end)`: a handle to bytes `start` up to `end`.
/// The crate panics unless `start <= end <= len`.
#[verifier::external_body]
pub(crate) fn bytes_slice(b: &Bytes, start: usize, end: usize) -> (r: Bytes)
    requires
        start <= end <= bytes_seq(*b).len(),
    ensures
        bytes_seq(r) == bytes_seq(*b).subrange(start as int, end as int),
{
    b.slice(start..end)
}

/// `Bytes::split_to`: the first `at` bytes are handed out, the rest stay.
/// The crate panics if `at > len`.
#[verifier::external_body]
pub(crate) fn bytes_split_to(b: &mut Bytes, at: usize) -> (r: Bytes)
    requires
        at <= bytes_seq(*old(b)).len(),
    ensures
        bytes_seq(r) == bytes_seq(*old(b)).take(at as int),
        bytes_seq(*final(b)) == bytes_seq(*old(b)).skip(at as int),
{
    b.split_to(at)
}

/// `Buf::advance` on `Bytes`: drops the first `cnt` bytes.
/// The crate panics if `cnt > len`.
#[verifier::external_body]
pub(crate) fn bytes_advance(b: &mut Bytes, cnt: usize)
    requires
        cnt <= bytes_seq(*old(b)).len(),
    ensures
        bytes_seq(*final(b)) == bytes_seq(*old(b)).skip(cnt as int),
{
    b.advance(cnt)
}

/// `Buf::get_u8` on `Bytes`: takes the first byte.
/// The crate panics when no byte remains.
#[verifier::external_body]
pub(crate) fn bytes_get_u8(b: &mut Bytes) -> (r: u8)
    requires
        bytes_seq(*old(b)).len() >= 1,
    ensures
        r == bytes_seq(*old(b))[0],
        bytes_seq(*final(b)) == bytes_seq(*old(b)).skip(1),
{
    b.get_u8()
}

/// `Buf::get_u16` on `Bytes`: takes a big-endian `u16`.
/// The crate panics when fewer than two bytes remain.
#[verifier::external_body]
pub(crate) fn bytes_get_u16(b: &mut Bytes) -> (r: u16)
    requires
        bytes_seq(*old(b)).len() >= 2,
    ensures
        r == be_u16(bytes_seq(*old(b))),
        bytes_seq(*final(b)) == bytes_seq(*old(b)).skip(2),
{
    b.get_u16()
}

/// `Buf::get_u32` on `Bytes`: takes a big-endian `u32`.
/// The crate panics when fewer than four bytes remain.
#[verifier::external_body]
pub(crate) fn bytes_get_u32(b: &mut Bytes) -> (r: u32)
    requires
        bytes_seq(*old(b)).len() >= 4,
    ensures
        r == be_u32(bytes_seq(*old(b))),
        bytes_seq(*final(b)) == bytes_seq(*old(b)).skip(4),
{
    b.get_u32()
}

// ===== BytesMut =====

/// `BytesMut::with_capacity`: an empty buffer.
#[verifier::external_body]
pub(crate) fn bytes_mut_with_capacity(capacity: usize) -> (r: BytesMut)
    ensures
        bytes_mut_seq(r) == Seq::<u8>::empty(),
{
    BytesMut::with_capacity(capacity)
}

/// `BytesMut::len`: the number of bytes held.
#[verifier::external_body]
pub(crate) fn bytes_mut_len(b: &BytesMut) -> (r: usize)
    ensures
        r == bytes_mut_seq(*b).len(),
{
    b.len()
}

/// `BytesMut` as a slice (its `Deref` to `[u8]`).
#[verifier::external_body]
pub(crate) fn bytes_mut_as_slice(b: &BytesMut) -> (r: &[u8])
    ensures
        r@ == bytes_mut_seq(*b),
{
    b.as_ref()
}

/// `BytesMut::reserve`: makes room; the contents do not change.
/// The crate panics when the new capacity overflows, which cannot happen
/// while the total stays within `isize::MAX`.
#[verifier::external_body]
pub(crate) fn bytes_mut_reserve(b: &mut BytesMut, additional: usize)
    requires
        bytes_mut_seq(*old(b)).len() + additional <= isize::MAX,
    ensures
        bytes_mut_seq(*final(b)) == bytes_mut_seq(*old(b)),
{
    b.reserve(additional)
}

/// `BufMut::put_u8` on `BytesMut`: appends one byte.
#[verifier::external_body]
pub(crate) fn bytes_mut_put_u8(b: &mut BytesMut, n: u8)
    requires
        bytes_mut_seq(*old(b)).len() + 1 <= isize::MAX,
    ensures
        bytes_mut_seq(*final(b)) == bytes_mut_seq(*old(b)).push(n),
{
    b.put_u8(n)
}

/// `BufMut::put_u16` on `BytesMut`: appends a big-endian `u16`.
#[verifier::external_body]
pub(crate) fn bytes_mut_put_u16(b: &mut BytesMut, n: u16)
    requires
        bytes_mut_seq(*old(b)).len() + 2 <= isize::MAX,
    ensures
        bytes_mut_seq(*final(b)) == bytes_mut_seq(*old(b)) + u16_be(n),
{
    b.put_u16(n)
}

/// `BufMut::put_i16` on `BytesMut`: appends a big-endian `i16`.
#[verifier::external_body]
pub(crate) fn bytes_mut_put_i16(b: &mut BytesMut, n: i16)
    requires
        bytes_mut_seq(*old(b)).len() + 2 <= isize::MAX,
    ensures
        bytes_mut_seq(*final(b)) == bytes_mut_seq(*old(b)) + i16_be(n),
{
    b.put_i16(n)
}

/// `BufMut::put_i32` on `BytesMut`: appends a big-endian `i32`.
#[verifier::external_body]
pub(crate) fn bytes_mut_put_i32(b: &mut BytesMut, n: i32)
    requires
        bytes_mut_seq(*old(b)).len() + 4 <= isize::MAX,
    ensures
        bytes_mut_seq(*final(b)) == bytes_mut_seq(*old(b)) + i32_be(n),
{
    b.put_i32(n)
}

/// `BufMut::put_slice` on `BytesMut`: appends the slice.
#[verifier::external_body]
pub(crate) fn bytes_mut_put_slice(b: &mut BytesMut, src: &[u8])
    requires
        bytes_mut_seq(*old(b)).len() + src@.len() <= isize::MAX,
    ensures
        bytes_mut_seq(*final(b)) == bytes_mut_seq(*old(b)) + src@,
{
    b.put_slice(src)
}

/// `BufMut::put_i32` on the tail `&mut buf[offset..]`: overwrites the four
/// bytes at `offset` with a big-endian `i32`.  Slicing panics unless
/// `offset <= len`, and the write panics unless four bytes follow.
#[verifier::external_body]
pub(crate) fn bytes_mut_overwrite_i32(b: &mut BytesMut, offset: usize, n: i32)
    requires
        offset + 4 <= bytes_mut_seq(*old(b)).len(),
    ensures
        bytes_mut_seq(*final(b)) == bytes_mut_seq(*old(b)).take(offset as int) + i32_be(n)
            + bytes_mut_seq(*old(b)).skip(offset + 4),
{
    let mut tail = &mut b[offset..];
    tail.put_i32(n)
}

/// `Buf::advance` on `BytesMut`: drops the first `cnt` bytes.
/// The crate panics if `cnt > len`.
#[verifier::external_body]
pub(crate) fn bytes_mut_advance(b: &mut BytesMut, cnt: usize)
    requires
        cnt <= bytes_mut_seq(*old(b)).len(),
    ensures
        bytes_mut_seq(*final(b)) == bytes_mut_seq(*old(b)).skip(cnt as int),
{
    b.advance(cnt)
}

/// `BytesMut::split_to`: the first `at` bytes are handed out, the rest stay.
/// The crate panics if `at > len`.
#[verifier::external_body]
pub(crate) fn bytes_mut_split_to(b: &mut BytesMut, at: usize) -> (r: BytesMut)
    requires
        at <= bytes_mut_seq(*old(b)).len(),
    ensures
        bytes_mut_seq(r) == bytes_mut_seq(*old(b)).take(at as int),
        bytes_mut_seq(*final(b)) == bytes_mut_seq(*old(b)).skip(at as int),
{
    b.split_to(at)
}

/// `BytesMut::freeze`: the same bytes as an immutable `Bytes`.
#[verifier::external_body]
pub(crate) fn bytes_mut_freeze(b: BytesMut) -> (r: Bytes)
    ensures
        bytes_seq(r) == bytes_mut_seq(b),
{
    b.freeze()
}

} // verus!
