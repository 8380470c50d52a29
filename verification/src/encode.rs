//! Query parameter encoding.
use bytes::Bytes;
use vstd::prelude::*;
use vstd::string::StringSliceAdditionalSpecFns;

use crate::buf::{
    bytes_advance, bytes_as_slice, bytes_copy_from_slice, bytes_len, bytes_seq, i32_bits, i32_be,
};
use crate::postgres::{Oid, PgType};

verus! {

/// The number of bytes that a parameter value can hold inline.
pub const OWNED_LEN: usize = 15;

/// The bytes of a parameter value: borrowed, held inline at the end of a
/// small array, or a heap copy.
#[derive(Debug)]
pub enum ValueRef<'a> {
    Slice(&'a [u8]),
    Inline { offset: usize, value: [u8; 15] },
    Bytes(Bytes),
}

impl<'a> ValueRef<'a> {
    /// The inline offset never passes the end of the array.
    pub open spec fn wf(&self) -> bool {
        match self {
            ValueRef::Inline { offset, .. } => *offset <= OWNED_LEN,
            _ => true,
        }
    }

    /// The bytes of the value.
    pub open spec fn bytes(&self) -> Seq<u8> {
        match self {
            ValueRef::Slice(s) => s@,
            ValueRef::Inline { offset, value } => value@.subrange(*offset as int, 15),
            ValueRef::Bytes(b) => bytes_seq(*b),
        }
    }

    /// Copies a slice of at most [`OWNED_LEN`] bytes into an inline value.
    ///
    /// Panics (`"inline slice is too large"`) when the slice is longer, so
    /// that length is required.
    pub fn copy_from_slice(slice: &[u8]) -> (r: ValueRef<'static>)
        requires
            slice@.len() <= OWNED_LEN,
        ensures
            r.wf(),
            r.bytes() == slice@,
            r is Inline,
    {
        let len = slice.len();
        let offset = OWNED_LEN - len;
        let mut value = [0u8; 15];
        let mut i: usize = 0;
        while i < len
            invariant
                len == slice@.len(),
                offset + len == 15,
                i <= len,
                value@.len() == 15,
                forall|j: int| 0 <= j < i ==> value@[offset + j] == slice@[j],
            decreases len - i,
        {
            value[offset + i] = slice[i];
            i = i + 1;
        }
        let r = ValueRef::Inline { offset, value };
        assert(r.bytes() =~= slice@);
        r
    }

    /// The number of bytes.
    pub fn len(&self) -> (r: usize)
        requires
            self.wf(),
        ensures
            r == self.bytes().len(),
    {
        match self {
            ValueRef::Slice(items) => items.len(),
            ValueRef::Inline { offset, .. } => OWNED_LEN - *offset,
            ValueRef::Bytes(b) => bytes_len(b),
        }
    }

    /// The bytes, as one slice.
    pub fn chunk(&self) -> (r: &[u8])
        requires
            self.wf(),
        ensures
            r@ == self.bytes(),
    {
        match self {
            ValueRef::Slice(items) => items,
            ValueRef::Inline { offset, value } => {
                let s = value.as_slice();
                &s[*offset..OWNED_LEN]
            },
            ValueRef::Bytes(b) => bytes_as_slice(b),
        }
    }

    /// The number of bytes left to read (`Buf::remaining`).
    pub fn remaining(&self) -> (r: usize)
        requires
            self.wf(),
        ensures
            r == self.bytes().len(),
    {
        self.len()
    }

    /// Drops the first `cnt` bytes (`Buf::advance`); there must be that
    /// many.
    pub fn advance(&mut self, cnt: usize)
        requires
            old(self).wf(),
            cnt <= old(self).bytes().len(),
        ensures
            final(self).wf(),
            final(self).bytes() == old(self).bytes().skip(cnt as int),
    {
        match self {
            ValueRef::Slice(items) => {
                let rest = vstd::slice::slice_subrange(*items, cnt, items.len());
                *items = rest;
            },
            ValueRef::Inline { offset, .. } => {
                *offset = *offset + cnt;
            },
            ValueRef::Bytes(b) => bytes_advance(b, cnt),
        }
        assert(self.bytes() =~= old(self).bytes().skip(cnt as int));
    }
}

/// Value that can be encoded to be bound to sql parameter.
pub trait Encode<'q>: Sized {
    /// `r` is the encoding of `v`.
    spec fn encoded(v: Self, r: Encoded<'q>) -> bool;

    /// Encode the value.
    fn encode(self) -> (r: Encoded<'q>)
        ensures
            r.wf(),
            Self::encoded(self, r),
    ;
}

/// Postgres encoded value.
#[derive(Debug)]
pub struct Encoded<'q> {
    value: ValueRef<'q>,
    is_null: bool,
    oid: Oid,
}

impl<'q> Encoded<'q> {
    /// The value is well formed.
    pub closed spec fn wf(&self) -> bool {
        &&& self.value.wf()
        &&& self.is_null ==> self.value.bytes().len() == 0
    }

    /// The value's bytes (empty for `NULL`).
    pub closed spec fn bytes(&self) -> Seq<u8> {
        self.value.bytes()
    }

    /// `true` for `NULL`.
    pub closed spec fn spec_is_null(&self) -> bool {
        self.is_null
    }

    /// The type's object ID as given at construction.
    pub closed spec fn spec_type_oid(&self) -> Oid {
        self.oid
    }

    /// What [`Encoded::oid`] returns: `0` for `NULL`, else the type's object ID.
    pub open spec fn spec_oid(&self) -> Oid {
        if self.spec_is_null() { 0 } else { self.spec_type_oid() }
    }

    /// A `NULL` value holds no bytes.
    pub proof fn lemma_null_empty(&self)
        requires
            self.wf(),
        ensures
            self.spec_is_null() ==> self.bytes().len() == 0,
    {
    }

    /// Create [`Encoded`] from borrowed slice.
    pub fn from_slice(slice: &'q [u8], oid: Oid) -> (r: Encoded<'q>)
        ensures
            r.wf(),
            r.bytes() == slice@,
            !r.spec_is_null(),
            r.spec_type_oid() == oid,
    {
        Encoded { value: ValueRef::Slice(slice), is_null: false, oid }
    }

    /// Create heap allocated [`Encoded`] by copying given slice.
    pub fn copy_from_slice(slice: &[u8], oid: Oid) -> (r: Encoded<'static>)
        ensures
            r.wf(),
            r.bytes() == slice@,
            !r.spec_is_null(),
            r.spec_type_oid() == oid,
    {
        Encoded { value: ValueRef::Bytes(bytes_copy_from_slice(slice)), is_null: false, oid }
    }

    /// A value of a few bytes, held inline.
    fn inline(slice: &[u8], oid: Oid) -> (r: Encoded<'static>)
        requires
            slice@.len() <= OWNED_LEN,
        ensures
            r.wf(),
            r.bytes() == slice@,
            !r.spec_is_null(),
            r.spec_type_oid() == oid,
    {
        Encoded { value: ValueRef::copy_from_slice(slice), is_null: false, oid }
    }

    /// Create [`Encoded`] `NULL`.
    pub fn null() -> (r: Encoded<'static>)
        ensures
            r.wf(),
            r.bytes() == Seq::<u8>::empty(),
            r.spec_is_null(),
            r.spec_type_oid() == 0,
    {
        let r = Encoded { value: ValueRef::Slice(&[]), is_null: true, oid: 0 };
        assert(r.bytes() =~= Seq::<u8>::empty());
        r
    }

    /// Returns this type `oid`, or `0` for `NULL`.
    pub fn oid(&self) -> (r: Oid)
        ensures
            r == self.spec_oid(),
    {
        match self.is_null {
            true => 0,
            false => self.oid,
        }
    }

    /// `true` for `NULL`.
    pub fn is_null(&self) -> (r: bool)
        ensures
            r == self.spec_is_null(),
    {
        self.is_null
    }

    /// The value.
    pub fn value(&self) -> (r: &ValueRef<'q>)
        ensures
            r.bytes() == self.bytes(),
            self.wf() ==> r.wf(),
    {
        &self.value
    }

    /// The number of bytes of the value.
    pub fn remaining(&self) -> (r: usize)
        requires
            self.wf(),
        ensures
            r == self.bytes().len(),
    {
        self.value.len()
    }

    /// Drops the first `cnt` bytes of the value (`Buf::advance`); there
    /// must be that many.
    pub fn advance(&mut self, cnt: usize)
        requires
            old(self).wf(),
            cnt <= old(self).bytes().len(),
        ensures
            final(self).wf(),
            final(self).bytes() == old(self).bytes().skip(cnt as int),
            final(self).spec_is_null() == old(self).spec_is_null(),
            final(self).spec_type_oid() == old(self).spec_type_oid(),
    {
        self.value.advance(cnt);
    }

    /// The value's bytes as one slice.
    pub fn chunk(&self) -> (r: &[u8])
        requires
            self.wf(),
        ensures
            r@ == self.bytes(),
    {
        self.value.chunk()
    }

    /// The parameter's length field in a `Bind` message: `-1` for `NULL`,
    /// else the number of bytes.  The length must fit an `i32`.
    pub fn size(&self) -> (r: i32)
        requires
            self.wf(),
            self.bytes().len() <= i32::MAX,
        ensures
            r == self.spec_size(),
    {
        match self.is_null {
            true => -1,
            false => self.remaining() as i32,
        }
    }

    /// See [`Encoded::size`].
    pub open spec fn spec_size(&self) -> i32 {
        if self.spec_is_null() { -1i32 } else { self.bytes().len() as i32 }
    }
}

/// The big-endian bytes of an `i32`, computed.
pub fn i32_to_be_bytes(v: i32) -> (r: [u8; 4])
    ensures
        r@ == i32_be(v),
{
    let u: u32 = if v >= 0 {
        v as u32
    } else {
        let w: i64 = v as i64 + 0x1_0000_0000i64;
        w as u32
    };
    assert(u == i32_bits(v));
    let r = [(u / 0x1000000) as u8, ((u / 0x10000) % 0x100) as u8, ((u / 0x100) % 0x100) as u8, (u % 0x100) as u8];
    assert(r@ =~= i32_be(v));
    r
}

impl Encode<'static> for bool {
    open spec fn encoded(v: Self, r: Encoded<'static>) -> bool {
        r.bytes() == seq![if v { 1u8 } else { 0u8 }] && !r.spec_is_null() && r.spec_type_oid()
            == <bool as PgType>::spec_oid()
    }

    fn encode(self) -> (r: Encoded<'static>)
        ensures
            r.wf(),
            r.bytes() == seq![if self { 1u8 } else { 0u8 }],
            !r.spec_is_null(),
            r.spec_type_oid() == <bool as PgType>::spec_oid(),
    {
        let b: u8 = if self { 1 } else { 0 };
        let arr = [b];
        let r = Encoded::inline(arr.as_slice(), <bool as PgType>::oid());
        assert(arr@ =~= seq![b]);
        r
    }
}

impl Encode<'static> for i32 {
    open spec fn encoded(v: Self, r: Encoded<'static>) -> bool {
        r.bytes() == i32_be(v) && !r.spec_is_null() && r.spec_type_oid() == <i32 as PgType>::spec_oid()
    }

    fn encode(self) -> (r: Encoded<'static>)
        ensures
            r.wf(),
            r.bytes() == i32_be(self),
            !r.spec_is_null(),
            r.spec_type_oid() == <i32 as PgType>::spec_oid(),
    {
        let arr = i32_to_be_bytes(self);
        Encoded::inline(arr.as_slice(), <i32 as PgType>::oid())
    }
}

impl<'a> Encode<'a> for &'a str {
    open spec fn encoded(v: Self, r: Encoded<'a>) -> bool {
        r.bytes() == v.spec_bytes() && !r.spec_is_null() && r.spec_type_oid() == <str as PgType>::spec_oid()
    }

    fn encode(self) -> (r: Encoded<'a>)
        ensures
            r.wf(),
            r.bytes() == self.spec_bytes(),
            !r.spec_is_null(),
            r.spec_type_oid() == <str as PgType>::spec_oid(),
    {
        Encoded::from_slice(self.as_bytes(), <str as PgType>::oid())
    }
}

impl<'a> Encode<'a> for &'a String {
    open spec fn encoded(v: Self, r: Encoded<'a>) -> bool {
        r.bytes() == vstd::utf8::encode_utf8(v@) && !r.spec_is_null() && r.spec_type_oid()
            == <String as PgType>::spec_oid()
    }

    fn encode(self) -> (r: Encoded<'a>)
        ensures
            r.wf(),
            r.bytes() == vstd::utf8::encode_utf8(self@),
            !r.spec_is_null(),
            r.spec_type_oid() == <String as PgType>::spec_oid(),
    {
        Encoded::from_slice(self.as_str().as_bytes(), <String as PgType>::oid())
    }
}

/// The object ID that [`Encoded::oid`] reports is `0` for a `NULL` value
/// and the type's object ID given at construction otherwise, and taking
/// bytes off with [`Encoded::advance`] never changes it: `advance` keeps
/// the null flag and the type's object ID, on which alone it depends.
pub proof fn law_oid_after_advance(before: Encoded, after: Encoded, cnt: int)
    requires
        before.wf(),
        0 <= cnt <= before.bytes().len(),
        after.wf(),
        after.bytes() == before.bytes().skip(cnt),
        after.spec_is_null() == before.spec_is_null(),
        after.spec_type_oid() == before.spec_type_oid(),
    ensures
        after.spec_oid() == before.spec_oid(),
        after.spec_oid() == (if before.spec_is_null() { 0 } else { before.spec_type_oid() }),
{
}

} // verus!
