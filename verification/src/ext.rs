//! Conversions and string helpers that the wire protocol needs.
use bytes::{Bytes, BytesMut};
use std::str::Utf8Error;
use vstd::prelude::*;
use vstd::string::StringSliceAdditionalSpecFns;

use crate::buf::{bytes_new, bytes_advance, bytes_as_slice, bytes_mut_put_slice, bytes_mut_put_u8, bytes_mut_seq, bytes_seq, bytes_split_to, copy_to_vec};
use crate::common::ByteStr;
use crate::utf8::string_from_utf8;

verus! {

/// A postgres string on the wire: its bytes, then a terminating zero byte.
pub open spec fn nul_string(s: Seq<u8>) -> Seq<u8> {
    s.push(0u8)
}

/// The index of the first zero byte of `s`, if there is one.
pub open spec fn first_nul(s: Seq<u8>) -> Option<int>
    decreases s.len(),
{
    if s.len() == 0 {
        None
    } else if s[0] == 0 {
        Some(0)
    } else {
        match first_nul(s.skip(1)) {
            Some(i) => Some(i + 1),
            None => None,
        }
    }
}

pub proof fn lemma_first_nul(s: Seq<u8>)
    ensures
        first_nul(s) matches Some(i) ==> 0 <= i < s.len() && s[i] == 0 && (forall|j: int|
            0 <= j < i ==> s[j] != 0),
        first_nul(s) is None ==> forall|j: int| 0 <= j < s.len() ==> s[j] != 0,
    decreases s.len(),
{
    if s.len() > 0 {
        lemma_first_nul(s.skip(1));
        assert forall|j: int| 1 <= j < s.len() implies s[j] == s.skip(1)[j - 1] by {}
    }
}

pub proof fn lemma_first_nul_char(s: Seq<u8>, i: int)
    requires
        0 <= i < s.len(),
        s[i] == 0,
        forall|j: int| 0 <= j < i ==> s[j] != 0,
    ensures
        first_nul(s) == Some(i),
    decreases s.len(),
{
    if i > 0 {
        assert forall|j: int| 0 <= j < i - 1 implies s.skip(1)[j] != 0 by {
            assert(s.skip(1)[j] == s[j + 1]);
        }
        lemma_first_nul_char(s.skip(1), i - 1);
    }
}

/// Finds the first zero byte of `s`.
pub fn find_nul(s: &[u8]) -> (r: Option<usize>)
    ensures
        match r {
            Some(i) => first_nul(s@) == Some(i as int) && i < s@.len() && s@[i as int] == 0,
            None => first_nul(s@) is None,
        },
{
    let mut i: usize = 0;
    while i < s.len()
        invariant
            i <= s@.len(),
            forall|j: int| 0 <= j < i ==> s@[j] != 0,
        decreases s@.len() - i,
    {
        if s[i] == 0 {
            proof {
                lemma_first_nul_char(s@, i as int);
            }
            return Some(i);
        }
        i = i + 1;
    }
    proof {
        lemma_first_nul(s@);
        if let Some(k) = first_nul(s@) {
            assert(s@[k] == 0);
        }
    }
    None
}

/// Lengths are `usize` in Rust while postgres wants 32 or 16 bit integers.
/// Each conversion panics instead of wrapping when the value does not fit,
/// so it requires that the value fits.
pub trait UsizeExt: Sized {
    /// The value as an `i32`.
    fn to_i32(self) -> (r: i32)
        requires
            self.fits_i32(),
        ensures
            r as int == self.as_int(),
    ;

    /// The value as a `u32`.
    fn to_u32(self) -> (r: u32)
        requires
            self.fits_u32(),
        ensures
            r as int == self.as_int(),
    ;

    /// The value as a `u16`.
    fn to_u16(self) -> (r: u16)
        requires
            self.fits_u16(),
        ensures
            r as int == self.as_int(),
    ;

    spec fn as_int(self) -> int;

    spec fn fits_i32(self) -> bool;

    spec fn fits_u32(self) -> bool;

    spec fn fits_u16(self) -> bool;
}

impl UsizeExt for usize {
    open spec fn as_int(self) -> int {
        self as int
    }

    open spec fn fits_i32(self) -> bool {
        self <= i32::MAX
    }

    open spec fn fits_u32(self) -> bool {
        self <= u32::MAX
    }

    open spec fn fits_u16(self) -> bool {
        self <= u16::MAX
    }

    fn to_i32(self) -> (r: i32) {
        self as i32
    }

    fn to_u32(self) -> (r: u32) {
        self as u32
    }

    fn to_u16(self) -> (r: u16) {
        self as u16
    }
}

/// Length of a postgres string on the wire.
pub trait StrExt {
    /// The number of bytes of the string plus its zero terminator.
    fn nul_string_len(&self) -> (r: i32)
        requires
            self.byte_len() < i32::MAX,
        ensures
            r as int == self.byte_len() + 1,
    ;

    spec fn byte_len(&self) -> int;
}

impl StrExt for str {
    open spec fn byte_len(&self) -> int {
        self.spec_bytes().len() as int
    }

    fn nul_string_len(&self) -> (r: i32) {
        self.len().to_i32() + 1
    }
}

/// Writing postgres strings.
pub trait BufMutExt {
    /// Appends the bytes of `string` and a zero terminator.
    fn put_nul_string(&mut self, string: &str)
        requires
            old(self).room_for(string.spec_bytes().len() + 1int),
        ensures
            final(self).contents() == old(self).contents() + nul_string(string.spec_bytes()),
    ;

    spec fn contents(&self) -> Seq<u8>;

    spec fn room_for(&self, n: int) -> bool;
}

impl BufMutExt for BytesMut {
    open spec fn contents(&self) -> Seq<u8> {
        bytes_mut_seq(*self)
    }

    open spec fn room_for(&self, n: int) -> bool {
        bytes_mut_seq(*self).len() + n <= isize::MAX
    }

    fn put_nul_string(&mut self, string: &str) {
        bytes_mut_put_slice(self, string.as_bytes());
        bytes_mut_put_u8(self, 0u8);
    }
}

/// Reading postgres strings.
pub trait BytesExt {
    /// Takes a zero-terminated string off the front, terminator included,
    /// and returns it without the terminator.  A terminator and UTF-8
    /// bytes are required (it panics otherwise).
    fn get_nul_string(&mut self) -> (r: String)
        requires
            first_nul(old(self).unread()) is Some,
            vstd::utf8::valid_utf8(
                old(self).unread().take(first_nul(old(self).unread()).unwrap()),
            ),
        ensures
            r@ == vstd::utf8::decode_utf8(
                old(self).unread().take(first_nul(old(self).unread()).unwrap()),
            ),
            final(self).unread() == old(self).unread().skip(
                first_nul(old(self).unread()).unwrap() + 1,
            ),
    ;

    spec fn unread(&self) -> Seq<u8>;
}

impl BytesExt for Bytes {
    open spec fn unread(&self) -> Seq<u8> {
        bytes_seq(*self)
    }

    fn get_nul_string(&mut self) -> (r: String) {
        let ghost s = bytes_seq(*self);
        assert(first_nul(s) is Some);
        let end = find_nul(bytes_as_slice(self)).unwrap();
        let string = bytes_split_to(self, end);
        bytes_advance(self, 1);
        assert(bytes_seq(*self) =~= s.skip(end + 1));
        let v = copy_to_vec(bytes_as_slice(&string));
        string_from_utf8(v).unwrap()
    }
}

/// Takes a zero-terminated string off the front of `b`, terminator
/// included, and returns it without the terminator as a [`ByteStr`], or the
/// UTF-8 error when the bytes are not UTF-8.  A terminator is required (it
/// panics without one).
pub fn get_nul_bytestr(b: &mut Bytes) -> (r: Result<ByteStr, Utf8Error>)
    requires
        first_nul(bytes_seq(*old(b))) is Some,
    ensures
        bytes_seq(*final(b)) == bytes_seq(*old(b)).skip(first_nul(bytes_seq(*old(b))).unwrap() + 1),
        r is Ok <==> vstd::utf8::valid_utf8(
            bytes_seq(*old(b)).take(first_nul(bytes_seq(*old(b))).unwrap()),
        ),
        r matches Ok(s) ==> s@ == bytes_seq(*old(b)).take(first_nul(bytes_seq(*old(b))).unwrap()),
{
    let ghost s = bytes_seq(*b);
    let end = find_nul(bytes_as_slice(b)).unwrap();
    let string = bytes_split_to(b, end);
    bytes_advance(b, 1);
    assert(bytes_seq(*b) =~= s.skip(end + 1));
    ByteStr::from_utf8(string)
}

/// Reading back what [`BufMutExt::put_nul_string`] wrote: when a string
/// without zero bytes is written zero-terminated and followed by `rest`,
/// [`BytesExt::get_nul_string`] can take it (the terminator is found right
/// after it and its bytes are UTF-8), gives back the same characters, and
/// leaves `rest`.
pub proof fn law_nul_string_roundtrip(string: Seq<char>, rest: Seq<u8>)
    requires
        forall|i: int|
            0 <= i < vstd::utf8::encode_utf8(string).len() ==> #[trigger] vstd::utf8::encode_utf8(
                string,
            )[i] != 0,
    ensures
        ({
            let enc = vstd::utf8::encode_utf8(string);
            let b = nul_string(enc) + rest;
            &&& first_nul(b) == Some(enc.len() as int)
            &&& vstd::utf8::valid_utf8(b.take(enc.len() as int))
            &&& vstd::utf8::decode_utf8(b.take(enc.len() as int)) == string
            &&& b.skip((enc.len() + 1) as int) == rest
        }),
{
    let enc = vstd::utf8::encode_utf8(string);
    let b = nul_string(enc) + rest;
    assert forall|j: int| 0 <= j < enc.len() implies b[j] != 0 by {
        assert(b[j] == enc[j]);
    }
    lemma_first_nul_char(b, enc.len() as int);
    assert(b.take(enc.len() as int) =~= enc);
    assert(b.skip((enc.len() + 1) as int) =~= rest);
    vstd::utf8::encode_utf8_valid_utf8(string);
    vstd::utf8::encode_utf8_decode_utf8(string);
}

} // verus!
