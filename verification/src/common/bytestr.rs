use bytes::Bytes;
use std::str::Utf8Error;
use vstd::prelude::*;
use vstd::string::StringSliceAdditionalSpecFns;
use vstd::utf8::{is_char_boundary, valid_utf8};

use crate::buf::{bytes_as_slice, bytes_clone, bytes_copy_from_slice, bytes_len, bytes_new, bytes_seq, bytes_slice};
use crate::utf8::{lemma_valid_between_boundaries, str_from_utf8};

verus! {

/// `Bytes::from_static`: a handle to the static bytes, without copying.
#[verifier::external_body]
fn bytes_from_static(s: &'static [u8]) -> (r: Bytes)
    ensures
        bytes_seq(r) == s@,
{
    Bytes::from_static(s)
}

/// A cheaply cloneable and sliceable str.
///
/// `ByteStr` also helps prevent allocating vec as it required by `String::from_utf8`.
#[derive(Debug)]
pub struct ByteStr {
    bytes: Bytes,
}

impl View for ByteStr {
    type V = Seq<u8>;

    closed spec fn view(&self) -> Seq<u8> {
        bytes_seq(self.bytes)
    }
}

impl ByteStr {
    #[verifier::type_invariant]
    spec fn utf8(&self) -> bool {
        valid_utf8(bytes_seq(self.bytes))
    }

    /// Converts a `Bytes` to a `ByteStr`; fails exactly when the bytes are
    /// not valid UTF-8.
    pub fn from_utf8(bytes: Bytes) -> (r: Result<Self, Utf8Error>)
        ensures
            r is Ok <==> valid_utf8(bytes_seq(bytes)),
            r matches Ok(s) ==> s@ == bytes_seq(bytes),
    {
        match str_from_utf8(bytes_as_slice(&bytes)) {
            Ok(_) => Ok(ByteStr { bytes }),
            Err(e) => Err(e),
        }
    }

    /// Creates `ByteStr` instance from str slice, by copying it.
    pub fn copy_from_str(string: &str) -> (r: Self)
        ensures
            r@ == string.spec_bytes(),
    {
        proof {
            vstd::utf8::encode_utf8_valid_utf8(string@);
        }
        ByteStr { bytes: bytes_copy_from_slice(string.as_bytes()) }
    }

    /// Creates a new `ByteStr` from a static str, without copying.
    pub fn from_static(string: &'static str) -> (r: Self)
        ensures
            r@ == string.spec_bytes(),
    {
        proof {
            vstd::utf8::encode_utf8_valid_utf8(string@);
        }
        ByteStr { bytes: bytes_from_static(string.as_bytes()) }
    }

    /// An empty string.
    pub fn new() -> (r: Self)
        ensures
            r@ == Seq::<u8>::empty(),
    {
        ByteStr { bytes: bytes_new() }
    }

    /// Returns the part of `self` between the byte offsets `start` and `end`,
    /// both of which must start a character (or be the end).
    ///
    /// This operation is `O(1)`.
    pub fn slice_ref(&self, start: usize, end: usize) -> (r: Self)
        requires
            start <= end <= self@.len(),
            valid_utf8(self@) ==> is_char_boundary(self@, start as int),
            valid_utf8(self@) ==> is_char_boundary(self@, end as int),
        ensures
            r@ == self@.subrange(start as int, end as int),
    {
        proof {
            use_type_invariant(self);
            lemma_valid_between_boundaries(self@, start as int, end as int);
        }
        ByteStr { bytes: bytes_slice(&self.bytes, start, end) }
    }

    /// The string itself.
    pub fn as_str(&self) -> (r: &str)
        ensures
            r.spec_bytes() == self@,
    {
        proof {
            use_type_invariant(self);
        }
        match str_from_utf8(bytes_as_slice(&self.bytes)) {
            Ok(s) => s,
            Err(_) => {
                proof {
                    assert(false);
                }
                ""
            },
        }
    }

    /// The number of bytes.
    pub fn len(&self) -> (r: usize)
        ensures
            r == self@.len(),
    {
        bytes_len(&self.bytes)
    }

}

impl Clone for ByteStr {
    /// A second handle to the same string.
    fn clone(&self) -> (r: Self)
        ensures
            r@ == self@,
    {
        proof {
            use_type_invariant(self);
        }
        ByteStr { bytes: bytes_clone(&self.bytes) }
    }
}

} // verus!
