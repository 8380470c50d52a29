//! Row value decoding errors.
use std::str::Utf8Error;
use vstd::prelude::*;
use vstd::string::StringExecFns;

use crate::postgres::error::utf8_error_text;
use std::string::FromUtf8Error;

use crate::buf::{be_i32, copy_to_vec, read_be_i32};
use crate::column::Column;
use crate::postgres::{Oid, PgType};
use crate::utf8::{from_utf8_error_cause, string_from_utf8};

verus! {

/// An error when decoding row value.
#[derive(Debug)]
pub enum DecodeError {
    /// Postgres return non utf8 string.
    Utf8(Utf8Error),
    /// Field requested not found.
    FieldNotFound,
    /// Index requested is out of bounds.
    IndexOutOfBound,
    /// Oid requested missmatch.
    OidMissmatch,
}

impl DecodeError {
    /// The error for an invalid UTF-8 value.
    pub fn from_utf8_error(e: Utf8Error) -> (r: DecodeError)
        ensures
            r == DecodeError::Utf8(e),
    {
        DecodeError::Utf8(e)
    }

    /// The error for an invalid UTF-8 value, from the error of
    /// `String::from_utf8`.
    pub fn from_string_utf8_error(e: &FromUtf8Error) -> (r: DecodeError)
        ensures
            r is Utf8,
    {
        DecodeError::Utf8(from_utf8_error_cause(e))
    }

    /// The human readable description: `Failed to decode value, ` and the
    /// reason.
    pub fn message(&self) -> (r: String)
        ensures
            self is Utf8 ==> "Failed to decode value, "@.is_prefix_of(r@),
            self is FieldNotFound ==> r@ == "Failed to decode value, field not found"@,
            self is IndexOutOfBound ==> r@ == "Failed to decode value, index out of bounds"@,
            self is OidMissmatch ==> r@ == "Failed to decode value, data type missmatch"@,
    {
        let mut s = String::new();
        s.append("Failed to decode value, ");
        match self {
            DecodeError::Utf8(e) => {
                let t = utf8_error_text(e);
                s.append(t.as_str());
            },
            DecodeError::FieldNotFound => {
                s.append("field not found");
            },
            DecodeError::IndexOutOfBound => {
                s.append("index out of bounds");
            },
            DecodeError::OidMissmatch => {
                s.append("data type missmatch");
            },
        }
        proof {
            reveal_strlit("Failed to decode value, ");
            reveal_strlit("field not found");
            reveal_strlit("index out of bounds");
            reveal_strlit("data type missmatch");
            reveal_strlit("Failed to decode value, field not found");
            reveal_strlit("Failed to decode value, index out of bounds");
            reveal_strlit("Failed to decode value, data type missmatch");
        }
        s
    }
}

/// Type that can be decoded from column value.
pub trait Decode: Sized {
    /// Decoding a column of type `oid` holding `value` does not panic.
    spec fn can_decode(oid: Oid, value: Seq<u8>) -> bool;

    /// `r` is the outcome of decoding a column of type `oid` holding `value`.
    spec fn decodes(oid: Oid, value: Seq<u8>, r: Result<Self, DecodeError>) -> bool;

    /// Construct self from a column.
    fn decode(col: Column) -> (r: Result<Self, DecodeError>)
        requires
            Self::can_decode(col.spec_oid(), col.spec_value()),
        ensures
            Self::decodes(col.spec_oid(), col.spec_value(), r),
    ;

    /// Whether a column of type `oid` holding `value` can be decoded.
    fn decodable(oid: Oid, value: &[u8]) -> (r: bool)
        ensures
            r == Self::can_decode(oid, value@),
    ;
}

impl Decode for () {
    open spec fn can_decode(oid: Oid, value: Seq<u8>) -> bool {
        true
    }

    open spec fn decodes(oid: Oid, value: Seq<u8>, r: Result<Self, DecodeError>) -> bool {
        r is Ok
    }

    fn decode(col: Column) -> (r: Result<Self, DecodeError>) {
        Ok(())
    }

    fn decodable(oid: Oid, value: &[u8]) -> (r: bool) {
        true
    }
}

impl Decode for i32 {
    /// A column of the right type holds at least four bytes (decoding
    /// panics otherwise).
    open spec fn can_decode(oid: Oid, value: Seq<u8>) -> bool {
        oid == <i32 as PgType>::spec_oid() ==> value.len() >= 4
    }

    open spec fn decodes(oid: Oid, value: Seq<u8>, r: Result<Self, DecodeError>) -> bool {
        if oid != <i32 as PgType>::spec_oid() {
            r matches Err(DecodeError::OidMissmatch)
        } else {
            r == Ok::<i32, DecodeError>(be_i32(value))
        }
    }

    fn decode(col: Column) -> (r: Result<Self, DecodeError>) {
        if col.oid() != <i32 as PgType>::oid() {
            return Err(DecodeError::OidMissmatch);
        }
        Ok(read_be_i32(col.as_slice()))
    }

    fn decodable(oid: Oid, value: &[u8]) -> (r: bool) {
        oid != <i32 as PgType>::oid() || value.len() >= 4
    }
}

impl Decode for String {
    open spec fn can_decode(oid: Oid, value: Seq<u8>) -> bool {
        true
    }

    open spec fn decodes(oid: Oid, value: Seq<u8>, r: Result<Self, DecodeError>) -> bool {
        if oid != <String as PgType>::spec_oid() {
            r matches Err(DecodeError::OidMissmatch)
        } else if vstd::utf8::valid_utf8(value) {
            r matches Ok(s) && s@ == vstd::utf8::decode_utf8(value)
        } else {
            r matches Err(DecodeError::Utf8(_))
        }
    }

    fn decode(col: Column) -> (r: Result<Self, DecodeError>) {
        if col.oid() != <String as PgType>::oid() {
            return Err(DecodeError::OidMissmatch);
        }
        let v = copy_to_vec(col.as_slice());
        match string_from_utf8(v) {
            Ok(s) => Ok(s),
            Err(e) => Err(DecodeError::Utf8(from_utf8_error_cause(&e))),
        }
    }

    fn decodable(oid: Oid, value: &[u8]) -> (r: bool) {
        true
    }
}

} // verus!
