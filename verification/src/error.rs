//! The error type of the library.
use bytes::Bytes;
use std::str::Utf8Error;
use vstd::prelude::*;
use vstd::string::StringExecFns;

use crate::connection::ConfigError;
use crate::postgres::error::{non_utf8_prefix, unexpected_text, utf8_error_text};
use crate::postgres::{ErrorResponse, ProtocolError};
use crate::row::DecodeError;

verus! {

#[verifier::external_type_specification]
#[verifier::external_body]
pub struct ExIoError(std::io::Error);

/// A specialized `Result` type for qs operation.
pub type Result<T> = core::result::Result<T, Error>;

/// An error of the library, by kind.
#[derive(Debug)]
pub struct Error {
    kind: ErrorKind,
}

/// All possible error from qs library.
#[derive(Debug)]
pub enum ErrorKind {
    Config(ConfigError),
    Protocol(ProtocolError),
    Io(std::io::Error),
    Database(ErrorResponse),
    UnsupportedAuth,
    Decode(DecodeError),
    MissmatchDataType,
    ColumnIndexOutOfBounds,
    Utf8(Utf8Error),
    /// A query that must return a row returned none.
    RowNotFound,
}

impl Error {
    /// The kind of the error.
    pub closed spec fn spec_kind(&self) -> ErrorKind {
        self.kind
    }

    /// An error of the given kind.
    pub fn new(kind: ErrorKind) -> (r: Error)
        ensures
            r.spec_kind() == kind,
    {
        Error { kind }
    }

    /// The kind of the error.
    pub fn kind(&self) -> (r: &ErrorKind)
        ensures
            *r == self.spec_kind(),
    {
        &self.kind
    }

    /// The kind of the error, by value.
    pub fn into_kind(self) -> (r: ErrorKind)
        ensures
            r == self.spec_kind(),
    {
        self.kind
    }

    /// The human readable description, for the kinds whose text this
    /// library writes itself.
    pub fn message(&self) -> (r: String)
        requires
            !(self.spec_kind() matches ErrorKind::Protocol(p) && p is UnknownAuth),
        ensures
            self.spec_kind() is UnsupportedAuth ==> r@ == "Auth not supported"@,
            self.spec_kind() is MissmatchDataType ==> r@ == "Missmatch datatype"@,
            self.spec_kind() is ColumnIndexOutOfBounds ==> r@ == "Column index out of bounds"@,
            self.spec_kind() is RowNotFound ==> r@ == "No row found"@,
            self.spec_kind() matches ErrorKind::Config(ConfigError::Parse(e)) ==> r@
                == "Configuration error: "@ + "Config error: "@ + e@,
            self.spec_kind() matches ErrorKind::Protocol(ProtocolError::Unexpected {
                expect,
                found,
                phase,
            }) ==> r@ == unexpected_text(expect, found, phase),
            self.spec_kind() matches ErrorKind::Protocol(p) && p is Utf8Error
                ==> non_utf8_prefix().is_prefix_of(r@),
            self.spec_kind() matches ErrorKind::Decode(d) && d is ColumnNotFound ==> r@
                == "Failed to decode value, column not found"@,
            self.spec_kind() matches ErrorKind::Decode(d) && d is OidMissmatch ==> r@
                == "Failed to decode value, data type missmatch"@,
            self.spec_kind() matches ErrorKind::Decode(d) && d is Utf8
                ==> "Failed to decode value, "@.is_prefix_of(r@),
    {
        let mut s = String::new();
        proof {
            assert(s@ == Seq::<char>::empty());
        }
        match &self.kind {
            ErrorKind::Config(e) => {
                s.append("Configuration error: ");
                let t = e.message();
                s.append(t.as_str());
            },
            ErrorKind::Protocol(e) => {
                let t = e.message();
                s.append(t.as_str());
            },
            ErrorKind::Io(e) => {
                let t = io_error_text(e);
                s.append(t.as_str());
            },
            ErrorKind::Database(e) => {
                let t = bytes_debug_text(&e.body);
                s.append(t.as_str());
            },
            ErrorKind::UnsupportedAuth => {
                s.append("Auth not supported");
            },
            ErrorKind::Decode(e) => {
                let t = e.message();
                s.append(t.as_str());
            },
            ErrorKind::MissmatchDataType => {
                s.append("Missmatch datatype");
            },
            ErrorKind::ColumnIndexOutOfBounds => {
                s.append("Column index out of bounds");
            },
            ErrorKind::Utf8(e) => {
                let t = utf8_error_text(e);
                s.append(t.as_str());
            },
            ErrorKind::RowNotFound => {
                s.append("No row found");
            },
        }
        s
    }
}

/// The display text of an I/O error (`ToString::to_string`).
#[verifier::external_body]
fn io_error_text(e: &std::io::Error) -> String {
    e.to_string()
}

/// The debug text of raw bytes (`format!("{:?}")` of `Bytes`).
#[verifier::external_body]
fn bytes_debug_text(b: &Bytes) -> String {
    format!("{:?}", b)
}

} // verus!
