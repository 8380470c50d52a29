//! Protocol error
use std::str::Utf8Error;
use std::string::FromUtf8Error;
use vstd::prelude::*;
use vstd::string::StringExecFns;

use crate::postgres::backend::{spec_message_name, BackendMessage};
use crate::utf8::from_utf8_error_cause;

verus! {

/// An error when decoding a buffer from postgres
#[derive(Debug)]
pub enum ProtocolError {
    Utf8Error(Utf8Error),
    Unexpected { expect: Option<u8>, found: u8, phase: Option<&'static str> },
    UnknownAuth { auth: u32 },
}

impl BackendMessage {
    /// The error for this message arriving during `phase`.
    pub fn unexpected(self, phase: &'static str) -> (r: ProtocolError)
        ensures
            r == (ProtocolError::Unexpected {
                expect: None,
                found: self.spec_msgtype(),
                phase: Some(phase),
            }),
    {
        ProtocolError::unexpected_phase(self.msgtype(), phase)
    }
}

/// The display text of a `Utf8Error` (`ToString::to_string`).
#[verifier::external_body]
pub(crate) fn utf8_error_text(e: &Utf8Error) -> String {
    e.to_string()
}

/// The text of an unexpected message of type `found`: ``Expected message
/// `E` found `F` `` when a message of type `E` was expected, else
/// ``Unexpected message `F` ``, followed by `` in `P` `` when the phase `P`
/// is known, where the names are those of [`BackendMessage::message_name`].
pub open spec fn unexpected_text(expect: Option<u8>, found: u8, phase: Option<&'static str>) -> Seq<
    char,
> {
    (match expect {
        Some(m) => "Expected message `"@ + spec_message_name(m) + "` found `"@ + spec_message_name(
            found,
        ) + "`"@,
        None => "Unexpected message `"@ + spec_message_name(found) + "`"@,
    }) + (match phase {
        Some(p) => " in `"@ + p@ + "`"@,
        None => Seq::<char>::empty(),
    })
}

/// The fixed start of the text of a UTF-8 error in a message.
pub open spec fn non_utf8_prefix() -> Seq<char> {
    "Postgres returns non utf8: "@
}

impl ProtocolError {
    pub fn unknown(found: u8) -> (r: ProtocolError)
        ensures
            r == (ProtocolError::Unexpected { expect: None, found, phase: None }),
    {
        ProtocolError::Unexpected { expect: None, found, phase: None }
    }

    pub fn unexpected(expect: u8, found: u8) -> (r: ProtocolError)
        ensures
            r == (ProtocolError::Unexpected { expect: Some(expect), found, phase: None }),
    {
        ProtocolError::Unexpected { expect: Some(expect), found, phase: None }
    }

    pub fn unexpected_phase(found: u8, phase: &'static str) -> (r: ProtocolError)
        ensures
            r == (ProtocolError::Unexpected { expect: None, found, phase: Some(phase) }),
    {
        ProtocolError::Unexpected { expect: None, found, phase: Some(phase) }
    }

    pub fn unknown_auth(auth: u32) -> (r: ProtocolError)
        ensures
            r == (ProtocolError::UnknownAuth { auth }),
    {
        ProtocolError::UnknownAuth { auth }
    }

    /// Converts a UTF-8 error.
    pub fn from_utf8_error(e: Utf8Error) -> (r: ProtocolError)
        ensures
            r == ProtocolError::Utf8Error(e),
    {
        ProtocolError::Utf8Error(e)
    }

    /// Converts the UTF-8 error of a failed `String::from_utf8`.
    pub fn from_string_utf8_error(e: FromUtf8Error) -> (r: ProtocolError)
        ensures
            r is Utf8Error,
    {
        ProtocolError::Utf8Error(from_utf8_error_cause(&e))
    }

    /// The human readable description of the error: for an unexpected
    /// message, [`unexpected_text`]; for invalid UTF-8, a fixed start
    /// followed by the UTF-8 error's own text.
    ///
    /// An unknown authentication type has no text, so that variant is
    /// excluded.
    pub fn message(&self) -> (r: String)
        requires
            !(self is UnknownAuth),
        ensures
            self matches ProtocolError::Unexpected { expect, found, phase } ==> r@ == unexpected_text(
                *expect,
                *found,
                *phase,
            ),
            self is Utf8Error ==> non_utf8_prefix().is_prefix_of(r@),
    {
        match self {
            ProtocolError::Utf8Error(utf) => {
                let mut s = String::new();
                s.append("Postgres returns non utf8: ");
                let t = utf8_error_text(utf);
                s.append(t.as_str());
                s
            },
            ProtocolError::Unexpected { expect, found, phase } => {
                let found = BackendMessage::message_name(*found);
                let mut s = String::new();
                match expect {
                    Some(m) => {
                        s.append("Expected message `");
                        s.append(BackendMessage::message_name(*m));
                        s.append("` found `");
                        s.append(found);
                        s.append("`");
                    },
                    None => {
                        s.append("Unexpected message `");
                        s.append(found);
                        s.append("`");
                    },
                }
                if let Some(phase) = phase {
                    s.append(" in `");
                    s.append(phase);
                    s.append("`");
                }
                s
            },
            ProtocolError::UnknownAuth { .. } => {
                proof {
                    assert(false);
                }
                String::new()
            },
        }
    }
}

} // verus!
