//! Postgres Backend Messages
//!
//! <https://www.postgresql.org/docs/current/protocol-message-formats.html>
use bytes::Bytes;
use vstd::prelude::*;
use vstd::string::StringExecFns;

use super::ProtocolError;
use crate::buf::{
    be_u16, be_u32, bytes_get_u16, bytes_get_u32, bytes_get_u8, bytes_len, bytes_seq, read_be_u32,
    u32_be,
};
use crate::common::ByteStr;
use crate::ext::{find_nul, first_nul, get_nul_bytestr};
use crate::statement::{decimal, format_u32, lemma_ascii_valid_utf8, lemma_decimal_ascii};
use crate::utf8::{str_from_utf8, string_from_utf8};
use vstd::utf8::decode_utf8;
use vstd::slice::slice_subrange;

verus! {

/// The error for a message of type `found` where type `expect` was asked for.
pub open spec fn wrong_type(expect: u8, found: u8) -> ProtocolError {
    ProtocolError::Unexpected { expect: Some(expect), found, phase: None }
}

/// A zero-terminated string starts `s`.
pub open spec fn has_nul_string(s: Seq<u8>) -> bool {
    first_nul(s) is Some
}

/// The string that starts `s`, without its terminator.
pub open spec fn nul_string_at(s: Seq<u8>) -> Seq<u8> {
    s.take(first_nul(s).unwrap())
}

/// What follows the string that starts `s`.
pub open spec fn after_nul_string(s: Seq<u8>) -> Seq<u8> {
    s.skip(first_nul(s).unwrap() + 1)
}

/// A type that can be decoded into postgres backend message.
pub trait BackendProtocol: Sized {
    /// The body is long enough, and well enough formed, for decoding not to
    /// panic.
    spec fn can_decode(msgtype: u8, body: Seq<u8>) -> bool;

    /// `r` is the outcome of decoding `body` of a message of type `msgtype`.
    spec fn decodes(msgtype: u8, body: Seq<u8>, r: Result<Self, ProtocolError>) -> bool;

    /// Try decode given bytes into message.
    ///
    /// Note that `body` is only the main body, **excluding** message type and length.
    fn decode(msgtype: u8, body: Bytes) -> (r: Result<Self, ProtocolError>)
        requires
            Self::can_decode(msgtype, bytes_seq(body)),
        ensures
            Self::decodes(msgtype, bytes_seq(body), r),
    ;

    /// Whether `decode` can be called on this message: where it cannot,
    /// decoding would panic.
    fn decodable(msgtype: u8, body: &[u8]) -> (r: bool)
        ensures
            r == Self::can_decode(msgtype, body@),
    ;
}

/// Whether a zero-terminated string starts `s`.
pub fn check_nul_string(s: &[u8]) -> (r: bool)
    ensures
        r == has_nul_string(s@),
{
    find_nul(s).is_some()
}

/// Identifies the message as an authentication request.
#[derive(Debug)]
pub enum Authentication {
    /// Specifies that the authentication was successful.
    AuthenticationOk,
    /// Specifies that Kerberos V5 authentication is required.
    KerberosV5,
    /// Specifies that a clear-text password is required.
    CleartextPassword,
    /// Specifies that an MD5-encrypted password is required.
    MD5Password {
        /// The salt to use when encrypting the password.
        salt: [u8; 4],
    },
    /// Specifies that GSSAPI authentication is required.
    GSS,
    /// GSSAPI or SSPI authentication data.
    GSSContinue { data: Bytes },
    /// Specifies that SSPI authentication is required.
    SSPI,
    /// Specifies that SASL authentication is required.
    ///
    /// The message body is a list of SASL authentication mechanisms, in the server's order of preference.
    SASL { name: Bytes },
    /// Specifies that this message contains a SASL challenge.
    SASLContinue { data: Bytes },
    /// Specifies that SASL authentication has completed.
    SASLFinal { data: Bytes },
}

/// The authentication codes that the protocol defines.
pub open spec fn known_auth(code: u32) -> bool {
    code == 0 || code == 2 || code == 3 || code == 5 || code == 7 || code == 8 || code == 9
        || code == 10 || code == 11 || code == 12
}

impl Authentication {
    pub const MSGTYPE: u8 = 82;  // 'R'

    /// `self` is the request that code `code` followed by `rest` describes.
    pub open spec fn describes(&self, code: u32, rest: Seq<u8>) -> bool {
        match self {
            Authentication::AuthenticationOk => code == 0,
            Authentication::KerberosV5 => code == 2,
            Authentication::CleartextPassword => code == 3,
            Authentication::MD5Password { salt } => code == 5 && salt@ == rest.take(4),
            Authentication::GSS => code == 7,
            Authentication::GSSContinue { data } => code == 8 && bytes_seq(*data) == rest,
            Authentication::SSPI => code == 9,
            Authentication::SASL { name } => code == 10 && bytes_seq(*name) == rest,
            Authentication::SASLContinue { data } => code == 11 && bytes_seq(*data) == rest,
            Authentication::SASLFinal { data } => code == 12 && bytes_seq(*data) == rest,
        }
    }
}

/// The big-endian bytes of a `u32`, computed.
fn u32_to_be_bytes(u: u32) -> (r: [u8; 4])
    ensures
        r@ == u32_be(u),
{
    let r = [(u / 0x1000000) as u8, ((u / 0x10000) % 0x100) as u8, ((u / 0x100) % 0x100) as u8, (u % 0x100) as u8];
    assert(r@ =~= u32_be(u));
    r
}

impl BackendProtocol for Authentication {
    /// The body holds the code, and an MD5 request carries its salt.
    open spec fn can_decode(msgtype: u8, body: Seq<u8>) -> bool {
        msgtype == Self::MSGTYPE ==> {
            &&& body.len() >= 4
            &&& be_u32(body) == 5 ==> body.len() >= 8
        }
    }

    /// A code that the protocol defines gives its request; any other code
    /// is the error naming that code.
    open spec fn decodes(msgtype: u8, body: Seq<u8>, r: Result<Self, ProtocolError>) -> bool {
        if msgtype != Self::MSGTYPE {
            r == Err::<Self, ProtocolError>(wrong_type(Self::MSGTYPE, msgtype))
        } else if known_auth(be_u32(body)) {
            r matches Ok(a) && a.describes(be_u32(body), body.skip(4))
        } else {
            r == Err::<Self, ProtocolError>(ProtocolError::UnknownAuth { auth: be_u32(body) })
        }
    }

    fn decode(msgtype: u8, body: Bytes) -> (r: Result<Self, ProtocolError>) {
        if Self::MSGTYPE != msgtype {
            return Err(ProtocolError::unexpected(Self::MSGTYPE, msgtype));
        }
        let mut body = body;
        let ghost full = bytes_seq(body);
        let code = bytes_get_u32(&mut body);
        if !(code == 0 || code == 2 || code == 3 || code == 5 || code == 7 || code == 8 || code == 9
            || code == 10 || code == 11 || code == 12) {
            return Err(ProtocolError::unknown_auth(code));
        }
        let auth = match code {
            0 => Self::AuthenticationOk,
            2 => Self::KerberosV5,
            3 => Self::CleartextPassword,
            5 => {
                let salt = u32_to_be_bytes(bytes_get_u32(&mut body));
                proof {
                    crate::buf::lemma_u32_be_roundtrip(be_u32(full.skip(4)));
                    assert(u32_be(be_u32(full.skip(4))) =~= full.skip(4).take(4)) by {
                        assert(full.skip(4).take(4).len() == 4);
                    }
                }
                Self::MD5Password { salt }
            },
            7 => Self::GSS,
            8 => Self::GSSContinue { data: body },
            9 => Self::SSPI,
            10 => Self::SASL { name: body },
            11 => Self::SASLContinue { data: body },
            _ => Self::SASLFinal { data: body },
        };
        Ok(auth)
    }

    fn decodable(msgtype: u8, body: &[u8]) -> (r: bool) {
        if msgtype != Self::MSGTYPE {
            return true;
        }
        if body.len() < 4 {
            return false;
        }
        let code = read_be_u32(body);
        code != 5 || body.len() >= 8
    }
}

/// Identifies the message as cancellation key data.
///
/// The frontend must save these values if it wishes to be able to issue CancelRequest messages later.
/// It has no `Debug`, so that its secret key is not written to logs.
pub struct BackendKeyData {
    /// The process ID of this backend.
    pub process_id: u32,
    /// The secret key of this backend.
    pub secret_key: u32,
}

/// The debug text of key data with process ID `process_id`: its fields
/// by name, with the secret key left out.
pub open spec fn key_data_text(process_id: u32) -> Seq<char> {
    "BackendKeyData { process_id: "@ + decode_utf8(decimal(process_id as nat))
        + ", secret_key: \"<REDACTED>\" }"@
}

impl BackendKeyData {
    pub const MSGTYPE: u8 = 75;  // 'K'

    /// The text to log for this key data: the process ID, and the secret
    /// key redacted.
    pub fn debug_text(&self) -> (r: String)
        ensures
            r@ == key_data_text(self.process_id),
    {
        let digits = format_u32(self.process_id);
        proof {
            lemma_decimal_ascii(self.process_id as nat);
            lemma_ascii_valid_utf8(digits@);
        }
        let mut s = String::new();
        s.append("BackendKeyData { process_id: ");
        match string_from_utf8(digits) {
            Ok(d) => s.append(d.as_str()),
            Err(_) => {},
        }
        s.append(", secret_key: \"<REDACTED>\" }");
        s
    }
}

impl BackendProtocol for BackendKeyData {
    open spec fn can_decode(msgtype: u8, body: Seq<u8>) -> bool {
        msgtype == Self::MSGTYPE ==> body.len() >= 8
    }

    open spec fn decodes(msgtype: u8, body: Seq<u8>, r: Result<Self, ProtocolError>) -> bool {
        if msgtype != Self::MSGTYPE {
            r == Err::<Self, ProtocolError>(wrong_type(Self::MSGTYPE, msgtype))
        } else {
            r matches Ok(k) && k.process_id == be_u32(body) && k.secret_key == be_u32(body.skip(4))
        }
    }

    fn decode(msgtype: u8, body: Bytes) -> (r: Result<Self, ProtocolError>) {
        if Self::MSGTYPE != msgtype {
            return Err(ProtocolError::unexpected(Self::MSGTYPE, msgtype));
        }
        let mut body = body;
        let process_id = bytes_get_u32(&mut body);
        let secret_key = bytes_get_u32(&mut body);
        Ok(Self { process_id, secret_key })
    }

    fn decodable(msgtype: u8, body: &[u8]) -> (r: bool) {
        msgtype != Self::MSGTYPE || body.len() >= 8
    }
}

/// Identifies the message as a run-time parameter status report.
#[derive(Debug)]
pub struct ParameterStatus {
    /// The name of the run-time parameter being reported.
    pub name: ByteStr,
    /// The current value of the parameter.
    pub value: ByteStr,
}

impl ParameterStatus {
    pub const MSGTYPE: u8 = 83;  // 'S'
}

impl BackendProtocol for ParameterStatus {
    /// Both strings are terminated (decoding panics otherwise); the second
    /// need only be when the first is valid UTF-8.
    open spec fn can_decode(msgtype: u8, body: Seq<u8>) -> bool {
        msgtype == Self::MSGTYPE ==> {
            &&& has_nul_string(body)
            &&& vstd::utf8::valid_utf8(nul_string_at(body)) ==> has_nul_string(
                after_nul_string(body),
            )
        }
    }

    open spec fn decodes(msgtype: u8, body: Seq<u8>, r: Result<Self, ProtocolError>) -> bool {
        if msgtype != Self::MSGTYPE {
            r == Err::<Self, ProtocolError>(wrong_type(Self::MSGTYPE, msgtype))
        } else {
            let name = nul_string_at(body);
            let value = nul_string_at(after_nul_string(body));
            if vstd::utf8::valid_utf8(name) && vstd::utf8::valid_utf8(value) {
                r matches Ok(p) && p.name@ == name && p.value@ == value
            } else {
                r matches Err(e) && e is Utf8Error
            }
        }
    }

    fn decode(msgtype: u8, body: Bytes) -> (r: Result<Self, ProtocolError>) {
        if Self::MSGTYPE != msgtype {
            return Err(ProtocolError::unexpected(Self::MSGTYPE, msgtype));
        }
        let mut body = body;
        let name = match get_nul_bytestr(&mut body) {
            Ok(s) => s,
            Err(e) => return Err(ProtocolError::from_utf8_error(e)),
        };
        let value = match get_nul_bytestr(&mut body) {
            Ok(s) => s,
            Err(e) => return Err(ProtocolError::from_utf8_error(e)),
        };
        Ok(Self { name, value })
    }

    fn decodable(msgtype: u8, body: &[u8]) -> (r: bool) {
        if msgtype != Self::MSGTYPE {
            return true;
        }
        let n = body.len();
        match find_nul(body) {
            None => false,
            Some(i) => {
                let name = slice_subrange(body, 0, i);
                let rest = slice_subrange(body, i + 1, n);
                proof {
                    assert(name@ =~= nul_string_at(body@));
                    assert(rest@ =~= after_nul_string(body@));
                }
                match str_from_utf8(name) {
                    Err(_) => true,
                    Ok(_) => check_nul_string(rest),
                }
            },
        }
    }
}

/// Identifies the message as a notice.
///
/// The message body consists of one or more identified fields, followed by a zero byte as a terminator.
#[derive(Debug)]
pub struct NoticeResponse {
    /// Raw message body.
    pub body: Bytes,
}

impl NoticeResponse {
    pub const MSGTYPE: u8 = 78;  // 'N'

    pub fn new(body: Bytes) -> (r: Self)
        ensures
            bytes_seq(r.body) == bytes_seq(body),
    {
        Self { body }
    }
}

impl BackendProtocol for NoticeResponse {
    open spec fn can_decode(msgtype: u8, body: Seq<u8>) -> bool {
        true
    }

    open spec fn decodes(msgtype: u8, body: Seq<u8>, r: Result<Self, ProtocolError>) -> bool {
        if msgtype != Self::MSGTYPE {
            r == Err::<Self, ProtocolError>(wrong_type(Self::MSGTYPE, msgtype))
        } else {
            r matches Ok(m) && bytes_seq(m.body) == body
        }
    }

    fn decode(msgtype: u8, body: Bytes) -> (r: Result<Self, ProtocolError>) {
        if Self::MSGTYPE != msgtype {
            return Err(ProtocolError::unexpected(Self::MSGTYPE, msgtype));
        }
        Ok(Self { body })
    }

    fn decodable(msgtype: u8, body: &[u8]) -> (r: bool) {
        true
    }
}

/// Identifies the message as an error.
///
/// The message body consists of one or more identified fields, followed by a zero byte as a terminator.
#[derive(Debug)]
pub struct ErrorResponse {
    /// Raw message body.
    pub body: Bytes,
}

impl ErrorResponse {
    pub const MSGTYPE: u8 = 69;  // 'E'

    pub fn new(body: Bytes) -> (r: Self)
        ensures
            bytes_seq(r.body) == bytes_seq(body),
    {
        Self { body }
    }
}

impl BackendProtocol for ErrorResponse {
    open spec fn can_decode(msgtype: u8, body: Seq<u8>) -> bool {
        true
    }

    open spec fn decodes(msgtype: u8, body: Seq<u8>, r: Result<Self, ProtocolError>) -> bool {
        if msgtype != Self::MSGTYPE {
            r == Err::<Self, ProtocolError>(wrong_type(Self::MSGTYPE, msgtype))
        } else {
            r matches Ok(m) && bytes_seq(m.body) == body
        }
    }

    fn decode(msgtype: u8, body: Bytes) -> (r: Result<Self, ProtocolError>) {
        if Self::MSGTYPE != msgtype {
            return Err(ProtocolError::unexpected(Self::MSGTYPE, msgtype));
        }
        Ok(Self { body })
    }

    fn decodable(msgtype: u8, body: &[u8]) -> (r: bool) {
        true
    }
}

/// Identifies the message as a row description.
///
/// The body holds the number of fields, then for each field its name,
/// table object ID, attribute number, data type object ID, data type
/// size, type modifier and format code.
#[derive(Debug)]
pub struct RowDescription {
    /// Raw message body.
    pub body: Bytes,
}

impl RowDescription {
    pub const MSGTYPE: u8 = 84;  // 'T'
}

impl BackendProtocol for RowDescription {
    open spec fn can_decode(msgtype: u8, body: Seq<u8>) -> bool {
        true
    }

    open spec fn decodes(msgtype: u8, body: Seq<u8>, r: Result<Self, ProtocolError>) -> bool {
        if msgtype != Self::MSGTYPE {
            r == Err::<Self, ProtocolError>(wrong_type(Self::MSGTYPE, msgtype))
        } else {
            r matches Ok(m) && bytes_seq(m.body) == body
        }
    }

    fn decode(msgtype: u8, body: Bytes) -> (r: Result<Self, ProtocolError>) {
        if Self::MSGTYPE != msgtype {
            return Err(ProtocolError::unexpected(Self::MSGTYPE, msgtype));
        }
        Ok(Self { body })
    }

    fn decodable(msgtype: u8, body: &[u8]) -> (r: bool) {
        true
    }
}

/// Identifies the message as a data row.
///
/// The body holds the number of column values, then for each its length
/// (`-1` for `NULL`) and its bytes.
#[derive(Debug)]
pub struct DataRow {
    /// Raw row buffer.
    pub body: Bytes,
}

impl DataRow {
    pub const MSGTYPE: u8 = 68;  // 'D'
}

impl BackendProtocol for DataRow {
    open spec fn can_decode(msgtype: u8, body: Seq<u8>) -> bool {
        true
    }

    open spec fn decodes(msgtype: u8, body: Seq<u8>, r: Result<Self, ProtocolError>) -> bool {
        if msgtype != Self::MSGTYPE {
            r == Err::<Self, ProtocolError>(wrong_type(Self::MSGTYPE, msgtype))
        } else {
            r matches Ok(m) && bytes_seq(m.body) == body
        }
    }

    fn decode(msgtype: u8, body: Bytes) -> (r: Result<Self, ProtocolError>) {
        if Self::MSGTYPE != msgtype {
            return Err(ProtocolError::unexpected(Self::MSGTYPE, msgtype));
        }
        Ok(Self { body })
    }

    fn decodable(msgtype: u8, body: &[u8]) -> (r: bool) {
        true
    }
}

/// Identifies the message as a command-completed response.
#[derive(Debug)]
pub struct CommandComplete {
    /// The command tag. This is usually a single word that identifies which SQL command was completed.
    ///
    /// For an `INSERT` command, the tag is `INSERT oid rows`; for `DELETE`, `UPDATE`, `MERGE`,
    /// `SELECT`, `MOVE`, `FETCH` and `COPY`, it is the command and `rows`.
    pub tag: ByteStr,
}

impl CommandComplete {
    pub const MSGTYPE: u8 = 67;  // 'C'
}

impl BackendProtocol for CommandComplete {
    open spec fn can_decode(msgtype: u8, body: Seq<u8>) -> bool {
        msgtype == Self::MSGTYPE ==> has_nul_string(body)
    }

    open spec fn decodes(msgtype: u8, body: Seq<u8>, r: Result<Self, ProtocolError>) -> bool {
        if msgtype != Self::MSGTYPE {
            r == Err::<Self, ProtocolError>(wrong_type(Self::MSGTYPE, msgtype))
        } else if vstd::utf8::valid_utf8(nul_string_at(body)) {
            r matches Ok(c) && c.tag@ == nul_string_at(body)
        } else {
            r matches Err(e) && e is Utf8Error
        }
    }

    fn decode(msgtype: u8, body: Bytes) -> (r: Result<Self, ProtocolError>) {
        if Self::MSGTYPE != msgtype {
            return Err(ProtocolError::unexpected(Self::MSGTYPE, msgtype));
        }
        let mut body = body;
        match get_nul_bytestr(&mut body) {
            Ok(tag) => Ok(Self { tag }),
            Err(e) => Err(ProtocolError::from_utf8_error(e)),
        }
    }

    fn decodable(msgtype: u8, body: &[u8]) -> (r: bool) {
        msgtype != Self::MSGTYPE || check_nul_string(body)
    }
}

/// Identifies the message as a protocol version negotiation message.
#[derive(Debug)]
pub struct NegotiateProtocolVersion {
    /// Newest minor protocol version supported by the server for the major protocol version requested by the client.
    pub minor: u32,
    /// Number of protocol options not recognized by the server.
    pub len: u32,
    /// Raw buffer for option not recognized by the server.
    pub opt_names: Bytes,
}

impl NegotiateProtocolVersion {
    pub const MSGTYPE: u8 = 118;  // 'v'
}

impl BackendProtocol for NegotiateProtocolVersion {
    open spec fn can_decode(msgtype: u8, body: Seq<u8>) -> bool {
        msgtype == Self::MSGTYPE ==> body.len() >= 8
    }

    open spec fn decodes(msgtype: u8, body: Seq<u8>, r: Result<Self, ProtocolError>) -> bool {
        if msgtype != Self::MSGTYPE {
            r == Err::<Self, ProtocolError>(wrong_type(Self::MSGTYPE, msgtype))
        } else {
            r matches Ok(m) && m.minor == be_u32(body) && m.len == be_u32(body.skip(4))
                && bytes_seq(m.opt_names) == body.skip(8)
        }
    }

    fn decode(msgtype: u8, body: Bytes) -> (r: Result<Self, ProtocolError>) {
        if Self::MSGTYPE != msgtype {
            return Err(ProtocolError::unexpected(Self::MSGTYPE, msgtype));
        }
        let mut body = body;
        let ghost full = bytes_seq(body);
        let minor = bytes_get_u32(&mut body);
        let len = bytes_get_u32(&mut body);
        assert(bytes_seq(body) =~= full.skip(8));
        Ok(Self { minor, len, opt_names: body })
    }

    fn decodable(msgtype: u8, body: &[u8]) -> (r: bool) {
        msgtype != Self::MSGTYPE || body.len() >= 8
    }
}

/// Identifies the message as a parameter description.
#[derive(Debug)]
pub struct ParameterDescription {
    /// The number of parameters used by the statement (can be zero).
    pub param_len: u16,
    /// Raw buffer: for each parameter, the object ID of its data type.
    pub oids: Bytes,
}

impl ParameterDescription {
    pub const MSGTYPE: u8 = 116;  // 't'
}

impl BackendProtocol for ParameterDescription {
    open spec fn can_decode(msgtype: u8, body: Seq<u8>) -> bool {
        msgtype == Self::MSGTYPE ==> body.len() >= 2
    }

    open spec fn decodes(msgtype: u8, body: Seq<u8>, r: Result<Self, ProtocolError>) -> bool {
        if msgtype != Self::MSGTYPE {
            r == Err::<Self, ProtocolError>(wrong_type(Self::MSGTYPE, msgtype))
        } else {
            r matches Ok(m) && m.param_len == be_u16(body) && bytes_seq(m.oids) == body.skip(2)
        }
    }

    fn decode(msgtype: u8, body: Bytes) -> (r: Result<Self, ProtocolError>) {
        if Self::MSGTYPE != msgtype {
            return Err(ProtocolError::unexpected(Self::MSGTYPE, msgtype));
        }
        let mut body = body;
        let param_len = bytes_get_u16(&mut body);
        Ok(Self { param_len, oids: body })
    }

    fn decodable(msgtype: u8, body: &[u8]) -> (r: bool) {
        msgtype != Self::MSGTYPE || body.len() >= 2
    }
}

/// Identifies the message type. ReadyForQuery is sent whenever the backend is ready for a new query cycle.
#[derive(Debug)]
pub struct ReadyForQuery {
    /// Current backend transaction status indicator.
    ///
    /// Possible values are 'I' if idle (not in a transaction block);
    /// 'T' if in a transaction block;
    /// or 'E' if in a failed transaction block (queries will be rejected until block is ended).
    pub tx_status: u8,
}

impl ReadyForQuery {
    pub const MSGTYPE: u8 = 90;  // 'Z'

    /// The name of the transaction status, as it is shown.
    pub open spec fn spec_status_name(tx_status: u8) -> &'static str {
        if tx_status == 73 {
            "Idle(I)"
        } else if tx_status == 84 {
            "Transaction(T)"
        } else if tx_status == 69 {
            "FailedTx(E)"
        } else {
            "unknown"
        }
    }

    /// The name of the transaction status: idle, in a transaction, or in a
    /// failed transaction.
    pub fn status_name(&self) -> (r: &'static str)
        ensures
            r == Self::spec_status_name(self.tx_status),
    {
        if self.tx_status == 73 /* 'I' */ {
            "Idle(I)"
        } else if self.tx_status == 84 /* 'T' */ {
            "Transaction(T)"
        } else if self.tx_status == 69 /* 'E' */ {
            "FailedTx(E)"
        } else {
            "unknown"
        }
    }
}

impl BackendProtocol for ReadyForQuery {
    open spec fn can_decode(msgtype: u8, body: Seq<u8>) -> bool {
        msgtype == Self::MSGTYPE ==> body.len() >= 1
    }

    open spec fn decodes(msgtype: u8, body: Seq<u8>, r: Result<Self, ProtocolError>) -> bool {
        if msgtype != Self::MSGTYPE {
            r == Err::<Self, ProtocolError>(wrong_type(Self::MSGTYPE, msgtype))
        } else {
            r matches Ok(m) && m.tx_status == body[0]
        }
    }

    fn decode(msgtype: u8, body: Bytes) -> (r: Result<Self, ProtocolError>) {
        if Self::MSGTYPE != msgtype {
            return Err(ProtocolError::unexpected(Self::MSGTYPE, msgtype));
        }
        let mut body = body;
        Ok(Self { tx_status: bytes_get_u8(&mut body) })
    }

    fn decodable(msgtype: u8, body: &[u8]) -> (r: bool) {
        msgtype != Self::MSGTYPE || body.len() >= 1
    }
}

/// Identifies the message as a Bind-complete indicator.
#[derive(Debug)]
pub struct BindComplete;

impl BindComplete {
    pub const MSGTYPE: u8 = 50;  // '2'
}

impl BackendProtocol for BindComplete {
    open spec fn can_decode(msgtype: u8, body: Seq<u8>) -> bool {
        true
    }

    open spec fn decodes(msgtype: u8, body: Seq<u8>, r: Result<Self, ProtocolError>) -> bool {
        if msgtype != Self::MSGTYPE {
            r == Err::<Self, ProtocolError>(wrong_type(Self::MSGTYPE, msgtype))
        } else {
            r is Ok
        }
    }

    fn decode(msgtype: u8, body: Bytes) -> (r: Result<Self, ProtocolError>) {
        if Self::MSGTYPE != msgtype {
            return Err(ProtocolError::unexpected(Self::MSGTYPE, msgtype));
        }
        Ok(Self)
    }

    fn decodable(msgtype: u8, body: &[u8]) -> (r: bool) {
        true
    }
}

/// Identifies the message as a Close-complete indicator.
#[derive(Debug)]
pub struct CloseComplete;

impl CloseComplete {
    pub const MSGTYPE: u8 = 51;  // '3'
}

impl BackendProtocol for CloseComplete {
    open spec fn can_decode(msgtype: u8, body: Seq<u8>) -> bool {
        true
    }

    open spec fn decodes(msgtype: u8, body: Seq<u8>, r: Result<Self, ProtocolError>) -> bool {
        if msgtype != Self::MSGTYPE {
            r == Err::<Self, ProtocolError>(wrong_type(Self::MSGTYPE, msgtype))
        } else {
            r is Ok
        }
    }

    fn decode(msgtype: u8, body: Bytes) -> (r: Result<Self, ProtocolError>) {
        if Self::MSGTYPE != msgtype {
            return Err(ProtocolError::unexpected(Self::MSGTYPE, msgtype));
        }
        Ok(Self)
    }

    fn decodable(msgtype: u8, body: &[u8]) -> (r: bool) {
        true
    }
}

/// Identifies the message as a response to an empty query string.
///
/// This substitutes for CommandComplete.
#[derive(Debug)]
pub struct EmptyQueryResponse;

impl EmptyQueryResponse {
    pub const MSGTYPE: u8 = 73;  // 'I'
}

impl BackendProtocol for EmptyQueryResponse {
    open spec fn can_decode(msgtype: u8, body: Seq<u8>) -> bool {
        true
    }

    open spec fn decodes(msgtype: u8, body: Seq<u8>, r: Result<Self, ProtocolError>) -> bool {
        if msgtype != Self::MSGTYPE {
            r == Err::<Self, ProtocolError>(wrong_type(Self::MSGTYPE, msgtype))
        } else {
            r is Ok
        }
    }

    fn decode(msgtype: u8, body: Bytes) -> (r: Result<Self, ProtocolError>) {
        if Self::MSGTYPE != msgtype {
            return Err(ProtocolError::unexpected(Self::MSGTYPE, msgtype));
        }
        Ok(Self)
    }

    fn decodable(msgtype: u8, body: &[u8]) -> (r: bool) {
        true
    }
}

/// Identifies the message as a no-data indicator.
#[derive(Debug)]
pub struct NoData;

impl NoData {
    pub const MSGTYPE: u8 = 110;  // 'n'
}

impl BackendProtocol for NoData {
    open spec fn can_decode(msgtype: u8, body: Seq<u8>) -> bool {
        true
    }

    open spec fn decodes(msgtype: u8, body: Seq<u8>, r: Result<Self, ProtocolError>) -> bool {
        if msgtype != Self::MSGTYPE {
            r == Err::<Self, ProtocolError>(wrong_type(Self::MSGTYPE, msgtype))
        } else {
            r is Ok
        }
    }

    fn decode(msgtype: u8, body: Bytes) -> (r: Result<Self, ProtocolError>) {
        if Self::MSGTYPE != msgtype {
            return Err(ProtocolError::unexpected(Self::MSGTYPE, msgtype));
        }
        Ok(Self)
    }

    fn decodable(msgtype: u8, body: &[u8]) -> (r: bool) {
        true
    }
}

/// Identifies the message as a Parse-complete indicator.
#[derive(Debug)]
pub struct ParseComplete;

impl ParseComplete {
    pub const MSGTYPE: u8 = 49;  // '1'
}

impl BackendProtocol for ParseComplete {
    open spec fn can_decode(msgtype: u8, body: Seq<u8>) -> bool {
        true
    }

    open spec fn decodes(msgtype: u8, body: Seq<u8>, r: Result<Self, ProtocolError>) -> bool {
        if msgtype != Self::MSGTYPE {
            r == Err::<Self, ProtocolError>(wrong_type(Self::MSGTYPE, msgtype))
        } else {
            r is Ok
        }
    }

    fn decode(msgtype: u8, body: Bytes) -> (r: Result<Self, ProtocolError>) {
        if Self::MSGTYPE != msgtype {
            return Err(ProtocolError::unexpected(Self::MSGTYPE, msgtype));
        }
        Ok(Self)
    }

    fn decodable(msgtype: u8, body: &[u8]) -> (r: bool) {
        true
    }
}

/// Identifies the message as a portal-suspended indicator.
///
/// Note this only appears if an Execute message's row-count limit was reached.
#[derive(Debug)]
pub struct PortalSuspended;

impl PortalSuspended {
    pub const MSGTYPE: u8 = 115;  // 's'
}

impl BackendProtocol for PortalSuspended {
    open spec fn can_decode(msgtype: u8, body: Seq<u8>) -> bool {
        true
    }

    open spec fn decodes(msgtype: u8, body: Seq<u8>, r: Result<Self, ProtocolError>) -> bool {
        if msgtype != Self::MSGTYPE {
            r == Err::<Self, ProtocolError>(wrong_type(Self::MSGTYPE, msgtype))
        } else {
            r is Ok
        }
    }

    fn decode(msgtype: u8, body: Bytes) -> (r: Result<Self, ProtocolError>) {
        if Self::MSGTYPE != msgtype {
            return Err(ProtocolError::unexpected(Self::MSGTYPE, msgtype));
        }
        Ok(Self)
    }

    fn decodable(msgtype: u8, body: &[u8]) -> (r: bool) {
        true
    }
}


/// Postgres backend messages.
/// It has no `Debug`: one variant holds the secret key of the session.
pub enum BackendMessage {
    /// Identifies the message as an authentication request.
    Authentication(Authentication),
    /// Identifies the message as cancellation key data.
    BackendKeyData(BackendKeyData),
    /// Identifies the message as a Bind-complete indicator.
    BindComplete(BindComplete),
    /// Identifies the message as a Close-complete indicator.
    CloseComplete(CloseComplete),
    /// Identifies the message as a command-completed response.
    CommandComplete(CommandComplete),
    /// Identifies the message as a data row.
    DataRow(DataRow),
    /// Identifies the message as an error.
    ErrorResponse(ErrorResponse),
    /// Identifies the message as a response to an empty query string.
    EmptyQueryResponse(EmptyQueryResponse),
    /// Identifies the message as a protocol version negotiation message.
    NegotiateProtocolVersion(NegotiateProtocolVersion),
    /// Identifies the message as a no-data indicator.
    NoData(NoData),
    /// Identifies the message as a notice.
    NoticeResponse(NoticeResponse),
    /// Identifies the message as a parameter description.
    ParameterDescription(ParameterDescription),
    /// Identifies the message as a run-time parameter status report.
    ParameterStatus(ParameterStatus),
    /// Identifies the message as a Parse-complete indicator.
    ParseComplete(ParseComplete),
    /// Identifies the message as a portal-suspended indicator.
    PortalSuspended(PortalSuspended),
    /// Identifies the message as ready for a new query cycle.
    ReadyForQuery(ReadyForQuery),
    /// Identifies the message as a row description.
    RowDescription(RowDescription),
}

/// The name of the message of type `msgtype`, or `"Unknown"`.
pub open spec fn spec_message_name(msgtype: u8) -> Seq<char> {
    match msgtype {
        82 => "Authentication"@,
        75 => "BackendKeyData"@,
        50 => "BindComplete"@,
        51 => "CloseComplete"@,
        67 => "CommandComplete"@,
        68 => "DataRow"@,
        69 => "ErrorResponse"@,
        73 => "EmptyQueryResponse"@,
        118 => "NegotiateProtocolVersion"@,
        110 => "NoData"@,
        78 => "NoticeResponse"@,
        116 => "ParameterDescription"@,
        83 => "ParameterStatus"@,
        49 => "ParseComplete"@,
        115 => "PortalSuspended"@,
        90 => "ReadyForQuery"@,
        84 => "RowDescription"@,
        _ => "Unknown"@,
    }
}

/// `msgtype` is the type of a message that [`BackendMessage`] knows.
pub open spec fn known_msgtype(msgtype: u8) -> bool {
    msgtype == 82 || msgtype == 75 || msgtype == 50 || msgtype == 51 || msgtype == 67 || msgtype == 68 || msgtype == 69 || msgtype == 73 || msgtype == 118 || msgtype == 110 || msgtype == 78 || msgtype == 116 || msgtype == 83 || msgtype == 49 || msgtype == 115 || msgtype == 90 || msgtype == 84
}

impl BackendMessage {
    /// The message type of `self`.
    pub open spec fn spec_msgtype(&self) -> u8 {
        match self {
            BackendMessage::Authentication(_) => 82,
            BackendMessage::BackendKeyData(_) => 75,
            BackendMessage::BindComplete(_) => 50,
            BackendMessage::CloseComplete(_) => 51,
            BackendMessage::CommandComplete(_) => 67,
            BackendMessage::DataRow(_) => 68,
            BackendMessage::ErrorResponse(_) => 69,
            BackendMessage::EmptyQueryResponse(_) => 73,
            BackendMessage::NegotiateProtocolVersion(_) => 118,
            BackendMessage::NoData(_) => 110,
            BackendMessage::NoticeResponse(_) => 78,
            BackendMessage::ParameterDescription(_) => 116,
            BackendMessage::ParameterStatus(_) => 83,
            BackendMessage::ParseComplete(_) => 49,
            BackendMessage::PortalSuspended(_) => 115,
            BackendMessage::ReadyForQuery(_) => 90,
            BackendMessage::RowDescription(_) => 84,
        }
    }

    /// Returns the message type.
    pub fn msgtype(&self) -> (r: u8)
        ensures
            r == self.spec_msgtype(),
    {
        match self {
            BackendMessage::Authentication(_) => Authentication::MSGTYPE,
            BackendMessage::BackendKeyData(_) => BackendKeyData::MSGTYPE,
            BackendMessage::BindComplete(_) => BindComplete::MSGTYPE,
            BackendMessage::CloseComplete(_) => CloseComplete::MSGTYPE,
            BackendMessage::CommandComplete(_) => CommandComplete::MSGTYPE,
            BackendMessage::DataRow(_) => DataRow::MSGTYPE,
            BackendMessage::ErrorResponse(_) => ErrorResponse::MSGTYPE,
            BackendMessage::EmptyQueryResponse(_) => EmptyQueryResponse::MSGTYPE,
            BackendMessage::NegotiateProtocolVersion(_) => NegotiateProtocolVersion::MSGTYPE,
            BackendMessage::NoData(_) => NoData::MSGTYPE,
            BackendMessage::NoticeResponse(_) => NoticeResponse::MSGTYPE,
            BackendMessage::ParameterDescription(_) => ParameterDescription::MSGTYPE,
            BackendMessage::ParameterStatus(_) => ParameterStatus::MSGTYPE,
            BackendMessage::ParseComplete(_) => ParseComplete::MSGTYPE,
            BackendMessage::PortalSuspended(_) => PortalSuspended::MSGTYPE,
            BackendMessage::ReadyForQuery(_) => ReadyForQuery::MSGTYPE,
            BackendMessage::RowDescription(_) => RowDescription::MSGTYPE,
        }
    }

    /// Get message name from message type.
    ///
    /// Returns `"Unknown"` for unknown message type.
    pub fn message_name(msgtype: u8) -> (r: &'static str)
        ensures
            r@ == spec_message_name(msgtype),
    {
        match msgtype {
            82 => "Authentication",
            75 => "BackendKeyData",
            50 => "BindComplete",
            51 => "CloseComplete",
            67 => "CommandComplete",
            68 => "DataRow",
            69 => "ErrorResponse",
            73 => "EmptyQueryResponse",
            118 => "NegotiateProtocolVersion",
            110 => "NoData",
            78 => "NoticeResponse",
            116 => "ParameterDescription",
            83 => "ParameterStatus",
            49 => "ParseComplete",
            115 => "PortalSuspended",
            90 => "ReadyForQuery",
            84 => "RowDescription",
            _ => "Unknown",
        }
    }
}

impl BackendProtocol for BackendMessage {
    open spec fn can_decode(msgtype: u8, body: Seq<u8>) -> bool {
        match msgtype {
            82 => Authentication::can_decode(msgtype, body),
            75 => BackendKeyData::can_decode(msgtype, body),
            50 => BindComplete::can_decode(msgtype, body),
            51 => CloseComplete::can_decode(msgtype, body),
            67 => CommandComplete::can_decode(msgtype, body),
            68 => DataRow::can_decode(msgtype, body),
            69 => ErrorResponse::can_decode(msgtype, body),
            73 => EmptyQueryResponse::can_decode(msgtype, body),
            118 => NegotiateProtocolVersion::can_decode(msgtype, body),
            110 => NoData::can_decode(msgtype, body),
            78 => NoticeResponse::can_decode(msgtype, body),
            116 => ParameterDescription::can_decode(msgtype, body),
            83 => ParameterStatus::can_decode(msgtype, body),
            49 => ParseComplete::can_decode(msgtype, body),
            115 => PortalSuspended::can_decode(msgtype, body),
            90 => ReadyForQuery::can_decode(msgtype, body),
            84 => RowDescription::can_decode(msgtype, body),
            _ => true,
        }
    }

    open spec fn decodes(msgtype: u8, body: Seq<u8>, r: Result<Self, ProtocolError>) -> bool {
        match msgtype {
            82 => match r {
                Ok(BackendMessage::Authentication(m)) => Authentication::decodes(msgtype, body, Ok(m)),
                Ok(_) => false,
                Err(e) => Authentication::decodes(msgtype, body, Err(e)),
            },
            75 => match r {
                Ok(BackendMessage::BackendKeyData(m)) => BackendKeyData::decodes(msgtype, body, Ok(m)),
                Ok(_) => false,
                Err(e) => BackendKeyData::decodes(msgtype, body, Err(e)),
            },
            50 => match r {
                Ok(BackendMessage::BindComplete(m)) => BindComplete::decodes(msgtype, body, Ok(m)),
                Ok(_) => false,
                Err(e) => BindComplete::decodes(msgtype, body, Err(e)),
            },
            51 => match r {
                Ok(BackendMessage::CloseComplete(m)) => CloseComplete::decodes(msgtype, body, Ok(m)),
                Ok(_) => false,
                Err(e) => CloseComplete::decodes(msgtype, body, Err(e)),
            },
            67 => match r {
                Ok(BackendMessage::CommandComplete(m)) => CommandComplete::decodes(msgtype, body, Ok(m)),
                Ok(_) => false,
                Err(e) => CommandComplete::decodes(msgtype, body, Err(e)),
            },
            68 => match r {
                Ok(BackendMessage::DataRow(m)) => DataRow::decodes(msgtype, body, Ok(m)),
                Ok(_) => false,
                Err(e) => DataRow::decodes(msgtype, body, Err(e)),
            },
            69 => match r {
                Ok(BackendMessage::ErrorResponse(m)) => ErrorResponse::decodes(msgtype, body, Ok(m)),
                Ok(_) => false,
                Err(e) => ErrorResponse::decodes(msgtype, body, Err(e)),
            },
            73 => match r {
                Ok(BackendMessage::EmptyQueryResponse(m)) => EmptyQueryResponse::decodes(msgtype, body, Ok(m)),
                Ok(_) => false,
                Err(e) => EmptyQueryResponse::decodes(msgtype, body, Err(e)),
            },
            118 => match r {
                Ok(BackendMessage::NegotiateProtocolVersion(m)) => NegotiateProtocolVersion::decodes(msgtype, body, Ok(m)),
                Ok(_) => false,
                Err(e) => NegotiateProtocolVersion::decodes(msgtype, body, Err(e)),
            },
            110 => match r {
                Ok(BackendMessage::NoData(m)) => NoData::decodes(msgtype, body, Ok(m)),
                Ok(_) => false,
                Err(e) => NoData::decodes(msgtype, body, Err(e)),
            },
            78 => match r {
                Ok(BackendMessage::NoticeResponse(m)) => NoticeResponse::decodes(msgtype, body, Ok(m)),
                Ok(_) => false,
                Err(e) => NoticeResponse::decodes(msgtype, body, Err(e)),
            },
            116 => match r {
                Ok(BackendMessage::ParameterDescription(m)) => ParameterDescription::decodes(msgtype, body, Ok(m)),
                Ok(_) => false,
                Err(e) => ParameterDescription::decodes(msgtype, body, Err(e)),
            },
            83 => match r {
                Ok(BackendMessage::ParameterStatus(m)) => ParameterStatus::decodes(msgtype, body, Ok(m)),
                Ok(_) => false,
                Err(e) => ParameterStatus::decodes(msgtype, body, Err(e)),
            },
            49 => match r {
                Ok(BackendMessage::ParseComplete(m)) => ParseComplete::decodes(msgtype, body, Ok(m)),
                Ok(_) => false,
                Err(e) => ParseComplete::decodes(msgtype, body, Err(e)),
            },
            115 => match r {
                Ok(BackendMessage::PortalSuspended(m)) => PortalSuspended::decodes(msgtype, body, Ok(m)),
                Ok(_) => false,
                Err(e) => PortalSuspended::decodes(msgtype, body, Err(e)),
            },
            90 => match r {
                Ok(BackendMessage::ReadyForQuery(m)) => ReadyForQuery::decodes(msgtype, body, Ok(m)),
                Ok(_) => false,
                Err(e) => ReadyForQuery::decodes(msgtype, body, Err(e)),
            },
            84 => match r {
                Ok(BackendMessage::RowDescription(m)) => RowDescription::decodes(msgtype, body, Ok(m)),
                Ok(_) => false,
                Err(e) => RowDescription::decodes(msgtype, body, Err(e)),
            },
            _ => r == Err::<Self, ProtocolError>(
                ProtocolError::Unexpected { expect: None, found: msgtype, phase: None },
            ),
        }
    }

    fn decode(msgtype: u8, body: Bytes) -> (r: Result<Self, ProtocolError>) {
        let message = match msgtype {
            82 => match Authentication::decode(msgtype, body) {
                Ok(m) => Self::Authentication(m),
                Err(e) => return Err(e),
            },
            75 => match BackendKeyData::decode(msgtype, body) {
                Ok(m) => Self::BackendKeyData(m),
                Err(e) => return Err(e),
            },
            50 => match BindComplete::decode(msgtype, body) {
                Ok(m) => Self::BindComplete(m),
                Err(e) => return Err(e),
            },
            51 => match CloseComplete::decode(msgtype, body) {
                Ok(m) => Self::CloseComplete(m),
                Err(e) => return Err(e),
            },
            67 => match CommandComplete::decode(msgtype, body) {
                Ok(m) => Self::CommandComplete(m),
                Err(e) => return Err(e),
            },
            68 => match DataRow::decode(msgtype, body) {
                Ok(m) => Self::DataRow(m),
                Err(e) => return Err(e),
            },
            69 => match ErrorResponse::decode(msgtype, body) {
                Ok(m) => Self::ErrorResponse(m),
                Err(e) => return Err(e),
            },
            73 => match EmptyQueryResponse::decode(msgtype, body) {
                Ok(m) => Self::EmptyQueryResponse(m),
                Err(e) => return Err(e),
            },
            118 => match NegotiateProtocolVersion::decode(msgtype, body) {
                Ok(m) => Self::NegotiateProtocolVersion(m),
                Err(e) => return Err(e),
            },
            110 => match NoData::decode(msgtype, body) {
                Ok(m) => Self::NoData(m),
                Err(e) => return Err(e),
            },
            78 => match NoticeResponse::decode(msgtype, body) {
                Ok(m) => Self::NoticeResponse(m),
                Err(e) => return Err(e),
            },
            116 => match ParameterDescription::decode(msgtype, body) {
                Ok(m) => Self::ParameterDescription(m),
                Err(e) => return Err(e),
            },
            83 => match ParameterStatus::decode(msgtype, body) {
                Ok(m) => Self::ParameterStatus(m),
                Err(e) => return Err(e),
            },
            49 => match ParseComplete::decode(msgtype, body) {
                Ok(m) => Self::ParseComplete(m),
                Err(e) => return Err(e),
            },
            115 => match PortalSuspended::decode(msgtype, body) {
                Ok(m) => Self::PortalSuspended(m),
                Err(e) => return Err(e),
            },
            90 => match ReadyForQuery::decode(msgtype, body) {
                Ok(m) => Self::ReadyForQuery(m),
                Err(e) => return Err(e),
            },
            84 => match RowDescription::decode(msgtype, body) {
                Ok(m) => Self::RowDescription(m),
                Err(e) => return Err(e),
            },
            _ => return Err(ProtocolError::unknown(msgtype)),
        };
        Ok(message)
    }

    fn decodable(msgtype: u8, body: &[u8]) -> (r: bool) {
        match msgtype {
            82 => Authentication::decodable(msgtype, body),
            75 => BackendKeyData::decodable(msgtype, body),
            67 => CommandComplete::decodable(msgtype, body),
            118 => NegotiateProtocolVersion::decodable(msgtype, body),
            116 => ParameterDescription::decodable(msgtype, body),
            83 => ParameterStatus::decodable(msgtype, body),
            90 => ReadyForQuery::decodable(msgtype, body),
            _ => true,
        }
    }
}

} // verus!

verus! {

/// A decoded message is of the type its type byte names, and a type byte
/// that names no message is answered with an unexpected-message error.
pub proof fn law_decoded_type(msgtype: u8, body: Seq<u8>, r: Result<BackendMessage, ProtocolError>)
    requires
        BackendMessage::decodes(msgtype, body, r),
    ensures
        r matches Ok(m) ==> m.spec_msgtype() == msgtype,
        !known_msgtype(msgtype) ==> r == Err::<BackendMessage, ProtocolError>(
            ProtocolError::Unexpected { expect: None, found: msgtype, phase: None },
        ),
{
}

} // verus!
