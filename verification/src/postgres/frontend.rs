//! Postgres Frontend Messages
//!
//! All struct fields here mirror the actual message sent to postgres.
use bytes::BytesMut;
use vstd::prelude::*;
use vstd::string::StringSliceAdditionalSpecFns;

use crate::buf::{
    bytes_mut_len, bytes_mut_overwrite_i32, bytes_mut_put_i16, bytes_mut_put_i32,
    bytes_mut_put_slice, bytes_mut_put_u16, bytes_mut_put_u8, bytes_mut_reserve, bytes_mut_seq,
    i16_be, i32_be, u16_be,
};
use crate::encode::Encoded;
use crate::ext::{nul_string, BufMutExt, StrExt, UsizeExt};
use crate::postgres::PgFormat;

verus! {

/// A postgres string field: the string's bytes and a zero terminator.
pub open spec fn str_field(s: &str) -> Seq<u8> {
    nul_string(s.spec_bytes())
}

/// A whole frontend message: type byte, length (counting itself but not
/// the type byte), body.
pub open spec fn frame(msgtype: u8, body: Seq<u8>) -> Seq<u8> {
    seq![msgtype] + i32_be((4 + body.len()) as i32) + body
}

/// Format codes on the wire, in order.
pub open spec fn formats_bytes(f: Seq<PgFormat>) -> Seq<u8>
    decreases f.len(),
{
    if f.len() == 0 {
        Seq::empty()
    } else {
        formats_bytes(f.drop_last()) + u16_be(f.last().spec_format_code())
    }
}

/// Object IDs on the wire, in order.
pub open spec fn oids_bytes(s: Seq<i32>) -> Seq<u8>
    decreases s.len(),
{
    if s.len() == 0 {
        Seq::empty()
    } else {
        oids_bytes(s.drop_last()) + i32_be(s.last())
    }
}

/// One parameter value in a `Bind` message: its length, then its bytes;
/// `NULL` is the length `-1` and no bytes.
pub open spec fn param_bytes(p: Encoded) -> Seq<u8> {
    if p.spec_is_null() {
        i32_be(-1i32)
    } else {
        i32_be(p.bytes().len() as i32) + p.bytes()
    }
}

/// All parameter values of a `Bind` message, in order.
pub open spec fn params_bytes(s: Seq<Encoded>) -> Seq<u8>
    decreases s.len(),
{
    if s.len() == 0 {
        Seq::empty()
    } else {
        params_bytes(s.drop_last()) + param_bytes(s.last())
    }
}

pub proof fn lemma_formats_len(f: Seq<PgFormat>)
    ensures
        formats_bytes(f).len() == 2 * f.len(),
    decreases f.len(),
{
    if f.len() > 0 {
        lemma_formats_len(f.drop_last());
    }
}

pub proof fn lemma_oids_len(s: Seq<i32>)
    ensures
        oids_bytes(s).len() == 4 * s.len(),
    decreases s.len(),
{
    if s.len() > 0 {
        lemma_oids_len(s.drop_last());
    }
}

pub proof fn lemma_param_len(p: Encoded)
    requires
        p.wf(),
    ensures
        param_bytes(p).len() == 4 + p.bytes().len(),
{
    p.lemma_null_empty();
}

pub proof fn lemma_params_len_monotone(s: Seq<Encoded>, i: int)
    requires
        0 <= i <= s.len(),
    ensures
        params_bytes(s.take(i)).len() <= params_bytes(s).len(),
    decreases s.len(),
{
    if i < s.len() {
        assert(s.drop_last().take(i) =~= s.take(i));
        lemma_params_len_monotone(s.drop_last(), i);
    } else {
        assert(s.take(i) =~= s);
    }
}

/// Writes a frontend message to `buf`: type byte, length, then the body.
///
/// The body written is exactly as long as its size hint: the contracts
/// of [`FrontendProtocol`] prove it, so the length field is right.
pub fn write<F: FrontendProtocol>(msg: F, buf: &mut BytesMut)
    requires
        msg.wf(),
        msg.body().len() + 4 <= i32::MAX,
        bytes_mut_seq(*old(buf)).len() + 5 + msg.body().len() <= isize::MAX,
    ensures
        bytes_mut_seq(*final(buf)) == bytes_mut_seq(*old(buf)) + frame(
            F::spec_msgtype(),
            msg.body(),
        ),
{
    let ghost old_buf = bytes_mut_seq(*buf);
    let size = msg.size_hint();
    bytes_mut_reserve(buf, 5 + size as usize);
    let offset = bytes_mut_len(buf);
    bytes_mut_put_u8(buf, F::msgtype());
    bytes_mut_put_i32(buf, 4 + size);
    msg.encode(buf);
    assert(bytes_mut_seq(*buf).len() - offset == 5 + size);
    assert(bytes_mut_seq(*buf) =~= old_buf + frame(F::spec_msgtype(), msg.body()));
}

/// A type which can be encoded into postgres frontend message.
///
/// For historical reasons, the very first message sent by the client (the startup message)
/// has no initial message-type byte. Thus, [`Startup`] does not implement [`FrontendProtocol`].
pub trait FrontendProtocol {
    /// The message type byte.
    spec fn spec_msgtype() -> u8;

    /// The bytes of the main body, without type byte and length.
    spec fn body(&self) -> Seq<u8>;

    /// The message is internally consistent (count fields match their lists).
    spec fn wf(&self) -> bool;

    /// The message type byte.
    fn msgtype() -> (r: u8)
        ensures
            r == Self::spec_msgtype(),
    ;

    /// Size of the main body.
    ///
    /// Note that this is *only* the size of main body as oppose of actual postgres message.
    fn size_hint(&self) -> (r: i32)
        requires
            self.wf(),
            self.body().len() + 4 <= i32::MAX,
        ensures
            r as int == self.body().len(),
    ;

    /// Write the main body of the message.
    fn encode(self, buf: &mut BytesMut)
        requires
            self.wf(),
            bytes_mut_seq(*old(buf)).len() + self.body().len() <= isize::MAX,
        ensures
            bytes_mut_seq(*final(buf)) == bytes_mut_seq(*old(buf)) + self.body(),
    ;
}

/// Postgres Startup frontend message.
///
/// For historical reasons, the very first message sent by the client (the startup message)
/// has no initial message-type byte. Thus, [`Startup`] does not implement [`FrontendProtocol`].
#[derive(Debug)]
pub struct Startup<'a> {
    /// The database user name to connect as. Required; there is no default.
    pub user: &'a str,
    /// The database to connect to. Defaults to the user name.
    pub database: Option<&'a str>,
    /// Used to connect in streaming replication mode.
    ///
    /// Value can be true, false, or database, and the default is false.
    pub replication: Option<&'a str>,
}

/// Writes a parameter name and its value, each as a postgres string.
fn put_pair(buf: &mut BytesMut, name: &str, value: &str)
    requires
        bytes_mut_seq(*old(buf)).len() + name.spec_bytes().len() + value.spec_bytes().len() + 2
            <= isize::MAX,
    ensures
        bytes_mut_seq(*final(buf)) == bytes_mut_seq(*old(buf)) + str_field(name) + str_field(
            value,
        ),
{
    buf.put_nul_string(name);
    buf.put_nul_string(value);
}

/// The protocol version 3.0: major version in the high 16 bits.
pub const PROTOCOL_VERSION: i32 = 196608;

impl<'a> Startup<'a> {
    /// Everything after the length field: protocol version, the
    /// name/value pairs, and the final zero byte.
    pub open spec fn body(&self) -> Seq<u8> {
        i32_be(PROTOCOL_VERSION) + str_field("user") + str_field(self.user) + match self.database {
            Some(db) => str_field("database") + str_field(db),
            None => Seq::empty(),
        } + match self.replication {
            Some(repl) => str_field("replication") + str_field(repl),
            None => Seq::empty(),
        } + seq![0u8]
    }

    /// The whole startup message: its length (counting itself), then the body.
    pub open spec fn message(&self) -> Seq<u8> {
        i32_be((4 + self.body().len()) as i32) + self.body()
    }

    /// Writes the startup message to `buf`.
    #[verifier::rlimit(40)]
    pub fn write(self, buf: &mut BytesMut)
        requires
            self.body().len() + 4 <= i32::MAX,
            bytes_mut_seq(*old(buf)).len() + 4 + self.body().len() <= isize::MAX,
        ensures
            bytes_mut_seq(*final(buf)) == bytes_mut_seq(*old(buf)) + self.message(),
    {
        let ghost old_buf = bytes_mut_seq(*buf);
        let ghost db_part = match self.database {
            Some(db) => str_field("database") + str_field(db),
            None => Seq::<u8>::empty(),
        };
        let ghost repl_part = match self.replication {
            Some(repl) => str_field("replication") + str_field(repl),
            None => Seq::<u8>::empty(),
        };
        let ghost head = i32_be(PROTOCOL_VERSION) + str_field("user") + str_field(self.user);
        assert(self.body() == head + db_part + repl_part + seq![0u8]);
        let offset = bytes_mut_len(buf);

        // Length of message contents in bytes, including self.
        // reserve 4 bytes for length
        bytes_mut_put_i32(buf, 0);

        // The protocol version number.
        bytes_mut_put_i32(buf, PROTOCOL_VERSION);

        put_pair(buf, "user", self.user);
        assert(bytes_mut_seq(*buf) =~= old_buf + i32_be(0) + head);

        if let Some(db) = self.database {
            put_pair(buf, "database", db);
        }
        assert(bytes_mut_seq(*buf) =~= old_buf + i32_be(0) + head + db_part);

        if let Some(repl) = self.replication {
            put_pair(buf, "replication", repl);
        }
        assert(bytes_mut_seq(*buf) =~= old_buf + i32_be(0) + head + db_part + repl_part);

        // A zero byte is required as a terminator after the last name/value pair.
        bytes_mut_put_u8(buf, 0u8);

        assert(bytes_mut_seq(*buf) =~= old_buf + i32_be(0) + self.body());
        let written = bytes_mut_len(buf) - offset;
        bytes_mut_overwrite_i32(buf, offset, written.to_i32());
        assert(bytes_mut_seq(*buf) =~= old_buf + self.message());
    }
}

/// Identifies the message as a password response.
#[derive(Debug)]
pub struct PasswordMessage<'a> {
    /// The password (encrypted, if requested)
    pub password: &'a str,
}

impl<'a> FrontendProtocol for PasswordMessage<'a> {
    open spec fn spec_msgtype() -> u8 {
        112 /* 'p' */
    }

    open spec fn body(&self) -> Seq<u8> {
        str_field(self.password)
    }

    open spec fn wf(&self) -> bool {
        true
    }

    fn msgtype() -> (r: u8) {
        112 /* 'p' */
    }

    fn size_hint(&self) -> (r: i32) {
        self.password.nul_string_len()
    }

    fn encode(self, buf: &mut BytesMut) {
        buf.put_nul_string(self.password);
    }
}

/// Identifies the message as a simple query
#[derive(Debug)]
pub struct Query<'a> {
    /// the query string itself
    pub sql: &'a str,
}

impl<'a> FrontendProtocol for Query<'a> {
    open spec fn spec_msgtype() -> u8 {
        81 /* 'Q' */
    }

    open spec fn body(&self) -> Seq<u8> {
        str_field(self.sql)
    }

    open spec fn wf(&self) -> bool {
        true
    }

    fn msgtype() -> (r: u8) {
        81 /* 'Q' */
    }

    fn size_hint(&self) -> (r: i32) {
        self.sql.nul_string_len()
    }

    fn encode(self, buf: &mut BytesMut) {
        buf.put_nul_string(self.sql);
    }
}

/// Identifies the message as a Parse command
#[derive(Debug)]
pub struct Parse<'a> {
    /// prepared statement name (an empty string selects the unnamed prepared statement).
    pub prepare_name: &'a str,
    /// The query string to be parsed.
    pub sql: &'a str,
    /// The number of parameter data types specified (can be zero).
    pub data_types_len: i16,
    /// Specifies the object ID of each parameter data type.
    ///
    /// Placing a zero here is equivalent to leaving the type unspecified.
    pub data_types: &'a [i32],
}

impl<'a> FrontendProtocol for Parse<'a> {
    open spec fn spec_msgtype() -> u8 {
        80 /* 'P' */
    }

    open spec fn body(&self) -> Seq<u8> {
        str_field(self.prepare_name) + str_field(self.sql) + i16_be(self.data_types_len)
            + oids_bytes(self.data_types@)
    }

    /// The count field matches the list; otherwise the size hint and the
    /// body differ and `write` panics.
    open spec fn wf(&self) -> bool {
        self.data_types_len as int == self.data_types@.len()
    }

    fn msgtype() -> (r: u8) {
        80 /* 'P' */
    }

    fn size_hint(&self) -> (r: i32) {
        proof {
            lemma_oids_len(self.data_types@);
        }
        self.prepare_name.nul_string_len() + self.sql.nul_string_len() + 2 + (
        self.data_types_len as i32 * 4)
    }

    fn encode(self, buf: &mut BytesMut) {
        let ghost old_buf = bytes_mut_seq(*buf);
        proof {
            lemma_oids_len(self.data_types@);
        }
        buf.put_nul_string(self.prepare_name);
        buf.put_nul_string(self.sql);
        bytes_mut_put_i16(buf, self.data_types_len);
        let ghost head = bytes_mut_seq(*buf);
        let mut i: usize = 0;
        while i < self.data_types.len()
            invariant
                i <= self.data_types@.len(),
                bytes_mut_seq(*buf) == head + oids_bytes(self.data_types@.take(i as int)),
                head.len() + 4 * self.data_types@.len() <= isize::MAX,
            decreases self.data_types@.len() - i,
        {
            proof {
                lemma_oids_len(self.data_types@.take(i as int));
                assert(self.data_types@.take(i + 1).drop_last() =~= self.data_types@.take(
                    i as int,
                ));
            }
            bytes_mut_put_i32(buf, self.data_types[i]);
            i = i + 1;
        }
        assert(self.data_types@.take(i as int) =~= self.data_types@);
    }
}

/// Identifies the message as a Sync command
#[derive(Debug)]
pub struct Sync;

impl FrontendProtocol for Sync {
    open spec fn spec_msgtype() -> u8 {
        83 /* 'S' */
    }

    open spec fn body(&self) -> Seq<u8> {
        Seq::empty()
    }

    open spec fn wf(&self) -> bool {
        true
    }

    fn msgtype() -> (r: u8) {
        83 /* 'S' */
    }

    fn size_hint(&self) -> (r: i32) {
        0
    }

    fn encode(self, buf: &mut BytesMut) {
        assert(bytes_mut_seq(*buf) =~= bytes_mut_seq(*buf) + Seq::<u8>::empty());
    }
}

/// Identifies the message as a Flush command
#[derive(Debug)]
pub struct Flush;

impl FrontendProtocol for Flush {
    open spec fn spec_msgtype() -> u8 {
        72 /* 'H' */
    }

    open spec fn body(&self) -> Seq<u8> {
        Seq::empty()
    }

    open spec fn wf(&self) -> bool {
        true
    }

    fn msgtype() -> (r: u8) {
        72 /* 'H' */
    }

    fn size_hint(&self) -> (r: i32) {
        0
    }

    fn encode(self, buf: &mut BytesMut) {
        assert(bytes_mut_seq(*buf) =~= bytes_mut_seq(*buf) + Seq::<u8>::empty());
    }
}

/// Writes each format's code, in order.
fn put_formats(buf: &mut BytesMut, formats: &[PgFormat])
    requires
        bytes_mut_seq(*old(buf)).len() + 2 * formats@.len() <= isize::MAX,
    ensures
        bytes_mut_seq(*final(buf)) == bytes_mut_seq(*old(buf)) + formats_bytes(formats@),
{
    let ghost head = bytes_mut_seq(*buf);
    let mut i: usize = 0;
    while i < formats.len()
        invariant
            i <= formats@.len(),
            bytes_mut_seq(*buf) == head + formats_bytes(formats@.take(i as int)),
            head.len() + 2 * formats@.len() <= isize::MAX,
        decreases formats@.len() - i,
    {
        proof {
            lemma_formats_len(formats@.take(i as int));
            assert(formats@.take(i + 1).drop_last() =~= formats@.take(i as int));
        }
        bytes_mut_put_u16(buf, formats[i].format_code());
        i = i + 1;
    }
    assert(formats@.take(i as int) =~= formats@);
}

/// Identifies the message as a Bind command.
#[derive(Debug)]
pub struct Bind<'a> {
    /// The name of the destination portal (an empty string selects the unnamed portal).
    pub portal_name: &'a str,
    /// The name of the source prepared statement (an empty string selects the unnamed prepared statement).
    pub stmt_name: &'a str,
    /// The number of parameter format codes that follow.
    ///
    /// This can be zero to indicate that there are no parameters or that the parameters
    /// all use the default format (text); or one, in which case the specified format code
    /// is applied to all parameters; or it can equal the actual number of parameters.
    pub param_formats_len: u16,
    /// The parameter [`PgFormat`].
    pub param_formats: &'a [PgFormat],
    /// The number of parameter values that follow (possibly zero).
    ///
    /// This must match the number of parameters needed by the query.
    pub params_len: u16,
    /// The parameter values: each is written as its length in bytes (this
    /// count does not include itself), then its bytes.  As a special case,
    /// -1 indicates a NULL parameter value; no value bytes follow then.
    pub params: &'a [Encoded<'a>],
    /// The number of result-column format codes that follow.
    pub result_formats_len: u16,
    /// The result-columns [`PgFormat`].
    pub result_formats: &'a [PgFormat],
}

impl<'a> FrontendProtocol for Bind<'a> {
    open spec fn spec_msgtype() -> u8 {
        66 /* 'B' */
    }

    open spec fn body(&self) -> Seq<u8> {
        str_field(self.portal_name) + str_field(self.stmt_name) + u16_be(self.param_formats_len)
            + formats_bytes(self.param_formats@) + u16_be(self.params_len) + params_bytes(
            self.params@,
        ) + u16_be(self.result_formats_len) + formats_bytes(self.result_formats@)
    }

    /// The format counts match their lists (otherwise the size hint and
    /// the body differ and `write` panics), and every value is well formed.
    open spec fn wf(&self) -> bool {
        &&& self.param_formats_len as int == self.param_formats@.len()
        &&& self.result_formats_len as int == self.result_formats@.len()
        &&& forall|i: int| 0 <= i < self.params@.len() ==> (#[trigger] self.params@[i]).wf()
        &&& forall|i: int|
            0 <= i < self.params@.len() ==> (#[trigger] self.params@[i]).bytes().len() <= i32::MAX
    }

    fn msgtype() -> (r: u8) {
        66 /* 'B' */
    }

    fn size_hint(&self) -> (r: i32) {
        proof {
            lemma_formats_len(self.param_formats@);
            lemma_formats_len(self.result_formats@);
        }
        let ghost total = self.body().len();
        let mut params_size: i32 = 0;
        let mut i: usize = 0;
        while i < self.params.len()
            invariant
                i <= self.params@.len(),
                params_size as int == params_bytes(self.params@.take(i as int)).len(),
                params_bytes(self.params@).len() + 4 <= i32::MAX,
                forall|k: int| 0 <= k < self.params@.len() ==> (#[trigger] self.params@[k]).wf(),
            decreases self.params@.len() - i,
        {
            proof {
                assert(self.params@.take(i + 1).drop_last() =~= self.params@.take(i as int));
                lemma_params_len_monotone(self.params@, i + 1);
                lemma_param_len(self.params@[i as int]);
            }
            let n = self.params[i].remaining();
            params_size = params_size + 4 + n as i32;
            i = i + 1;
        }
        assert(self.params@.take(i as int) =~= self.params@);
        self.portal_name.nul_string_len() + self.stmt_name.nul_string_len() + 2 + (
        self.param_formats_len as i32 * 2) + 2 + params_size + 2 + (self.result_formats_len as i32
            * 2)
    }

    fn encode(self, buf: &mut BytesMut) {
        let ghost old_buf = bytes_mut_seq(*buf);
        proof {
            lemma_formats_len(self.param_formats@);
            lemma_formats_len(self.result_formats@);
        }
        buf.put_nul_string(self.portal_name);
        buf.put_nul_string(self.stmt_name);
        bytes_mut_put_u16(buf, self.param_formats_len);
        put_formats(buf, self.param_formats);
        bytes_mut_put_u16(buf, self.params_len);

        let ghost head = bytes_mut_seq(*buf);
        let mut i: usize = 0;
        while i < self.params.len()
            invariant
                i <= self.params@.len(),
                bytes_mut_seq(*buf) == head + params_bytes(self.params@.take(i as int)),
                head.len() + params_bytes(self.params@).len() + 2 + 2 * self.result_formats@.len()
                    <= isize::MAX,
                forall|k: int| 0 <= k < self.params@.len() ==> (#[trigger] self.params@[k]).wf(),
                forall|k: int|
                    0 <= k < self.params@.len() ==> (#[trigger] self.params@[k]).bytes().len()
                        <= i32::MAX,
            decreases self.params@.len() - i,
        {
            proof {
                assert(self.params@.take(i + 1).drop_last() =~= self.params@.take(i as int));
                lemma_params_len_monotone(self.params@, i + 1);
                lemma_param_len(self.params@[i as int]);
            }
            let param = &self.params[i];
            if param.is_null() {
                bytes_mut_put_i32(buf, -1);
            } else {
                let bytes = param.chunk();
                bytes_mut_put_i32(buf, bytes.len() as i32);
                bytes_mut_put_slice(buf, bytes);
            }
            i = i + 1;
        }
        assert(self.params@.take(i as int) =~= self.params@);

        bytes_mut_put_u16(buf, self.result_formats_len);
        put_formats(buf, self.result_formats);
        assert(bytes_mut_seq(*buf) =~= old_buf + self.body());
    }
}

/// Identifies the message as a Execute command
#[derive(Debug)]
pub struct Execute<'a> {
    /// The name of the portal to execute (an empty string selects the unnamed portal).
    pub portal_name: &'a str,
    /// Maximum number of rows to return, if portal contains a query that returns rows
    /// (ignored otherwise). Zero denotes "no limit".
    pub max_row: i32,
}

impl<'a> FrontendProtocol for Execute<'a> {
    open spec fn spec_msgtype() -> u8 {
        69 /* 'E' */
    }

    open spec fn body(&self) -> Seq<u8> {
        str_field(self.portal_name) + i32_be(self.max_row)
    }

    open spec fn wf(&self) -> bool {
        true
    }

    fn msgtype() -> (r: u8) {
        69 /* 'E' */
    }

    fn size_hint(&self) -> (r: i32) {
        self.portal_name.nul_string_len() + 4
    }

    fn encode(self, buf: &mut BytesMut) {
        let ghost old_buf = bytes_mut_seq(*buf);
        buf.put_nul_string(self.portal_name);
        bytes_mut_put_i32(buf, self.max_row);
        assert(bytes_mut_seq(*buf) =~= old_buf + self.body());
    }
}

/// Identifies the message as a Close command
#[derive(Debug)]
pub struct Close<'a> {
    /// 'S' to close a prepared statement; or 'P' to close a portal.
    pub variant: u8,
    /// The name of the prepared statement or portal to close
    /// (an empty string selects the unnamed prepared statement or portal).
    pub name: &'a str,
}

impl<'a> FrontendProtocol for Close<'a> {
    open spec fn spec_msgtype() -> u8 {
        67 /* 'C' */
    }

    open spec fn body(&self) -> Seq<u8> {
        seq![self.variant] + str_field(self.name)
    }

    open spec fn wf(&self) -> bool {
        true
    }

    fn msgtype() -> (r: u8) {
        67 /* 'C' */
    }

    fn size_hint(&self) -> (r: i32) {
        1 + self.name.nul_string_len()
    }

    fn encode(self, buf: &mut BytesMut) {
        let ghost old_buf = bytes_mut_seq(*buf);
        bytes_mut_put_u8(buf, self.variant);
        buf.put_nul_string(self.name);
        assert(bytes_mut_seq(*buf) =~= old_buf + self.body());
    }
}

/// Identifies the message as a Describe command.
#[derive(Debug)]
pub struct Describe<'a> {
    /// 'S' to describe a prepared statement; or 'P' to describe a portal.
    pub kind: u8,
    /// The name of the prepared statement or portal to describe
    /// (an empty string selects the unnamed prepared statement or portal).
    pub name: &'a str,
}

impl<'a> FrontendProtocol for Describe<'a> {
    open spec fn spec_msgtype() -> u8 {
        68 /* 'D' */
    }

    open spec fn body(&self) -> Seq<u8> {
        seq![self.kind] + str_field(self.name)
    }

    open spec fn wf(&self) -> bool {
        true
    }

    fn msgtype() -> (r: u8) {
        68 /* 'D' */
    }

    fn size_hint(&self) -> (r: i32) {
        1 + self.name.nul_string_len()
    }

    fn encode(self, buf: &mut BytesMut) {
        let ghost old_buf = bytes_mut_seq(*buf);
        bytes_mut_put_u8(buf, self.kind);
        buf.put_nul_string(self.name);
        assert(bytes_mut_seq(*buf) =~= old_buf + self.body());
    }
}

/// Identifies the message as a termination request.
#[derive(Debug)]
pub struct Terminate;

impl FrontendProtocol for Terminate {
    open spec fn spec_msgtype() -> u8 {
        88 /* 'X' */
    }

    open spec fn body(&self) -> Seq<u8> {
        Seq::empty()
    }

    open spec fn wf(&self) -> bool {
        true
    }

    fn msgtype() -> (r: u8) {
        88 /* 'X' */
    }

    fn size_hint(&self) -> (r: i32) {
        0
    }

    fn encode(self, buf: &mut BytesMut) {
        assert(bytes_mut_seq(*buf) =~= bytes_mut_seq(*buf) + Seq::<u8>::empty());
    }
}

/// The room the parameter values of a `Bind` take: for each, four bytes
/// of length and then its bytes.
pub open spec fn params_size(s: Seq<Encoded>) -> int
    decreases s.len(),
{
    if s.len() == 0 {
        0
    } else {
        params_size(s.drop_last()) + 4 + s.last().bytes().len()
    }
}

proof fn lemma_params_size(s: Seq<Encoded>)
    requires
        forall|i: int| 0 <= i < s.len() ==> (#[trigger] s[i]).wf(),
    ensures
        params_bytes(s).len() == params_size(s),
    decreases s.len(),
{
    if s.len() > 0 {
        lemma_params_size(s.drop_last());
        lemma_param_len(s.last());
    }
}

/// The size of a `Bind` body, which [`FrontendProtocol::size_hint`]
/// returns and [`FrontendProtocol::encode`] writes, is the sum of its
/// parts: the portal and statement names with their terminators, the
/// count and codes of the parameter formats, the count and values of the
/// parameters (each four bytes of length and its bytes), and the count and
/// codes of the result formats.
pub proof fn law_bind_size(m: Bind)
    requires
        m.wf(),
    ensures
        m.body().len() == (m.portal_name.spec_bytes().len() + 1) + (m.stmt_name.spec_bytes().len()
            + 1) + 2 + 2 * m.param_formats_len + 2 + params_size(m.params@) + 2 + 2
            * m.result_formats_len,
{
    lemma_formats_len(m.param_formats@);
    lemma_formats_len(m.result_formats@);
    lemma_params_size(m.params@);
}

} // verus!
