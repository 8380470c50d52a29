//! The buffers and bookkeeping of one postgres connection, and the
//! decisions it takes on each incoming message.  Reading from and writing
//! to the socket is the caller's part: it fills `read_buf` and drains
//! `write_buf`.
use bytes::{Bytes, BytesMut};
use vstd::prelude::*;
use vstd::slice::slice_subrange;

use crate::buf::{
    be_i32, bytes_mut_advance, i32_be, bytes_mut_as_slice, bytes_mut_freeze, bytes_mut_len,
    bytes_mut_reserve, bytes_mut_seq, bytes_mut_split_to, bytes_mut_with_capacity, bytes_seq,
    read_be_i32,
};
use crate::connection::stmt_cache::{key_index, StmtCache};
use crate::error::{Error, ErrorKind};
use crate::ext::nul_string;
use crate::postgres::backend::{BackendProtocol, ErrorResponse, NoticeResponse};
use crate::postgres::frontend::{self, frame, FrontendProtocol};
use crate::postgres::ProtocolError;
use crate::statement::StatementName;

verus! {

/// Initial capacity of the read and write buffers.
pub const DEFAULT_BUF_CAPACITY: usize = 1024;

/// How many prepared statements a connection keeps.
pub const DEFAULT_PREPARED_STMT_CACHE: usize = 24;

/// The length field of the message at the front of `s`: it counts itself
/// and the body, not the type byte.
pub open spec fn msg_len(s: Seq<u8>) -> int {
    be_i32(s.subrange(1, 5)) as int
}

/// The buffer starts with a whole message.
pub open spec fn has_message(s: Seq<u8>) -> bool {
    s.len() >= 5 && s.len() >= 1 + msg_len(s)
}

/// The body of the message at the front of `s`.
pub open spec fn front_body(s: Seq<u8>) -> Seq<u8> {
    s.subrange(5, 1 + msg_len(s))
}

/// What follows the message at the front of `s`.
pub open spec fn after_front(s: Seq<u8>) -> Seq<u8> {
    s.skip(1 + msg_len(s))
}

/// The front of the buffer can be taken apart without panicking: a header
/// that is there gives a length of at least four, and the room to reserve
/// stays within `isize::MAX`.
pub open spec fn frame_ok(s: Seq<u8>) -> bool {
    &&& s.len() + DEFAULT_BUF_CAPACITY <= isize::MAX
    &&& s.len() >= 5 ==> 4 <= msg_len(s) && s.len() + 1 + msg_len(s) <= isize::MAX
}

/// Whether [`split_message`] can be called on `buf`.
pub fn check_frame(buf: &BytesMut) -> (r: bool)
    ensures
        r == frame_ok(bytes_mut_seq(*buf)),
{
    let n = bytes_mut_len(buf);
    if n > (isize::MAX as usize) - DEFAULT_BUF_CAPACITY {
        return false;
    }
    if n < 5 {
        return true;
    }
    let s = bytes_mut_as_slice(buf);
    let len = read_be_i32(slice_subrange(s, 1, 5));
    4 <= len && (len as usize) <= (isize::MAX as usize) - n - 1
}

/// The front of a read buffer.
#[derive(Debug)]
pub enum Frame {
    /// No whole message yet: room for `reserve` more bytes was made, and
    /// the caller reads more.
    NeedMore { reserve: usize },
    /// A whole message, taken out of the buffer.
    Message { msgtype: u8, body: Bytes },
}

/// Takes the message at the front of `buf` out of it, or makes room to
/// read the rest of it.
pub fn split_message(buf: &mut BytesMut) -> (r: Frame)
    requires
        frame_ok(bytes_mut_seq(*old(buf))),
    ensures
        ({
            let s = bytes_mut_seq(*old(buf));
            if s.len() < 5 {
                &&& r matches Frame::NeedMore { reserve } && reserve == DEFAULT_BUF_CAPACITY
                &&& bytes_mut_seq(*final(buf)) == s
            } else if !has_message(s) {
                &&& r matches Frame::NeedMore { reserve } && reserve == 1 + msg_len(s)
                &&& bytes_mut_seq(*final(buf)) == s
            } else {
                &&& r matches Frame::Message { msgtype, body } && msgtype == s[0] && bytes_seq(body)
                    == front_body(s)
                &&& bytes_mut_seq(*final(buf)) == after_front(s)
            }
        }),
{
    let ghost s = bytes_mut_seq(*buf);
    let n = bytes_mut_len(buf);
    if n < 5 {
        bytes_mut_reserve(buf, DEFAULT_BUF_CAPACITY);
        return Frame::NeedMore { reserve: DEFAULT_BUF_CAPACITY };
    }
    let head = bytes_mut_as_slice(buf);
    let msgtype = head[0];
    let len = read_be_i32(slice_subrange(head, 1, 5)) as usize;
    if n - 1 < len {
        bytes_mut_reserve(buf, 1 + len);
        return Frame::NeedMore { reserve: 1 + len };
    }
    bytes_mut_advance(buf, 5);
    let body = bytes_mut_split_to(buf, len - 4);
    assert(bytes_mut_seq(body) =~= front_body(s));
    assert(bytes_mut_seq(*buf) =~= after_front(s));
    Frame::Message { msgtype, body: bytes_mut_freeze(body) }
}

/// A message as [`frontend::write`] puts it on the wire is taken apart by
/// [`split_message`] into the same type and body, and what followed it is
/// left in the buffer.
pub proof fn law_split_after_write(msgtype: u8, body: Seq<u8>, rest: Seq<u8>)
    requires
        body.len() + 4 <= i32::MAX,
    ensures
        ({
            let s = frame(msgtype, body) + rest;
            &&& has_message(s)
            &&& s[0] == msgtype
            &&& front_body(s) == body
            &&& after_front(s) == rest
            &&& s.len() + body.len() + DEFAULT_BUF_CAPACITY <= isize::MAX ==> frame_ok(s)
        }),
{
    let s = frame(msgtype, body) + rest;
    let n = (4 + body.len()) as i32;
    crate::buf::lemma_i32_be_roundtrip(n);
    assert(s.subrange(1, 5) =~= i32_be(n));
    assert(msg_len(s) == 4 + body.len());
    assert(front_body(s) =~= body);
    assert(after_front(s) =~= rest);
}

/// The entry that pushing key `k` takes out of cache entries `e` of
/// capacity `cap`: the old entry for `k`, or the least recently used one
/// when the cache is full.
pub open spec fn evicted(e: Seq<(u64, Seq<u8>)>, cap: nat, k: u64) -> Option<(u64, Seq<u8>)> {
    match key_index(e, k) {
        Some(i) => Some(e[i]),
        None => if e.len() == cap {
            Some(e.last())
        } else {
            None
        },
    }
}

/// The name of a statement as the server sees it, from its six bytes.
pub open spec fn name_str(n: Seq<u8>) -> Seq<u8> {
    if n[0] == 0 {
        Seq::empty()
    } else {
        n
    }
}

/// The `Close` message for a prepared statement, followed by `Sync`.
pub open spec fn close_stmt_bytes(name: Seq<u8>) -> Seq<u8> {
    frame(67u8, seq![83u8] + nul_string(name_str(name))) + frame(83u8, Seq::empty())
}

/// What to do after a message that [`PgConnState::ready_step`] handled.
#[derive(Debug)]
pub enum ReadyStep {
    /// No `ReadyForQuery` is outstanding: the connection is ready.
    Done,
    /// The caller reads more bytes into `read_buf`, then steps again.
    ReadMore,
    /// An error arrived; `Sync` was queued.  The caller may log it.
    Error(ErrorResponse),
    /// A notice arrived.  The caller may log it.
    Notice(NoticeResponse),
    /// Another message was read and left aside.
    Skipped,
}

/// What [`PgConnState::recv_step`] found.
#[derive(Debug)]
pub enum RecvStep {
    /// The caller reads more bytes into `read_buf`, then steps again.
    ReadMore,
    /// The server answered with an error; `Sync` was queued.
    Failed(Error),
    /// A notice arrived; the caller may log it and steps again.
    Notice(NoticeResponse),
    /// A message for the caller to decode.
    Message { msgtype: u8, body: Bytes },
}

/// A connection that keeps a client-side cache of prepared statements.
pub trait HasStatementCache {}

impl HasStatementCache for PgConnState {}

/// The state of a postgres connection apart from its socket.
#[derive(Debug)]
pub struct PgConnState {
    /// Bytes received and not yet taken apart.
    pub read_buf: BytesMut,
    /// Messages queued for the server.
    pub write_buf: BytesMut,
    /// The prepared statements.
    pub stmts: StmtCache,
    /// How many `ReadyForQuery` messages are owed.
    pub sync_pending: usize,
}

impl PgConnState {
    /// The prepared statements, by the hash of their query.
    pub open spec fn stmts(&self) -> Map<u64, Seq<u8>> {
        self.stmts.map()
    }

    /// The cache entries, most recently used first.
    pub open spec fn stmt_entries(&self) -> Seq<(u64, Seq<u8>)> {
        self.stmts.entries()
    }

    /// How many `ReadyForQuery` messages are still owed by the server for
    /// `Sync` messages that the library itself sent.
    pub open spec fn pending(&self) -> nat {
        self.sync_pending as nat
    }

    /// The statement cache holds its invariant with the default capacity.
    pub open spec fn wf(&self) -> bool {
        self.stmts.wf() && self.stmts.cap() == DEFAULT_PREPARED_STMT_CACHE
    }

    /// A fresh connection: empty buffers, no statements, nothing pending.
    pub fn new() -> (r: PgConnState)
        ensures
            r.wf(),
            bytes_mut_seq(r.read_buf) == Seq::<u8>::empty(),
            bytes_mut_seq(r.write_buf) == Seq::<u8>::empty(),
            r.stmt_entries() == Seq::<(u64, Seq<u8>)>::empty(),
            r.stmts() == Map::<u64, Seq<u8>>::empty(),
            r.pending() == 0,
    {
        let r = PgConnState {
            read_buf: bytes_mut_with_capacity(DEFAULT_BUF_CAPACITY),
            write_buf: bytes_mut_with_capacity(DEFAULT_BUF_CAPACITY),
            stmts: StmtCache::new(DEFAULT_PREPARED_STMT_CACHE),
            sync_pending: 0,
        };
        assert(r.stmts() =~= Map::<u64, Seq<u8>>::empty());
        r
    }

    /// The number of outstanding `ReadyForQuery` messages.
    pub fn sync_pending(&self) -> (r: usize)
        ensures
            r == self.pending(),
    {
        self.sync_pending
    }

    /// Queues a frontend message.
    pub fn send<F: FrontendProtocol>(&mut self, message: F)
        requires
            message.wf(),
            message.body().len() + 4 <= i32::MAX,
            bytes_mut_seq(old(self).write_buf).len() + 5 + message.body().len() <= isize::MAX,
        ensures
            bytes_mut_seq(final(self).write_buf) == bytes_mut_seq(old(self).write_buf) + frame(
                F::spec_msgtype(),
                message.body(),
            ),
            final(self).read_buf == old(self).read_buf,
            final(self).stmts == old(self).stmts,
            final(self).sync_pending == old(self).sync_pending,
    {
        frontend::write(message, &mut self.write_buf);
    }

    /// Queues the startup message.
    pub fn send_startup(&mut self, startup: frontend::Startup)
        requires
            startup.body().len() + 4 <= i32::MAX,
            bytes_mut_seq(old(self).write_buf).len() + 4 + startup.body().len() <= isize::MAX,
        ensures
            bytes_mut_seq(final(self).write_buf) == bytes_mut_seq(old(self).write_buf)
                + startup.message(),
            final(self).read_buf == old(self).read_buf,
            final(self).stmts == old(self).stmts,
            final(self).sync_pending == old(self).sync_pending,
    {
        startup.write(&mut self.write_buf);
    }

    /// Notes that one more `ReadyForQuery` is owed.
    pub fn ready_request(&mut self)
        requires
            old(self).pending() < usize::MAX,
        ensures
            final(self).pending() == old(self).pending() + 1,
            final(self).read_buf == old(self).read_buf,
            final(self).write_buf == old(self).write_buf,
            final(self).stmts == old(self).stmts,
    {
        self.sync_pending = self.sync_pending + 1;
    }

    /// The prepared statement cached for query hash `sqlid`.
    pub fn get_stmt(&mut self, sqlid: u64) -> (r: Option<StatementName>)
        requires
            old(self).wf(),
        ensures
            final(self).wf(),
            final(self).stmts() == old(self).stmts(),
            match r {
                Some(n) => old(self).stmts().contains_key(sqlid) && n@ == old(self).stmts()[sqlid]
                    && n.wf(),
                None => !old(self).stmts().contains_key(sqlid),
            },
            final(self).read_buf == old(self).read_buf,
            final(self).write_buf == old(self).write_buf,
            final(self).sync_pending == old(self).sync_pending,
    {
        self.stmts.get(sqlid)
    }

    /// Caches statement `name` for query hash `id`.  The statement that
    /// leaves the cache is closed on the server: `Close` and `Sync` are
    /// queued and one more `ReadyForQuery` is owed.
    pub fn add_stmt(&mut self, id: u64, name: StatementName)
        requires
            old(self).wf(),
            name.wf(),
            old(self).pending() < usize::MAX,
            bytes_mut_seq(old(self).write_buf).len() + 64 <= isize::MAX,
        ensures
            final(self).wf(),
            final(self).stmt_entries()[0] == (id, name@),
            ({
                let ev = evicted(old(self).stmt_entries(), DEFAULT_PREPARED_STMT_CACHE as nat, id);
                &&& final(self).stmts() == (match ev {
                    Some((k, _)) => old(self).stmts().remove(k),
                    None => old(self).stmts(),
                }).insert(id, name@)
                &&& match ev {
                    Some((_, n)) => {
                        &&& bytes_mut_seq(final(self).write_buf) == bytes_mut_seq(
                            old(self).write_buf,
                        ) + close_stmt_bytes(n)
                        &&& final(self).pending() == old(self).pending() + 1
                    },
                    None => {
                        &&& final(self).write_buf == old(self).write_buf
                        &&& final(self).pending() == old(self).pending()
                    },
                }
            }),
            final(self).read_buf == old(self).read_buf,
    {
        proof {
            crate::connection::stmt_cache::lemma_key_index(self.stmts.entries(), id);
        }
        if let Some((_id, old_name)) = self.stmts.push(id, name) {
            let s = old_name.as_str();
            proof {
                old_name.lemma_len();
            }
            self.send(frontend::Close { variant: 83 /* 'S' */, name: s });
            self.send(frontend::Sync);
            self.ready_request();
            assert(bytes_mut_seq(self.write_buf) =~= bytes_mut_seq(old(self).write_buf)
                + close_stmt_bytes(old_name@));
        }
    }

    /// One round of waiting for the outstanding `ReadyForQuery` messages:
    /// takes the next message out of `read_buf` and acts on it.  An error
    /// queues `Sync` and owes one more `ReadyForQuery`; `ReadyForQuery`
    /// settles one; anything else is read past.
    pub fn ready_step(&mut self) -> (r: ReadyStep)
        requires
            frame_ok(bytes_mut_seq(old(self).read_buf)),
            old(self).pending() < usize::MAX,
            bytes_mut_seq(old(self).write_buf).len() + 5 <= isize::MAX,
        ensures
            final(self).stmts == old(self).stmts,
            ({
                let s = bytes_mut_seq(old(self).read_buf);
                if old(self).pending() == 0 {
                    &&& r is Done
                    &&& final(self).read_buf == old(self).read_buf
                    &&& final(self).write_buf == old(self).write_buf
                    &&& final(self).pending() == 0
                } else if !has_message(s) {
                    &&& r is ReadMore
                    &&& bytes_mut_seq(final(self).read_buf) == s
                    &&& final(self).write_buf == old(self).write_buf
                    &&& final(self).pending() == old(self).pending()
                } else {
                    &&& bytes_mut_seq(final(self).read_buf) == after_front(s)
                    &&& if s[0] == ErrorResponse::MSGTYPE {
                        &&& r matches ReadyStep::Error(e) && bytes_seq(e.body) == front_body(s)
                        &&& bytes_mut_seq(final(self).write_buf) == bytes_mut_seq(
                            old(self).write_buf,
                        ) + frame(83u8, Seq::empty())
                        &&& final(self).pending() == old(self).pending() + 1
                    } else {
                        &&& final(self).write_buf == old(self).write_buf
                        &&& if s[0] == NoticeResponse::MSGTYPE {
                            &&& r matches ReadyStep::Notice(n) && bytes_seq(n.body) == front_body(
                                s,
                            )
                            &&& final(self).pending() == old(self).pending()
                        } else if s[0] == 90u8 {
                            &&& r is Skipped
                            &&& final(self).pending() == old(self).pending() - 1
                        } else {
                            &&& r is Skipped
                            &&& final(self).pending() == old(self).pending()
                        }
                    }
                }
            }),
    {
        if self.sync_pending == 0 {
            return ReadyStep::Done;
        }
        match split_message(&mut self.read_buf) {
            Frame::NeedMore { .. } => ReadyStep::ReadMore,
            Frame::Message { msgtype, body } => {
                if msgtype == ErrorResponse::MSGTYPE {
                    self.send(frontend::Sync);
                    // the `Sync` is answered by its own `ReadyForQuery`
                    self.ready_request();
                    ReadyStep::Error(ErrorResponse::new(body))
                } else if msgtype == NoticeResponse::MSGTYPE {
                    ReadyStep::Notice(NoticeResponse::new(body))
                } else {
                    if msgtype == 90 /* 'Z' */ {
                        self.sync_pending = self.sync_pending - 1;
                    }
                    ReadyStep::Skipped
                }
            },
        }
    }

    /// One round of receiving a message once the connection is ready:
    /// takes the next message out of `read_buf`.  An error response
    /// becomes a database error and queues `Sync`; a notice is handed
    /// back to be logged; anything else is for the caller to decode.
    pub fn recv_step(&mut self) -> (r: RecvStep)
        requires
            frame_ok(bytes_mut_seq(old(self).read_buf)),
            old(self).pending() < usize::MAX,
            bytes_mut_seq(old(self).write_buf).len() + 5 <= isize::MAX,
        ensures
            final(self).stmts == old(self).stmts,
            ({
                let s = bytes_mut_seq(old(self).read_buf);
                if !has_message(s) {
                    &&& r is ReadMore
                    &&& bytes_mut_seq(final(self).read_buf) == s
                    &&& final(self).write_buf == old(self).write_buf
                    &&& final(self).pending() == old(self).pending()
                } else {
                    &&& bytes_mut_seq(final(self).read_buf) == after_front(s)
                    &&& if s[0] == ErrorResponse::MSGTYPE {
                        &&& r matches RecvStep::Failed(e) && e.spec_kind() matches ErrorKind::Database(
                            d,
                        ) && bytes_seq(d.body) == front_body(s)
                        &&& bytes_mut_seq(final(self).write_buf) == bytes_mut_seq(
                            old(self).write_buf,
                        ) + frame(83u8, Seq::empty())
                        &&& final(self).pending() == old(self).pending() + 1
                    } else {
                        &&& final(self).write_buf == old(self).write_buf
                        &&& final(self).pending() == old(self).pending()
                        &&& if s[0] == NoticeResponse::MSGTYPE {
                            r matches RecvStep::Notice(n) && bytes_seq(n.body) == front_body(s)
                        } else {
                            r matches RecvStep::Message { msgtype, body } && msgtype == s[0]
                                && bytes_seq(body) == front_body(s)
                        }
                    }
                }
            }),
    {
        match split_message(&mut self.read_buf) {
            Frame::NeedMore { .. } => RecvStep::ReadMore,
            Frame::Message { msgtype, body } => {
                if msgtype == ErrorResponse::MSGTYPE {
                    self.send(frontend::Sync);
                    self.ready_request();
                    RecvStep::Failed(Error::new(ErrorKind::Database(ErrorResponse::new(body))))
                } else if msgtype == NoticeResponse::MSGTYPE {
                    RecvStep::Notice(NoticeResponse::new(body))
                } else {
                    RecvStep::Message { msgtype, body }
                }
            },
        }
    }
}

/// The front of a read buffer can be taken by [`stream_recv_step`]: it
/// can be split, and it is no notice (which a bare stream does not
/// handle and stops on).
pub open spec fn stream_front_ok(s: Seq<u8>) -> bool {
    frame_ok(s) && !(has_message(s) && s[0] == NoticeResponse::MSGTYPE)
}

/// Whether [`stream_recv_step`] can be called on `buf`.
pub fn check_stream_front(buf: &BytesMut) -> (r: bool)
    ensures
        r == stream_front_ok(bytes_mut_seq(*buf)),
{
    if !check_frame(buf) {
        return false;
    }
    let n = bytes_mut_len(buf);
    if n < 5 {
        return true;
    }
    let s = bytes_mut_as_slice(buf);
    let len = read_be_i32(slice_subrange(s, 1, 5)) as usize;
    n - 1 < len || s[0] != NoticeResponse::MSGTYPE
}

/// One round of receiving on a bare stream, which keeps no statements
/// and owes no `ReadyForQuery`: takes the next message out of `buf`.  An
/// error response becomes a database error (no `Sync` is sent); anything
/// else is for the caller to decode.
pub fn stream_recv_step(buf: &mut BytesMut) -> (r: RecvStep)
    requires
        stream_front_ok(bytes_mut_seq(*old(buf))),
    ensures
        ({
            let s = bytes_mut_seq(*old(buf));
            if !has_message(s) {
                &&& r is ReadMore
                &&& bytes_mut_seq(*final(buf)) == s
            } else {
                &&& bytes_mut_seq(*final(buf)) == after_front(s)
                &&& if s[0] == ErrorResponse::MSGTYPE {
                    r matches RecvStep::Failed(e) && e.spec_kind() matches ErrorKind::Database(d)
                        && bytes_seq(d.body) == front_body(s)
                } else {
                    r matches RecvStep::Message { msgtype, body } && msgtype == s[0] && bytes_seq(
                        body,
                    ) == front_body(s)
                }
            }
        }),
{
    match split_message(buf) {
        Frame::NeedMore { .. } => RecvStep::ReadMore,
        Frame::Message { msgtype, body } => {
            if msgtype == ErrorResponse::MSGTYPE {
                RecvStep::Failed(Error::new(ErrorKind::Database(ErrorResponse::new(body))))
            } else {
                RecvStep::Message { msgtype, body }
            }
        },
    }
}

/// Decodes a received message as `B`; a protocol error becomes the
/// library's error.
pub fn decode_message<B: BackendProtocol>(msgtype: u8, body: Bytes) -> (r: Result<B, Error>)
    requires
        B::can_decode(msgtype, bytes_seq(body)),
    ensures
        match r {
            Ok(m) => B::decodes(msgtype, bytes_seq(body), Ok(m)),
            Err(e) => e.spec_kind() matches ErrorKind::Protocol(p) && B::decodes(
                msgtype,
                bytes_seq(body),
                Err(p),
            ),
        },
{
    match B::decode(msgtype, body) {
        Ok(m) => Ok(m),
        Err(p) => Err(Error::new(ErrorKind::Protocol(p))),
    }
}

} // verus!
