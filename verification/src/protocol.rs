//! Postgres protocol flows: the startup phase and the simple query, as
//! machines that take one backend message at a time.
//!
//! <https://www.postgresql.org/docs/17/protocol-flow.html>
use vstd::prelude::*;
use vstd::string::StringSliceAdditionalSpecFns;

use crate::buf::{bytes_mut_seq, i32_be};
use crate::connection::startup::StartupConfig;
use crate::connection::state::PgConnState;
use crate::error::{Error, ErrorKind};
use crate::ext::nul_string;
use crate::postgres::backend::{
    Authentication, BackendKeyData, BackendMessage, NoticeResponse, ParameterStatus,
};
use crate::postgres::frontend::{self, frame, str_field, PROTOCOL_VERSION};
use crate::postgres::ProtocolError;

verus! {

/// Startup phase successful response.
/// It has no `Debug`: it holds the secret key of the session.
pub struct StartupResponse {
    pub backend_key_data: BackendKeyData,
    pub param_status: Vec<ParameterStatus>,
}

/// A parameter of the startup message, when given.
pub open spec fn startup_pair(name: Seq<u8>, value: Option<Seq<char>>) -> Seq<u8> {
    match value {
        Some(v) => nul_string(name) + nul_string(vstd::utf8::encode_utf8(v)),
        None => Seq::empty(),
    }
}

/// The body of the startup message for `cfg`, after its length.
pub open spec fn startup_body(cfg: StartupConfig) -> Seq<u8> {
    i32_be(PROTOCOL_VERSION) + str_field("user") + nul_string(
        vstd::utf8::encode_utf8(cfg.spec_user()),
    ) + startup_pair("database".spec_bytes(), cfg.spec_database()) + startup_pair(
        "replication".spec_bytes(),
        cfg.spec_replication(),
    ) + seq![0u8]
}

/// The startup message for `cfg`: its length, then its body.
pub open spec fn startup_bytes(cfg: StartupConfig) -> Seq<u8> {
    i32_be((4 + startup_body(cfg).len()) as i32) + startup_body(cfg)
}

/// The password the startup phase answers with: the configured one, or
/// the empty string.
pub open spec fn password_of(cfg: StartupConfig) -> Seq<char> {
    match cfg.spec_password() {
        Some(p) => p,
        None => Seq::empty(),
    }
}

/// Where the startup phase stands.
#[derive(Debug, Clone, Copy, PartialEq, Eq, Structural)]
pub enum StartupPhase {
    /// Authentication requests are answered until `AuthenticationOk`.
    Auth,
    /// Parameter statuses and key data are collected until `ReadyForQuery`.
    Params,
    /// The phase is over.
    Complete,
}

/// What a message of the startup phase leads to.
pub enum StartupStep {
    /// Receive the next message.
    Continue,
    /// An answer was queued: flush, then receive the next message.
    Flush,
    /// A notice arrived: show it, then receive the next message.
    Notice(NoticeResponse),
    /// The server is ready.
    Done(StartupResponse),
    /// The phase failed.
    Failed(Error),
}

/// The startup phase of a connection.
pub struct Startup {
    phase: StartupPhase,
    param_status: Vec<ParameterStatus>,
    key_data: Option<BackendKeyData>,
}

impl Startup {
    pub closed spec fn spec_phase(&self) -> StartupPhase {
        self.phase
    }

    /// The parameter statuses received, in order.
    pub closed spec fn spec_params(&self) -> Seq<ParameterStatus> {
        self.param_status@
    }

    /// The last key data received.
    pub closed spec fn spec_key_data(&self) -> Option<BackendKeyData> {
        self.key_data
    }

    /// `msg` can be taken without a panic: `ReadyForQuery` comes after the
    /// key data (the phase panics otherwise).
    pub open spec fn can_take(&self, msg: BackendMessage) -> bool {
        (self.spec_phase() is Params && msg is ReadyForQuery) ==> self.spec_key_data() is Some
    }

    /// Queues the startup message for `cfg`.  The caller flushes it, then
    /// hands each message to [`Startup::on_message`].
    pub fn begin(cfg: &StartupConfig, conn: &mut PgConnState) -> (r: Startup)
        requires
            startup_body(*cfg).len() + 4 <= i32::MAX,
            bytes_mut_seq(old(conn).write_buf).len() + 4 + startup_body(*cfg).len() <= isize::MAX,
        ensures
            r.spec_phase() == StartupPhase::Auth,
            r.spec_params() == Seq::<ParameterStatus>::empty(),
            r.spec_key_data() is None,
            bytes_mut_seq(final(conn).write_buf) == bytes_mut_seq(old(conn).write_buf)
                + startup_bytes(*cfg),
            final(conn).read_buf == old(conn).read_buf,
            final(conn).stmts == old(conn).stmts,
            final(conn).sync_pending == old(conn).sync_pending,
    {
        let msg = frontend::Startup {
            user: cfg.user(),
            database: cfg.database(),
            replication: cfg.replication(),
        };
        proof {
            reveal_strlit("database");
            reveal_strlit("replication");
            assert(msg.body() =~= startup_body(*cfg));
        }
        conn.send_startup(msg);
        Startup { phase: StartupPhase::Auth, param_status: Vec::new(), key_data: None }
    }

    /// Whether [`Startup::on_message`] can take `msg`.
    pub fn accepts(&self, msg: &BackendMessage) -> (r: bool)
        ensures
            r == self.can_take(*msg),
    {
        match (self.phase, msg) {
            (StartupPhase::Params, BackendMessage::ReadyForQuery(_)) => self.key_data.is_some(),
            _ => true,
        }
    }

    /// Takes one message of the startup phase.
    ///
    /// While authenticating: `AuthenticationOk` ends it, a clear-text
    /// password request is answered with the password, any other request
    /// is unsupported, and any other message is of the wrong type.  Then:
    /// key data and parameter statuses are kept, notices are handed back,
    /// `ReadyForQuery` ends the phase, and anything else is out of place.
    pub fn on_message(&mut self, msg: BackendMessage, cfg: &StartupConfig, conn: &mut PgConnState) -> (r: StartupStep)
        requires
            !(old(self).spec_phase() is Complete),
            old(self).can_take(msg),
            vstd::utf8::encode_utf8(password_of(*cfg)).len() + 16 <= i32::MAX,
            bytes_mut_seq(old(conn).write_buf).len() + vstd::utf8::encode_utf8(password_of(*cfg)).len()
                + 16 <= isize::MAX,
        ensures
            final(conn).read_buf == old(conn).read_buf,
            final(conn).stmts == old(conn).stmts,
            final(conn).sync_pending == old(conn).sync_pending,
            (r is Flush) ==> bytes_mut_seq(final(conn).write_buf) == bytes_mut_seq(
                old(conn).write_buf,
            ) + frame(112u8, nul_string(vstd::utf8::encode_utf8(password_of(*cfg)))),
            !(r is Flush) ==> final(conn).write_buf == old(conn).write_buf,
            match old(self).spec_phase() {
                StartupPhase::Auth => match msg {
                    BackendMessage::Authentication(Authentication::AuthenticationOk) => {
                        &&& r is Continue
                        &&& final(self).spec_phase() == StartupPhase::Params
                        &&& final(self).spec_params() == old(self).spec_params()
                        &&& final(self).spec_key_data() == old(self).spec_key_data()
                    },
                    BackendMessage::Authentication(Authentication::CleartextPassword) => {
                        &&& r is Flush
                        &&& final(self).spec_phase() == StartupPhase::Auth
                        &&& final(self).spec_params() == old(self).spec_params()
                        &&& final(self).spec_key_data() == old(self).spec_key_data()
                    },
                    BackendMessage::Authentication(_) => {
                        &&& r matches StartupStep::Failed(e) && e.spec_kind() is UnsupportedAuth
                        &&& final(self).spec_phase() == StartupPhase::Complete
                    },
                    _ => {
                        &&& r matches StartupStep::Failed(e) && e.spec_kind() == ErrorKind::Protocol(
                            ProtocolError::Unexpected {
                                expect: Some(82u8),
                                found: msg.spec_msgtype(),
                                phase: None,
                            },
                        )
                        &&& final(self).spec_phase() == StartupPhase::Complete
                    },
                },
                _ => match msg {
                    BackendMessage::ReadyForQuery(_) => {
                        &&& r matches StartupStep::Done(res) && Some(res.backend_key_data) == old(
                            self,
                        ).spec_key_data() && res.param_status@ == old(self).spec_params()
                        &&& final(self).spec_phase() == StartupPhase::Complete
                    },
                    BackendMessage::BackendKeyData(k) => {
                        &&& r is Continue
                        &&& final(self).spec_phase() == StartupPhase::Params
                        &&& final(self).spec_key_data() == Some(k)
                        &&& final(self).spec_params() == old(self).spec_params()
                    },
                    BackendMessage::ParameterStatus(p) => {
                        &&& r is Continue
                        &&& final(self).spec_phase() == StartupPhase::Params
                        &&& final(self).spec_key_data() == old(self).spec_key_data()
                        &&& final(self).spec_params() == old(self).spec_params().push(p)
                    },
                    BackendMessage::NoticeResponse(n) => {
                        &&& r matches StartupStep::Notice(m) && m == n
                        &&& final(self).spec_phase() == StartupPhase::Params
                        &&& final(self).spec_key_data() == old(self).spec_key_data()
                        &&& final(self).spec_params() == old(self).spec_params()
                    },
                    _ => {
                        &&& r matches StartupStep::Failed(e) && e.spec_kind() == ErrorKind::Protocol(
                            ProtocolError::Unexpected {
                                expect: None,
                                found: msg.spec_msgtype(),
                                phase: Some("startup phase"),
                            },
                        )
                        &&& final(self).spec_phase() == StartupPhase::Complete
                    },
                },
            },
    {
        match self.phase {
            StartupPhase::Auth => match msg {
                BackendMessage::Authentication(auth) => match auth {
                    Authentication::AuthenticationOk => {
                        self.phase = StartupPhase::Params;
                        StartupStep::Continue
                    },
                    Authentication::CleartextPassword => {
                        let password = match cfg.password() {
                            Some(p) => p,
                            None => "",
                        };
                        proof {
                            reveal_strlit("");
                            assert(password@ == password_of(*cfg));
                        }
                        conn.send(frontend::PasswordMessage { password });
                        StartupStep::Flush
                    },
                    _ => {
                        self.phase = StartupPhase::Complete;
                        StartupStep::Failed(Error::new(ErrorKind::UnsupportedAuth))
                    },
                },
                other => {
                    let found = other.msgtype();
                    self.phase = StartupPhase::Complete;
                    StartupStep::Failed(
                        Error::new(ErrorKind::Protocol(ProtocolError::unexpected(82, found))),
                    )
                },
            },
            _ => match msg {
                BackendMessage::ReadyForQuery(_) => {
                    self.phase = StartupPhase::Complete;
                    let mut params = Vec::new();
                    std::mem::swap(&mut params, &mut self.param_status);
                    match self.key_data.take() {
                        Some(k) => StartupStep::Done(
                            StartupResponse { backend_key_data: k, param_status: params },
                        ),
                        None => StartupStep::Continue,
                    }
                },
                BackendMessage::BackendKeyData(k) => {
                    self.key_data = Some(k);
                    StartupStep::Continue
                },
                BackendMessage::ParameterStatus(p) => {
                    self.param_status.push(p);
                    StartupStep::Continue
                },
                BackendMessage::NoticeResponse(n) => StartupStep::Notice(n),
                other => {
                    let found = other.msgtype();
                    self.phase = StartupPhase::Complete;
                    StartupStep::Failed(
                        Error::new(
                            ErrorKind::Protocol(ProtocolError::unexpected_phase(found, "startup phase")),
                        ),
                    )
                },
            },
        }
    }
}

/// What a reply to a simple query leads to.
pub enum SimpleStep<R> {
    /// Receive the next reply.
    Continue,
    /// The query is over: the rows.
    Done(Vec<R>),
    /// A reply out of place.
    Failed(Error),
}

/// Queues a simple query.
pub fn begin_simple_query(sql: &str, conn: &mut PgConnState)
    requires
        sql.spec_bytes().len() + 5 <= i32::MAX,
        bytes_mut_seq(old(conn).write_buf).len() + sql.spec_bytes().len() + 6 <= isize::MAX,
    ensures
        bytes_mut_seq(final(conn).write_buf) == bytes_mut_seq(old(conn).write_buf) + frame(
            81u8,
            str_field(sql),
        ),
        final(conn).read_buf == old(conn).read_buf,
        final(conn).stmts == old(conn).stmts,
        final(conn).sync_pending == old(conn).sync_pending,
{
    conn.send(frontend::Query { sql });
}

/// A simple query's reply can be taken: row data is not read by this
/// library, which stops there.
pub open spec fn simple_can_take(msg: BackendMessage) -> bool {
    !(msg is DataRow)
}

/// Takes one reply to a simple query: descriptions and command
/// completions are passed over, `ReadyForQuery` ends it (with no rows),
/// anything else is out of place.
pub fn simple_query_step<R>(msg: BackendMessage) -> (r: SimpleStep<R>)
    requires
        simple_can_take(msg),
    ensures
        match msg {
            BackendMessage::ReadyForQuery(_) => r matches SimpleStep::Done(v) && v@.len() == 0,
            BackendMessage::RowDescription(_) | BackendMessage::CommandComplete(_) => r is Continue,
            _ => r matches SimpleStep::Failed(e) && e.spec_kind() == ErrorKind::Protocol(
                ProtocolError::Unexpected {
                    expect: None,
                    found: msg.spec_msgtype(),
                    phase: Some("simple query"),
                },
            ),
        },
{
    match msg {
        BackendMessage::ReadyForQuery(_) => SimpleStep::Done(Vec::new()),
        BackendMessage::RowDescription(_) | BackendMessage::CommandComplete(_) => {
            SimpleStep::Continue
        },
        other => {
            let found = other.msgtype();
            SimpleStep::Failed(
                Error::new(ErrorKind::Protocol(ProtocolError::unexpected_phase(found, "simple query"))),
            )
        },
    }
}

} // verus!
