//! Preparing a statement and binding a portal, one step at a time.
//!
//! The caller drives a [`Portal`]: it calls [`Portal::poll`], performs the
//! action returned (flushing the connection or receiving `ParseComplete`),
//! reports it with [`Portal::flushed`] or [`Portal::parse_complete`], and
//! polls again until [`PortalAction::Ready`].
use vstd::prelude::*;
use vstd::string::StringSliceAdditionalSpecFns;

use crate::buf::bytes_mut_seq;
use crate::connection::state::{close_stmt_bytes, evicted, PgConnState, DEFAULT_PREPARED_STMT_CACHE};
use crate::encode::Encoded;
use crate::postgres::frontend::params_bytes;
use crate::query::ops::{
    self, portal_bytes, prepare_bytes, spec_sql_hash, unnamed_bytes, PrepareData,
};
use crate::statement::counter_name;

verus! {

/// Where a [`Portal`] stands.
#[derive(Debug, Clone, Copy, PartialEq, Eq, Structural)]
pub enum PortalPhase {
    /// Nothing written yet.
    Prepare,
    /// `Parse` is queued and waits to be flushed.
    PrepareFlush,
    /// `Parse` was sent; `ParseComplete` is awaited.
    PrepareComplete,
    /// The statement is ready; the portal is to be bound.
    Bind,
    /// `Bind`, `Describe`, `Execute` and `Sync` wait to be flushed.
    BindFlush,
    /// Everything was sent.
    Complete,
}

/// What the caller of [`Portal::poll`] does next.
#[derive(Debug, Clone, Copy, PartialEq, Eq, Structural)]
pub enum PortalAction {
    /// Flush the connection, then call [`Portal::flushed`].
    Flush,
    /// Receive `ParseComplete`, then call [`Portal::parse_complete`].
    RecvParseComplete,
    /// The portal is bound and sent: go on receiving its results.
    Ready,
}

/// Prepares a statement (or finds it cached) and binds the parameters to
/// it in the unnamed portal.
#[derive(Debug)]
pub struct Portal<'val> {
    phase: PortalPhase,
    data: Option<PrepareData>,
    params: Vec<Encoded<'val>>,
    persistent: bool,
    max_row: i32,
}

impl<'val> Portal<'val> {
    pub closed spec fn spec_phase(&self) -> PortalPhase {
        self.phase
    }

    /// The prepared statement, once settled.
    pub closed spec fn spec_data(&self) -> Option<PrepareData> {
        self.data
    }

    /// The parameters still to be bound.
    pub closed spec fn spec_params(&self) -> Seq<Encoded<'val>> {
        self.params@
    }

    /// Whether the statement is to be cached.
    pub closed spec fn spec_persistent(&self) -> bool {
        self.persistent
    }

    /// The most rows `Execute` asks for; `0` asks for all of them.
    pub closed spec fn spec_max_row(&self) -> i32 {
        self.max_row
    }

    /// From `PrepareFlush` to `Bind` the prepared statement is known; once
    /// known, it carries the portal's row limit.
    pub open spec fn wf(&self) -> bool {
        &&& (self.spec_phase() is PrepareFlush || self.spec_phase() is PrepareComplete
            || self.spec_phase() is Bind) ==> (self.spec_data() matches Some(d) && d.stmt.wf())
        &&& self.spec_data() matches Some(d) ==> d.max_row == self.spec_max_row()
    }

    /// A portal for a query with these parameters; `persistent` asks for
    /// the statement to be cached on the connection, and `max_row` is the
    /// most rows to ask for (`0`: all of them).
    pub fn new(params: Vec<Encoded<'val>>, persistent: bool, max_row: i32) -> (r: Portal<'val>)
        ensures
            r.wf(),
            r.spec_phase() == PortalPhase::Prepare,
            r.spec_params() == params@,
            r.spec_persistent() == persistent,
            r.spec_max_row() == max_row,
            r.spec_data() is None,
    {
        Portal { phase: PortalPhase::Prepare, data: None, params, persistent, max_row }
    }

    /// The phase.
    pub fn phase(&self) -> (r: PortalPhase)
        ensures
            r == self.spec_phase(),
    {
        self.phase
    }

    /// Takes the steps that need no outside work and says what is needed
    /// next.  From `Prepare` the statement is looked up or parsed; a cached
    /// one is bound at once.  From `Bind` the portal is bound.  In the
    /// waiting phases nothing changes.
    pub fn poll(&mut self, sql: &str, conn: &mut PgConnState, counter: &mut u16) -> (r: PortalAction)
        requires
            old(self).wf(),
            ops::prepare_ok(*old(conn), sql.spec_bytes(), old(self).spec_params()),
            ops::portal_ok(*old(conn), old(self).spec_params()),
            bytes_mut_seq(old(conn).write_buf).len() + sql.spec_bytes().len() + 4
                * old(self).spec_params().len() + params_bytes(old(self).spec_params()).len()
                + 256 <= isize::MAX,
        ensures
            final(self).wf(),
            final(conn).wf(),
            final(conn).stmts() == old(conn).stmts(),
            final(conn).read_buf == old(conn).read_buf,
            final(conn).sync_pending == old(conn).sync_pending,
            final(self).spec_persistent() == old(self).spec_persistent(),
            final(self).spec_max_row() == old(self).spec_max_row(),
            match old(self).spec_phase() {
                PortalPhase::Prepare => (final(self).spec_data() matches Some(d) && {
                    let hit = old(self).spec_persistent() && old(conn).stmts().contains_key(
                        d.sqlid,
                    );
                    &&& r == PortalAction::Flush
                    &&& d.sqlid == spec_sql_hash(sql@)
                    &&& d.max_row == old(self).spec_max_row()
                    &&& d.cache_hit == hit
                    &&& if hit {
                        &&& d.stmt@ == old(conn).stmts()[d.sqlid]
                        &&& *final(counter) == *old(counter)
                        &&& final(self).spec_phase() == PortalPhase::BindFlush
                        &&& final(self).spec_params() == Seq::<Encoded>::empty()
                        &&& bytes_mut_seq(final(conn).write_buf) == bytes_mut_seq(
                            old(conn).write_buf,
                        ) + portal_bytes(d.stmt@, old(self).spec_params(), old(self).spec_max_row())
                    } else {
                        &&& d.stmt@ == (if old(self).spec_persistent() {
                            counter_name(*old(counter), 95u8)
                        } else {
                            unnamed_bytes()
                        })
                        &&& *final(counter) == (if old(self).spec_persistent() {
                            if *old(counter) == u16::MAX { 0 } else { (*old(counter) + 1) as u16 }
                        } else {
                            *old(counter)
                        })
                        &&& final(self).spec_phase() == PortalPhase::PrepareFlush
                        &&& final(self).spec_params() == old(self).spec_params()
                        &&& bytes_mut_seq(final(conn).write_buf) == bytes_mut_seq(
                            old(conn).write_buf,
                        ) + prepare_bytes(d.stmt@, sql.spec_bytes(), old(self).spec_params())
                    }
                }),
                PortalPhase::Bind => {
                    &&& r == PortalAction::Flush
                    &&& final(self).spec_phase() == PortalPhase::BindFlush
                    &&& final(self).spec_data() == old(self).spec_data()
                    &&& final(self).spec_params() == Seq::<Encoded>::empty()
                    &&& *final(counter) == *old(counter)
                    &&& bytes_mut_seq(final(conn).write_buf) == bytes_mut_seq(old(conn).write_buf)
                        + portal_bytes(
                        old(self).spec_data().unwrap().stmt@,
                        old(self).spec_params(),
                        old(self).spec_max_row(),
                    )
                },
                _ => {
                    &&& r == (match old(self).spec_phase() {
                        PortalPhase::PrepareComplete => PortalAction::RecvParseComplete,
                        PortalPhase::Complete => PortalAction::Ready,
                        _ => PortalAction::Flush,
                    })
                    &&& final(self).spec_phase() == old(self).spec_phase()
                    &&& final(self).spec_data() == old(self).spec_data()
                    &&& final(self).spec_params() == old(self).spec_params()
                    &&& final(conn).write_buf == old(conn).write_buf
                    &&& *final(counter) == *old(counter)
                },
            },
    {
        match self.phase {
            PortalPhase::Prepare => {
                let mut data = ops::prepare(
                    sql,
                    self.params.as_slice(),
                    self.persistent,
                    conn,
                    counter,
                );
                data.max_row = self.max_row;
                if data.cache_hit {
                    ops::portal(&data, &mut self.params, conn);
                    self.data = Some(data);
                    self.phase = PortalPhase::BindFlush;
                } else {
                    self.data = Some(data);
                    self.phase = PortalPhase::PrepareFlush;
                }
                PortalAction::Flush
            },
            PortalPhase::Bind => {
                match &self.data {
                    Some(data) => ops::portal(data, &mut self.params, conn),
                    None => {},
                }
                self.phase = PortalPhase::BindFlush;
                PortalAction::Flush
            },
            PortalPhase::PrepareComplete => PortalAction::RecvParseComplete,
            PortalPhase::Complete => PortalAction::Ready,
            _ => PortalAction::Flush,
        }
    }

    /// The connection was flushed: `Parse` now awaits its answer, or the
    /// portal is complete.
    pub fn flushed(&mut self)
        requires
            old(self).spec_phase() is PrepareFlush || old(self).spec_phase() is BindFlush,
            old(self).wf(),
        ensures
            final(self).wf(),
            final(self).spec_phase() == (if old(self).spec_phase() is PrepareFlush {
                PortalPhase::PrepareComplete
            } else {
                PortalPhase::Complete
            }),
            final(self).spec_data() == old(self).spec_data(),
            final(self).spec_params() == old(self).spec_params(),
            final(self).spec_persistent() == old(self).spec_persistent(),
            final(self).spec_max_row() == old(self).spec_max_row(),
    {
        self.phase = match self.phase {
            PortalPhase::PrepareFlush => PortalPhase::PrepareComplete,
            _ => PortalPhase::Complete,
        };
    }

    /// `ParseComplete` arrived: a persistent statement is cached on the
    /// connection (closing the one it pushes out), and the portal is to
    /// be bound next.
    pub fn parse_complete(&mut self, conn: &mut PgConnState)
        requires
            old(self).spec_phase() is PrepareComplete,
            old(self).wf(),
            old(conn).wf(),
            old(conn).pending() < usize::MAX,
            bytes_mut_seq(old(conn).write_buf).len() + 64 <= isize::MAX,
        ensures
            final(self).wf(),
            final(conn).wf(),
            final(self).spec_phase() == PortalPhase::Bind,
            final(self).spec_data() == old(self).spec_data(),
            final(self).spec_params() == old(self).spec_params(),
            final(self).spec_persistent() == old(self).spec_persistent(),
            final(self).spec_max_row() == old(self).spec_max_row(),
            final(conn).read_buf == old(conn).read_buf,
            ({
                let d = old(self).spec_data().unwrap();
                if old(self).spec_persistent() {
                    let ev = evicted(
                        old(conn).stmt_entries(),
                        DEFAULT_PREPARED_STMT_CACHE as nat,
                        d.sqlid,
                    );
                    &&& final(conn).stmts() == (match ev {
                        Some((k, _)) => old(conn).stmts().remove(k),
                        None => old(conn).stmts(),
                    }).insert(d.sqlid, d.stmt@)
                    &&& match ev {
                        Some((_, n)) => {
                            &&& bytes_mut_seq(final(conn).write_buf) == bytes_mut_seq(
                                old(conn).write_buf,
                            ) + close_stmt_bytes(n)
                            &&& final(conn).pending() == old(conn).pending() + 1
                        },
                        None => {
                            &&& final(conn).write_buf == old(conn).write_buf
                            &&& final(conn).pending() == old(conn).pending()
                        },
                    }
                } else {
                    &&& final(conn).stmts == old(conn).stmts
                    &&& final(conn).write_buf == old(conn).write_buf
                    &&& final(conn).sync_pending == old(conn).sync_pending
                }
            }),
    {
        if self.persistent {
            match &self.data {
                Some(data) => conn.add_stmt(data.sqlid, data.stmt),
                None => {},
            }
        }
        self.phase = PortalPhase::Bind;
    }
}

} // verus!

verus! {

/// The same query finds its prepared statement again.  After
/// [`Portal::parse_complete`] has cached the statement `stmt` of a
/// persistent query `sql` (its statements before are `before`, and the
/// cache pushed out the entry of `evicted_key`, if any), the statements
/// `after` map the hash of `sql` to `stmt`: the next [`Portal::poll`] of
/// the same persistent query, which looks up that same hash, is a cache
/// hit that binds `stmt` without parsing again.  The other statements stay
/// as they were, but for the one pushed out.
pub proof fn law_statement_cached(
    before: Map<u64, Seq<u8>>,
    after: Map<u64, Seq<u8>>,
    evicted_key: Option<u64>,
    sql: Seq<char>,
    stmt: Seq<u8>,
)
    requires
        after == (match evicted_key {
            Some(k) => before.remove(k),
            None => before,
        }).insert(spec_sql_hash(sql), stmt),
    ensures
        after.contains_key(spec_sql_hash(sql)),
        after[spec_sql_hash(sql)] == stmt,
        forall|k: u64|
            k != spec_sql_hash(sql) && evicted_key != Some(k) && #[trigger] before.contains_key(k)
                ==> after.contains_key(k) && after[k] == before[k],
{
}

} // verus!
