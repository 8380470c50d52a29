//! Running a statement for its effect: the replies after the portal.
use vstd::prelude::*;

use crate::error::{Error, ErrorKind};
use crate::postgres::backend::BackendMessage;
use crate::postgres::ProtocolError;
use crate::query::ops::{command_complete, row_count};

verus! {

/// The reply an [`Execute`] waits for.
#[derive(Debug, Clone, Copy, PartialEq, Eq, Structural)]
pub enum ExecutePhase {
    BindComplete,
    NoData,
    CommandComplete,
    ReadyForQuery,
    Complete,
}

/// The message type of the reply awaited in `phase`.
pub open spec fn expected_type(phase: ExecutePhase) -> u8 {
    match phase {
        ExecutePhase::BindComplete => 50,
        ExecutePhase::NoData => 110,
        ExecutePhase::CommandComplete => 67,
        _ => 90,
    }
}

/// The phase after the awaited reply of `phase` arrived.
pub open spec fn next_phase(phase: ExecutePhase) -> ExecutePhase {
    match phase {
        ExecutePhase::BindComplete => ExecutePhase::NoData,
        ExecutePhase::NoData => ExecutePhase::CommandComplete,
        ExecutePhase::CommandComplete => ExecutePhase::ReadyForQuery,
        _ => ExecutePhase::Complete,
    }
}

/// What a reply to an [`Execute`] leads to.
#[derive(Debug)]
pub enum ExecuteStep {
    /// Receive the next reply.
    Continue,
    /// Done: the number of rows the command affected.
    Done(u64),
    /// The reply was not the one awaited.
    Failed(Error),
}

/// The replies to a statement run for its effect, after its portal was
/// sent: `BindComplete`, `NoData`, `CommandComplete`, `ReadyForQuery`.
#[derive(Debug)]
pub struct Execute {
    phase: ExecutePhase,
    rows: u32,
}

impl Execute {
    pub closed spec fn spec_phase(&self) -> ExecutePhase {
        self.phase
    }

    /// The row count read from `CommandComplete`.
    pub closed spec fn spec_rows(&self) -> u32 {
        self.rows
    }

    /// Waiting for `BindComplete`.
    pub fn new() -> (r: Execute)
        ensures
            r.spec_phase() == ExecutePhase::BindComplete,
            r.spec_rows() == 0,
    {
        Execute { phase: ExecutePhase::BindComplete, rows: 0 }
    }

    /// The phase.
    pub fn phase(&self) -> (r: ExecutePhase)
        ensures
            r == self.spec_phase(),
    {
        self.phase
    }

    /// Takes one reply.  The awaited one advances the phase (and
    /// `CommandComplete` gives the row count); any other is an error of a
    /// message of the wrong type, and ends the exchange.
    pub fn on_message(&mut self, msg: BackendMessage) -> (r: ExecuteStep)
        requires
            !(old(self).spec_phase() is Complete),
        ensures
            if msg.spec_msgtype() == expected_type(old(self).spec_phase()) {
                &&& final(self).spec_phase() == next_phase(old(self).spec_phase())
                &&& final(self).spec_rows() == (match msg {
                    BackendMessage::CommandComplete(c) => row_count(c.tag@),
                    _ => old(self).spec_rows(),
                })
                &&& if old(self).spec_phase() is ReadyForQuery {
                    r matches ExecuteStep::Done(n) && n == old(self).spec_rows()
                } else {
                    r is Continue
                }
            } else {
                &&& final(self).spec_phase() == ExecutePhase::Complete
                &&& r matches ExecuteStep::Failed(e) && e.spec_kind() == ErrorKind::Protocol(
                    ProtocolError::Unexpected {
                        expect: Some(expected_type(old(self).spec_phase())),
                        found: msg.spec_msgtype(),
                        phase: None,
                    },
                )
            },
    {
        let found = msg.msgtype();
        let expect: u8 = match self.phase {
            ExecutePhase::BindComplete => 50,
            ExecutePhase::NoData => 110,
            ExecutePhase::CommandComplete => 67,
            _ => 90,
        };
        if found != expect {
            self.phase = ExecutePhase::Complete;
            return ExecuteStep::Failed(
                Error::new(ErrorKind::Protocol(ProtocolError::unexpected(expect, found))),
            );
        }
        match self.phase {
            ExecutePhase::BindComplete => {
                self.phase = ExecutePhase::NoData;
                ExecuteStep::Continue
            },
            ExecutePhase::NoData => {
                self.phase = ExecutePhase::CommandComplete;
                ExecuteStep::Continue
            },
            ExecutePhase::CommandComplete => {
                match msg {
                    BackendMessage::CommandComplete(c) => {
                        self.rows = command_complete(c);
                    },
                    _ => {},
                }
                self.phase = ExecutePhase::ReadyForQuery;
                ExecuteStep::Continue
            },
            _ => {
                self.phase = ExecutePhase::Complete;
                ExecuteStep::Done(self.rows as u64)
            },
        }
    }
}

} // verus!
