//! Fetching rows: the replies after the portal, one message at a time.
use bytes::Bytes;
use vstd::prelude::*;

use crate::buf::{be_u16, bytes_clone, bytes_get_u16, bytes_len, bytes_seq};
use crate::error::{Error, ErrorKind};
use crate::postgres::backend::BackendMessage;
use crate::postgres::ProtocolError;
use crate::row::Row;

verus! {

/// What a reply to a fetch leads to.
#[derive(Debug)]
pub enum FetchStep {
    /// Receive the next reply.
    Continue,
    /// A row arrived: its description with its values.
    Row(Row),
    /// No more rows.
    Done,
    /// The reply did not fit the exchange; it is over.
    Failed(Error),
}

/// A `DataRow` body holds its column count, and the count is the one the
/// description gave (taking the row panics otherwise).
pub open spec fn row_fits(desc: Row, body: Seq<u8>) -> bool {
    body.len() >= 2 && be_u16(body) == desc.spec_len()
}

/// Whether a `DataRow` body fits description `desc`.
pub fn check_row_fits(desc: &Row, body: &Bytes) -> (r: bool)
    ensures
        r == row_fits(*desc, bytes_seq(*body)),
{
    if bytes_len(body) < 2 {
        return false;
    }
    let mut b = bytes_clone(body);
    bytes_get_u16(&mut b) == desc.len()
}

/// The row that a `DataRow` with `body` gives under description `desc`.
pub open spec fn row_of(desc: Row, body: Seq<u8>, row: Row) -> bool {
    &&& row.spec_len() == desc.spec_len()
    &&& row.spec_body() == desc.spec_body()
    &&& row.spec_values() == body.skip(2)
}

/// A `RowDescription` body holds its field count.
pub open spec fn description_ok(body: Seq<u8>) -> bool {
    body.len() >= 2
}

/// The description that a `RowDescription` with `body` gives.
pub open spec fn description_of(body: Seq<u8>, desc: Row) -> bool {
    &&& desc.spec_len() == be_u16(body)
    &&& desc.spec_body() == body.skip(2)
    &&& desc.spec_values() == Seq::<u8>::empty()
}

/// The reply a [`FetchStream`] waits for.
#[derive(Debug, Clone, Copy, PartialEq, Eq, Structural)]
pub enum StreamPhase {
    BindComplete,
    RowDescription,
    DataRow,
    ReadyForQuery,
    Complete,
}

/// Rows of a query that must return rows: `BindComplete`,
/// `RowDescription`, the `DataRow`s up to the end of the execution,
/// `ReadyForQuery`.
#[derive(Debug)]
pub struct FetchStream {
    phase: StreamPhase,
    desc: Option<Row>,
}

impl FetchStream {
    pub closed spec fn spec_phase(&self) -> StreamPhase {
        self.phase
    }

    /// The row description, once received.
    pub closed spec fn spec_desc(&self) -> Option<Row> {
        self.desc
    }

    /// While rows arrive the description is known.
    pub open spec fn wf(&self) -> bool {
        self.spec_phase() is DataRow ==> self.spec_desc() is Some
    }

    /// `msg` can be taken without a panic.
    pub open spec fn can_take(&self, msg: BackendMessage) -> bool {
        &&& self.spec_phase() is RowDescription ==> (msg matches BackendMessage::RowDescription(
            rd,
        ) ==> description_ok(bytes_seq(rd.body)))
        &&& self.spec_phase() is DataRow ==> (msg matches BackendMessage::DataRow(dr) ==> row_fits(
            self.spec_desc().unwrap(),
            bytes_seq(dr.body),
        ))
    }

    /// Waiting for `BindComplete`.
    pub fn new() -> (r: FetchStream)
        ensures
            r.wf(),
            r.spec_phase() == StreamPhase::BindComplete,
            r.spec_desc() is None,
    {
        FetchStream { phase: StreamPhase::BindComplete, desc: None }
    }

    /// The reply awaited.
    pub fn phase(&self) -> (r: StreamPhase)
        ensures
            r == self.spec_phase(),
    {
        self.phase
    }

    /// Whether [`FetchStream::on_message`] can take `msg`.
    pub fn accepts(&self, msg: &BackendMessage) -> (r: bool)
        requires
            self.wf(),
        ensures
            r == self.can_take(*msg),
    {
        match (self.phase, msg) {
            (StreamPhase::RowDescription, BackendMessage::RowDescription(rd)) => bytes_len(&rd.body)
                >= 2,
            (StreamPhase::DataRow, BackendMessage::DataRow(dr)) => match &self.desc {
                Some(desc) => check_row_fits(desc, &dr.body),
                None => true,
            },
            _ => true,
        }
    }

    /// `new` and the step `r` are what taking reply `msg` in state `old`
    /// gives: the contract of [`FetchStream::on_message`].
    pub open spec fn takes(old: FetchStream, msg: BackendMessage, new: FetchStream, r: FetchStep) -> bool {
        &&& new.wf()
        &&& match old.spec_phase() {
            StreamPhase::BindComplete => if msg.spec_msgtype() == 50 {
                r is Continue && new.spec_phase() == StreamPhase::RowDescription
            } else {
                failed_unexpected(r, 50, msg.spec_msgtype()) && new == old
            },
            StreamPhase::RowDescription => match msg {
                BackendMessage::RowDescription(rd) => {
                    &&& r is Continue
                    &&& new.spec_phase() == StreamPhase::DataRow
                    &&& new.spec_desc() matches Some(d) && description_of(
                        bytes_seq(rd.body),
                        d,
                    )
                },
                _ => failed_unexpected(r, 84, msg.spec_msgtype()) && new == old,
            },
            StreamPhase::DataRow => match msg {
                BackendMessage::DataRow(dr) => {
                    &&& r matches FetchStep::Row(row) && row_of(
                        old.spec_desc().unwrap(),
                        bytes_seq(dr.body),
                        row,
                    )
                    &&& new.spec_phase() == StreamPhase::DataRow
                    &&& new.spec_desc() == old.spec_desc()
                },
                BackendMessage::CommandComplete(_) | BackendMessage::PortalSuspended(_)
                | BackendMessage::EmptyQueryResponse(_) => r is Continue && new.spec_phase() == StreamPhase::ReadyForQuery,
                _ => {
                    &&& r matches FetchStep::Failed(e) && e.spec_kind() == ErrorKind::Protocol(
                        ProtocolError::Unexpected {
                            expect: None,
                            found: msg.spec_msgtype(),
                            phase: Some("fetching rows"),
                        },
                    )
                    &&& new.spec_phase() == StreamPhase::Complete
                },
            },
            StreamPhase::ReadyForQuery => if msg.spec_msgtype() == 90 {
                r is Done && new.spec_phase() == StreamPhase::Complete
            } else {
                failed_unexpected(r, 90, msg.spec_msgtype()) && new == old
            },
            StreamPhase::Complete => r is Done && new.spec_phase()
                == StreamPhase::Complete,
        }
    }

    /// Takes one reply.  A reply out of place is an error: among the rows
    /// it ends the stream; before them, and where `ReadyForQuery` is
    /// awaited, the stream still awaits the reply it expected.
    pub fn on_message(&mut self, msg: BackendMessage) -> (r: FetchStep)
        requires
            old(self).wf(),
            old(self).can_take(msg),
        ensures
            FetchStream::takes(*old(self), msg, *final(self), r),
    {
        let found = msg.msgtype();
        match self.phase {
            StreamPhase::BindComplete => {
                if found == 50 {
                    self.phase = StreamPhase::RowDescription;
                    FetchStep::Continue
                } else {
                    unexpected(50, found)
                }
            },
            StreamPhase::RowDescription => match msg {
                BackendMessage::RowDescription(rd) => {
                    // `NoData` is refused: a fetch expects rows
                    self.desc = Some(Row::new(rd.body));
                    self.phase = StreamPhase::DataRow;
                    FetchStep::Continue
                },
                _ => unexpected(84, found),
            },
            StreamPhase::DataRow => match msg {
                BackendMessage::DataRow(dr) => match &self.desc {
                    Some(desc) => FetchStep::Row(desc.inner_clone(dr.body)),
                    None => FetchStep::Done,
                },
                // the terminations of the `Execute` phase
                BackendMessage::CommandComplete(_) | BackendMessage::PortalSuspended(_)
                | BackendMessage::EmptyQueryResponse(_) => {
                    self.phase = StreamPhase::ReadyForQuery;
                    FetchStep::Continue
                },
                other => {
                    self.phase = StreamPhase::Complete;
                    FetchStep::Failed(
                        Error::new(ErrorKind::Protocol(other.unexpected("fetching rows"))),
                    )
                },
            },
            StreamPhase::ReadyForQuery => {
                if found == 90 {
                    self.phase = StreamPhase::Complete;
                    FetchStep::Done
                } else {
                    unexpected(90, found)
                }
            },
            StreamPhase::Complete => FetchStep::Done,
        }
    }
}

/// `r` is the error for a message of type `found` where `expect` was
/// awaited.
pub open spec fn failed_unexpected(r: FetchStep, expect: u8, found: u8) -> bool {
    r matches FetchStep::Failed(e) && e.spec_kind() == ErrorKind::Protocol(
        ProtocolError::Unexpected { expect: Some(expect), found, phase: None },
    )
}

/// The error for a message of type `found` where `expect` was awaited.
fn unexpected(expect: u8, found: u8) -> (r: FetchStep)
    ensures
        failed_unexpected(r, expect, found),
{
    FetchStep::Failed(Error::new(ErrorKind::Protocol(ProtocolError::unexpected(expect, found))))
}

/// Step `i` of a trace: state `i` took reply `i`, giving step `i` and
/// state `i + 1`.
pub open spec fn stream_step_at(
    states: Seq<FetchStream>,
    msgs: Seq<BackendMessage>,
    steps: Seq<FetchStep>,
    i: int,
) -> bool {
    FetchStream::takes(states[i], msgs[i], states[i + 1], steps[i])
}

/// Successive states of a fetch stream, the replies it took one by one,
/// and what each gave.
pub open spec fn stream_trace(
    states: Seq<FetchStream>,
    msgs: Seq<BackendMessage>,
    steps: Seq<FetchStep>,
) -> bool {
    &&& states.len() == msgs.len() + 1
    &&& steps.len() == msgs.len()
    &&& forall|i: int| 0 <= i < msgs.len() ==> #[trigger] stream_step_at(states, msgs, steps, i)
}

/// `msg` is a `DataRow` and `step` hands out the row it gives under
/// description `desc`.
pub open spec fn row_step(desc: Row, msg: BackendMessage, step: FetchStep) -> bool {
    &&& msg matches BackendMessage::DataRow(dr)
    &&& step matches FetchStep::Row(row) && row_of(desc, bytes_seq(dr.body), row)
}

/// `msg` ends the execution of a portal.
pub open spec fn ends_execution(msg: BackendMessage) -> bool {
    msg is CommandComplete || msg is PortalSuspended || msg is EmptyQueryResponse
}

/// A fetch stream hands out the rows of a query in the order they come,
/// then ends, and stays ended.  A stream that waits for `BindComplete`
/// and then takes `BindComplete`, a `RowDescription`, `n` `DataRow`s, the
/// end of the execution (`CommandComplete`, `PortalSuspended` or
/// `EmptyQueryResponse`) and `ReadyForQuery`, and then any further
/// replies, gives `Continue` twice, then for each `DataRow` in turn the
/// row that it holds under that description, then `Continue`, then
/// `Done`, and `Done` again for every reply after that.
pub proof fn law_stream_rows_in_order(
    states: Seq<FetchStream>,
    msgs: Seq<BackendMessage>,
    steps: Seq<FetchStep>,
    n: int,
)
    requires
        stream_trace(states, msgs, steps),
        states[0].spec_phase() is BindComplete,
        0 <= n,
        n + 4 <= msgs.len(),
        msgs[0] is BindComplete,
        msgs[1] is RowDescription,
        forall|j: int| 2 <= j < n + 2 ==> #[trigger] msgs[j] is DataRow,
        ends_execution(msgs[n + 2]),
        msgs[n + 3] is ReadyForQuery,
    ensures
        steps[0] is Continue,
        steps[1] is Continue,
        msgs[1] matches BackendMessage::RowDescription(rd) && (states[2].spec_desc() matches Some(
            d,
        ) && description_of(bytes_seq(rd.body), d)),
        forall|j: int|
            2 <= j < n + 2 ==> row_step(states[2].spec_desc().unwrap(), msgs[j], #[trigger] steps[j]),
        steps[n + 2] is Continue,
        forall|j: int| n + 3 <= j < msgs.len() ==> #[trigger] steps[j] is Done,
{
    assert(stream_step_at(states, msgs, steps, 0));
    assert(stream_step_at(states, msgs, steps, 1));
    lemma_stream_rows(states, msgs, steps, n, n);
    assert(stream_step_at(states, msgs, steps, n + 2));
    assert(stream_step_at(states, msgs, steps, n + 3));
    assert forall|j: int| n + 3 <= j < msgs.len() implies #[trigger] steps[j] is Done by {
        if j > n + 3 {
            lemma_stream_stays_complete(states, msgs, steps, n + 4, j);
        }
    }
}

/// The first `m` rows of the law above, and the stream still taking rows
/// after them.
proof fn lemma_stream_rows(
    states: Seq<FetchStream>,
    msgs: Seq<BackendMessage>,
    steps: Seq<FetchStep>,
    n: int,
    m: int,
)
    requires
        stream_trace(states, msgs, steps),
        states[0].spec_phase() is BindComplete,
        0 <= m <= n,
        n + 4 <= msgs.len(),
        msgs[0] is BindComplete,
        msgs[1] is RowDescription,
        forall|j: int| 2 <= j < n + 2 ==> #[trigger] msgs[j] is DataRow,
    ensures
        states[2 + m].spec_phase() is DataRow,
        states[2 + m].spec_desc() == states[2].spec_desc(),
        states[2].spec_desc() is Some,
        forall|j: int|
            2 <= j < m + 2 ==> row_step(states[2].spec_desc().unwrap(), msgs[j], #[trigger] steps[j]),
    decreases m,
{
    assert(stream_step_at(states, msgs, steps, 0));
    assert(stream_step_at(states, msgs, steps, 1));
    if m > 0 {
        lemma_stream_rows(states, msgs, steps, n, m - 1);
        assert(stream_step_at(states, msgs, steps, m + 1));
        assert(msgs[m + 1] is DataRow);
    }
}

/// Once complete, a stream stays complete and every reply gives `Done`.
proof fn lemma_stream_stays_complete(
    states: Seq<FetchStream>,
    msgs: Seq<BackendMessage>,
    steps: Seq<FetchStep>,
    from: int,
    j: int,
)
    requires
        stream_trace(states, msgs, steps),
        0 <= from <= j < msgs.len(),
        states[from].spec_phase() is Complete,
    ensures
        states[j].spec_phase() is Complete,
        steps[j] is Done,
    decreases j - from,
{
    if j > from {
        lemma_stream_stays_complete(states, msgs, steps, from, j - 1);
        assert(stream_step_at(states, msgs, steps, j - 1));
    }
    assert(stream_step_at(states, msgs, steps, j));
}

/// Rows of any query: every reply up to `ReadyForQuery` is taken, the
/// rows are handed out, and anything out of place is an error.
#[derive(Debug)]
pub struct Fetch {
    complete: bool,
    desc: Option<Row>,
}

impl Fetch {
    /// All replies were taken.
    pub closed spec fn spec_complete(&self) -> bool {
        self.complete
    }

    /// The row description, once received.
    pub closed spec fn spec_desc(&self) -> Option<Row> {
        self.desc
    }

    /// `msg` can be taken without a panic: a row needs a description
    /// before it, and must fit it.
    pub open spec fn can_take(&self, msg: BackendMessage) -> bool {
        &&& msg matches BackendMessage::RowDescription(rd) ==> description_ok(bytes_seq(rd.body))
        &&& msg matches BackendMessage::DataRow(dr) ==> !self.spec_complete() ==> (
        self.spec_desc() matches Some(d) && row_fits(d, bytes_seq(dr.body)))
    }

    /// Receiving, no description yet.
    pub fn new() -> (r: Fetch)
        ensures
            !r.spec_complete(),
            r.spec_desc() is None,
    {
        Fetch { complete: false, desc: None }
    }

    /// Whether [`Fetch::on_message`] can take `msg`.
    pub fn accepts(&self, msg: &BackendMessage) -> (r: bool)
        ensures
            r == self.can_take(*msg),
    {
        match msg {
            BackendMessage::RowDescription(rd) => bytes_len(&rd.body) >= 2,
            BackendMessage::DataRow(dr) => self.complete || match &self.desc {
                Some(desc) => check_row_fits(desc, &dr.body),
                None => false,
            },
            _ => true,
        }
    }

    /// Takes one reply.
    pub fn on_message(&mut self, msg: BackendMessage) -> (r: FetchStep)
        requires
            old(self).can_take(msg),
        ensures
            if old(self).spec_complete() {
                r is Done && final(self).spec_complete()
            } else {
                match msg {
                    BackendMessage::RowDescription(rd) => {
                        &&& r is Continue
                        &&& !final(self).spec_complete()
                        &&& final(self).spec_desc() matches Some(d) && description_of(
                            bytes_seq(rd.body),
                            d,
                        )
                    },
                    BackendMessage::BindComplete(_) | BackendMessage::NoData(_)
                    | BackendMessage::CommandComplete(_) => {
                        &&& r is Continue
                        &&& *final(self) == *old(self)
                    },
                    BackendMessage::ReadyForQuery(_) => r is Done && final(self).spec_complete(),
                    BackendMessage::DataRow(dr) => {
                        &&& r matches FetchStep::Row(row) && row_of(
                            old(self).spec_desc().unwrap(),
                            bytes_seq(dr.body),
                            row,
                        )
                        &&& *final(self) == *old(self)
                    },
                    _ => {
                        &&& r matches FetchStep::Failed(e) && e.spec_kind() == ErrorKind::Protocol(
                            ProtocolError::Unexpected {
                                expect: None,
                                found: msg.spec_msgtype(),
                                phase: Some("extended query"),
                            },
                        )
                        &&& final(self).spec_complete()
                    },
                }
            },
    {
        if self.complete {
            return FetchStep::Done;
        }
        match msg {
            BackendMessage::RowDescription(rd) => {
                self.desc = Some(Row::new(rd.body));
                FetchStep::Continue
            },
            BackendMessage::BindComplete(_) | BackendMessage::NoData(_)
            | BackendMessage::CommandComplete(_) => FetchStep::Continue,
            BackendMessage::ReadyForQuery(_) => {
                self.complete = true;
                FetchStep::Done
            },
            BackendMessage::DataRow(dr) => match &self.desc {
                Some(desc) => FetchStep::Row(desc.inner_clone(dr.body)),
                None => FetchStep::Done,
            },
            other => {
                let found = other.msgtype();
                self.complete = true;
                FetchStep::Failed(
                    Error::new(
                        ErrorKind::Protocol(ProtocolError::unexpected_phase(found, "extended query")),
                    ),
                )
            },
        }
    }
}

/// The first and only row of a query.
#[derive(Debug)]
pub struct FetchOne<R> {
    row: Option<R>,
    complete: bool,
}

/// What an item of the row stream leads to in [`FetchOne`].
#[derive(Debug)]
pub enum FetchOneStep<R> {
    /// Poll the stream again: it must end now.
    Continue,
    /// The row.
    Done(R),
    /// The stream ended before any row: the query returned none.
    Failed(Error),
}

impl<R> FetchOne<R> {
    pub closed spec fn spec_row(&self) -> Option<R> {
        self.row
    }

    pub closed spec fn spec_complete(&self) -> bool {
        self.complete
    }

    /// No row yet.
    pub fn new() -> (r: FetchOne<R>)
        ensures
            r.spec_row() is None,
            !r.spec_complete(),
    {
        FetchOne { row: None, complete: false }
    }

    /// Whether a row was taken already.
    pub fn has_row(&self) -> (r: bool)
        ensures
            r == self.spec_row() is Some,
    {
        self.row.is_some()
    }

    /// Takes the next item of the row stream.  The first must be a row,
    /// which is kept: a stream that ends at once is the error that no row
    /// was found.  The second must be the end, and the row is handed out;
    /// a second row is a panic (the row limit of one suspends the portal
    /// after the first).
    pub fn on_next(&mut self, item: Option<R>) -> (r: FetchOneStep<R>)
        requires
            !old(self).spec_complete(),
            old(self).spec_row() is Some ==> item is None,
        ensures
            match old(self).spec_row() {
                None => match item {
                    Some(x) => r is Continue && final(self).spec_row() == Some(x)
                        && !final(self).spec_complete(),
                    None => (r matches FetchOneStep::Failed(e) && e.spec_kind() is RowNotFound)
                        && final(self).spec_complete() && final(self).spec_row() is None,
                },
                Some(row) => r == FetchOneStep::Done(row) && final(self).spec_complete()
                    && final(self).spec_row() is None,
            },
    {
        match self.row.take() {
            None => match item {
                Some(x) => {
                    self.row = Some(x);
                    FetchOneStep::Continue
                },
                None => {
                    self.complete = true;
                    FetchOneStep::Failed(Error::new(ErrorKind::RowNotFound))
                },
            },
            Some(row) => {
                self.complete = true;
                FetchOneStep::Done(row)
            },
        }
    }
}

/// All the rows of a query.
#[derive(Debug)]
pub struct FetchAll<R> {
    output: Vec<R>,
}

impl<R> FetchAll<R> {
    /// The rows collected so far, in order.
    pub closed spec fn spec_output(&self) -> Seq<R> {
        self.output@
    }

    /// Nothing collected yet.
    pub fn new() -> (r: FetchAll<R>)
        ensures
            r.spec_output() == Seq::<R>::empty(),
    {
        FetchAll { output: Vec::new() }
    }

    /// Takes the next item of the row stream: a row is kept; the end
    /// hands out all rows in the order they came.
    pub fn on_next(&mut self, item: Option<R>) -> (r: Option<Vec<R>>)
        ensures
            match item {
                Some(x) => r is None && final(self).spec_output() == old(self).spec_output().push(x),
                None => r matches Some(v) && v@ == old(self).spec_output() && final(self).spec_output() == Seq::<R>::empty(),
            },
    {
        match item {
            Some(x) => {
                self.output.push(x);
                None
            },
            None => {
                let mut out = Vec::new();
                std::mem::swap(&mut out, &mut self.output);
                Some(out)
            },
        }
    }
}

} // verus!
