//! Query API types: the builder, and the message-by-message machines that
//! carry a query through the extended query protocol.
use std::marker::PhantomData;
use vstd::prelude::*;

use crate::encode::{Encode, Encoded};
use crate::sql::Sql;

pub mod execute;
pub mod fetch;
pub mod ops;
pub mod portal;

pub use execute::Execute;
pub use fetch::{Fetch, FetchAll, FetchOne, FetchStream};
pub use ops::{command_complete, PrepareData};
pub use portal::Portal;

verus! {

/// Entrypoint of the query API.
pub fn query<'val, SQL, Exe, R>(sql: SQL, exe: Exe) -> (r: Query<'val, SQL, Exe, R>)
    ensures
        r.spec_sql() == sql,
        r.spec_exe() == exe,
        r.spec_params() == Seq::<Encoded<'val>>::empty(),
{
    Query { sql, exe, params: Vec::new(), _p: PhantomData }
}

/// Same as [`query`] but ignore the output.
pub fn execute<'val, SQL, Exe>(sql: SQL, exe: Exe) -> (r: Query<'val, SQL, Exe, ()>)
    ensures
        r.spec_sql() == sql,
        r.spec_exe() == exe,
        r.spec_params() == Seq::<Encoded<'val>>::empty(),
{
    Query { sql, exe, params: Vec::new(), _p: PhantomData }
}

/// A query being built: its string, where it runs, its parameters.
pub struct Query<'val, SQL, Exe, R> {
    sql: SQL,
    exe: Exe,
    params: Vec<Encoded<'val>>,
    _p: PhantomData<R>,
}

/// A query ready to run: the caller acquires a connection from `exe`,
/// drives `portal` and then `machine` with the replies.
pub struct QueryRun<'val, SQL, Exe, M> {
    pub sql: SQL,
    pub exe: Exe,
    pub portal: Portal<'val>,
    pub machine: M,
}

impl<'val, SQL, Exe, R> Query<'val, SQL, Exe, R> {
    pub closed spec fn spec_sql(&self) -> SQL {
        self.sql
    }

    pub closed spec fn spec_exe(&self) -> Exe {
        self.exe
    }

    /// The parameters bound so far, in order; each is well formed.
    pub closed spec fn spec_params(&self) -> Seq<Encoded<'val>> {
        self.params@
    }

    /// Every parameter bound is well formed.
    pub open spec fn wf(&self) -> bool {
        forall|i: int| 0 <= i < self.spec_params().len() ==> (#[trigger] self.spec_params()[i]).wf()
    }

    /// Binds the next parameter.
    pub fn bind<V: Encode<'val>>(self, value: V) -> (r: Self)
        ensures
            r.spec_sql() == self.spec_sql(),
            r.spec_exe() == self.spec_exe(),
            r.spec_params().len() == self.spec_params().len() + 1,
            r.spec_params().drop_last() == self.spec_params(),
            r.spec_params().last().wf(),
            V::encoded(value, r.spec_params().last()),
            self.wf() ==> r.wf(),
    {
        let mut me = self;
        let e = value.encode();
        me.params.push(e);
        assert(me.params@.drop_last() =~= self.params@);
        me
    }
}

impl<'val, SQL: Sql, Exe, R> Query<'val, SQL, Exe, R> {
    /// The pieces to run the query with, with `machine` to take the
    /// replies; the statement is cached as the query string asks, and
    /// `Execute` asks for at most `max_row` rows (`0`: all of them).
    fn run<M>(self, machine: M, max_row: i32) -> (r: QueryRun<'val, SQL, Exe, M>)
        ensures
            r.sql == self.spec_sql(),
            r.exe == self.spec_exe(),
            r.machine == machine,
            r.portal.spec_phase() is Prepare,
            r.portal.spec_params() == self.spec_params(),
            r.portal.spec_persistent() == self.spec_sql().spec_persistent(),
            r.portal.spec_max_row() == max_row,
            r.portal.spec_data() is None,
            r.portal.wf(),
    {
        let persistent = self.sql.persistent();
        QueryRun {
            sql: self.sql,
            exe: self.exe,
            portal: Portal::new(self.params, persistent, max_row),
            machine,
        }
    }

    /// Fetch rows as a stream: all the rows the query returns.
    pub fn fetch(self) -> (r: QueryRun<'val, SQL, Exe, FetchStream>)
        ensures
            r.sql == self.spec_sql(),
            r.exe == self.spec_exe(),
            r.portal.spec_phase() is Prepare,
            r.portal.spec_params() == self.spec_params(),
            r.portal.spec_persistent() == self.spec_sql().spec_persistent(),
            r.portal.spec_max_row() == 0,
            r.portal.spec_data() is None,
            r.portal.wf(),
            r.machine.wf(),
            r.machine.spec_phase() is BindComplete,
    {
        self.run(FetchStream::new(), 0)
    }

    /// Fetch all rows.
    pub fn fetch_all(self) -> (r: QueryRun<'val, SQL, Exe, (FetchStream, FetchAll<R>)>)
        ensures
            r.sql == self.spec_sql(),
            r.exe == self.spec_exe(),
            r.portal.spec_phase() is Prepare,
            r.portal.spec_params() == self.spec_params(),
            r.portal.spec_persistent() == self.spec_sql().spec_persistent(),
            r.portal.spec_max_row() == 0,
            r.portal.spec_data() is None,
            r.portal.wf(),
            r.machine.0.wf(),
            r.machine.0.spec_phase() is BindComplete,
            r.machine.1.spec_output() == Seq::<R>::empty(),
    {
        self.run((FetchStream::new(), FetchAll::new()), 0)
    }

    /// Fetch exactly one row: `Execute` asks for a single row, so the
    /// portal is suspended after it.
    pub fn fetch_one(self) -> (r: QueryRun<'val, SQL, Exe, (FetchStream, FetchOne<R>)>)
        ensures
            r.sql == self.spec_sql(),
            r.exe == self.spec_exe(),
            r.portal.spec_phase() is Prepare,
            r.portal.spec_params() == self.spec_params(),
            r.portal.spec_persistent() == self.spec_sql().spec_persistent(),
            r.portal.spec_max_row() == 1,
            r.portal.spec_data() is None,
            r.portal.wf(),
            r.machine.0.wf(),
            r.machine.0.spec_phase() is BindComplete,
            r.machine.1.spec_row() is None,
            !r.machine.1.spec_complete(),
    {
        self.run((FetchStream::new(), FetchOne::new()), 1)
    }

    /// Run the statement for its effect.
    pub fn execute(self) -> (r: QueryRun<'val, SQL, Exe, Execute>)
        ensures
            r.sql == self.spec_sql(),
            r.exe == self.spec_exe(),
            r.portal.spec_phase() is Prepare,
            r.portal.spec_params() == self.spec_params(),
            r.portal.spec_persistent() == self.spec_sql().spec_persistent(),
            r.portal.spec_max_row() == 0,
            r.portal.spec_data() is None,
            r.portal.wf(),
            r.machine.spec_phase() is BindComplete,
    {
        self.run(Execute::new(), 0)
    }
}

} // verus!
