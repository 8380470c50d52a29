use bytes::Bytes;
use qs::connection::state::PgConnState;
use qs::encode::{Encode, Encoded};
use qs::postgres::backend::{BackendMessage, BackendProtocol, CommandComplete};
use qs::query::execute::{ExecutePhase, ExecuteStep};
use qs::query::ops::{command_complete, portal, prepare, prepare_with_id};
use qs::query::portal::{PortalAction, PortalPhase};
use qs::query::{query, Execute, Portal};
use qs::sql::{Sql, SqlExt};
use qs::ErrorKind;

fn frame(t: u8, body: &[u8]) -> Vec<u8> {
    let mut v = vec![t];
    v.extend_from_slice(&((4 + body.len()) as i32).to_be_bytes());
    v.extend_from_slice(body);
    v
}

fn msg(t: u8, body: &[u8]) -> BackendMessage {
    BackendMessage::decode(t, Bytes::copy_from_slice(body)).unwrap()
}

fn parse_bytes(name: &str, sql: &str, oids: &[i32]) -> Vec<u8> {
    let mut body = Vec::new();
    body.extend_from_slice(name.as_bytes());
    body.push(0);
    body.extend_from_slice(sql.as_bytes());
    body.push(0);
    body.extend_from_slice(&(oids.len() as i16).to_be_bytes());
    for o in oids {
        body.extend_from_slice(&o.to_be_bytes());
    }
    let mut v = frame(b'P', &body);
    v.extend_from_slice(&frame(b'H', b""));
    v
}

#[test]
fn prepare_miss_then_hit() {
    let mut c = PgConnState::new();
    let mut counter: u16 = 5;
    let params = [1i32.encode(), Encoded::null()];
    let d = prepare_with_id(77, "SELECT $1, $2", &params, true, &mut c, &mut counter);
    assert!(!d.cache_hit);
    assert_eq!(d.sqlid, 77);
    assert_eq!(d.stmt.as_str(), "_qs5__");
    assert_eq!(counter, 6);
    assert_eq!(&c.write_buf[..], &parse_bytes("_qs5__", "SELECT $1, $2", &[23, 0])[..]);

    c.add_stmt(d.sqlid, d.stmt);
    c.write_buf.clear();
    let again = prepare_with_id(77, "SELECT $1, $2", &params, true, &mut c, &mut counter);
    assert!(again.cache_hit);
    assert_eq!(again.stmt.as_str(), "_qs5__");
    assert_eq!(counter, 6);
    assert!(c.write_buf.is_empty());
}

#[test]
fn prepare_not_persistent_is_unnamed() {
    let mut c = PgConnState::new();
    let mut counter: u16 = 0;
    let d = prepare("SELECT 1", &[], false, &mut c, &mut counter);
    assert!(!d.cache_hit);
    assert!(d.stmt.is_unnamed());
    assert_eq!(counter, 0);
    assert_eq!(&c.write_buf[..], &parse_bytes("", "SELECT 1", &[])[..]);
}

#[test]
fn prepare_hashes_the_query_consistently() {
    let mut c = PgConnState::new();
    let mut counter: u16 = 0;
    let a = prepare("SELECT 1", &[], true, &mut c, &mut counter);
    c.add_stmt(a.sqlid, a.stmt);
    let b = prepare("SELECT 1", &[], true, &mut c, &mut counter);
    assert!(b.cache_hit);
    assert_eq!(a.sqlid, b.sqlid);
}

#[test]
fn portal_binds_describes_executes_and_syncs() {
    let mut c = PgConnState::new();
    let mut counter: u16 = 0;
    let mut params = vec![7i32.encode()];
    let d = prepare("SELECT $1", &params, true, &mut c, &mut counter);
    c.write_buf.clear();
    portal(&d, &mut params, &mut c);
    assert!(params.is_empty());
    let mut bind = vec![0];
    bind.extend_from_slice(b"_qs0__\0");
    bind.extend_from_slice(&[0, 1, 0, 1, 0, 1]);
    bind.extend_from_slice(&4i32.to_be_bytes());
    bind.extend_from_slice(&7i32.to_be_bytes());
    bind.extend_from_slice(&[0, 1, 0, 1]);
    let mut expect = frame(b'B', &bind);
    expect.extend_from_slice(&frame(b'D', b"P\0"));
    expect.extend_from_slice(&frame(b'E', &[0, 0, 0, 0, 0]));
    expect.extend_from_slice(&frame(b'S', b""));
    assert_eq!(&c.write_buf[..], &expect[..]);
}

#[test]
fn portal_executes_with_the_row_limit() {
    let mut c = PgConnState::new();
    let mut counter: u16 = 0;
    let mut params = vec![];
    let mut d = prepare("SELECT 1", &params, false, &mut c, &mut counter);
    assert_eq!(d.max_row, 0);
    d.max_row = 1;
    c.write_buf.clear();
    portal(&d, &mut params, &mut c);
    let mut tail = frame(b'E', &[0, 0, 0, 0, 1]);
    tail.extend_from_slice(&frame(b'S', b""));
    assert!(c.write_buf.ends_with(&tail));
}

#[test]
fn fetch_one_asks_for_a_single_row() {
    let run = query::<_, _, (i32,)>("SELECT 7", ()).fetch_one();
    let mut p = run.portal;
    let mut c = PgConnState::new();
    let mut counter: u16 = 0;
    assert_eq!(p.poll(run.sql, &mut c, &mut counter), PortalAction::Flush);
    p.flushed();
    assert_eq!(p.poll(run.sql, &mut c, &mut counter), PortalAction::RecvParseComplete);
    p.parse_complete(&mut c);
    c.write_buf.clear();
    assert_eq!(p.poll(run.sql, &mut c, &mut counter), PortalAction::Flush);
    let mut tail = frame(b'E', &[0, 0, 0, 0, 1]);
    tail.extend_from_slice(&frame(b'S', b""));
    assert!(c.write_buf.ends_with(&tail));

    // fetching every row asks for no limit
    let all = query::<_, _, (i32,)>("SELECT 7", ()).fetch_all();
    let mut q = all.portal;
    let mut c = PgConnState::new();
    assert_eq!(q.poll(all.sql, &mut c, &mut counter), PortalAction::Flush);
    q.flushed();
    assert_eq!(q.poll(all.sql, &mut c, &mut counter), PortalAction::RecvParseComplete);
    q.parse_complete(&mut c);
    c.write_buf.clear();
    assert_eq!(q.poll(all.sql, &mut c, &mut counter), PortalAction::Flush);
    let mut tail = frame(b'E', &[0, 0, 0, 0, 0]);
    tail.extend_from_slice(&frame(b'S', b""));
    assert!(c.write_buf.ends_with(&tail));
}

#[test]
fn prepare_hash_depends_on_the_query() {
    let mut c = PgConnState::new();
    let mut counter: u16 = 0;
    let a = prepare("SELECT 1", &[], false, &mut c, &mut counter);
    let b = prepare("SELECT 2", &[], false, &mut c, &mut counter);
    let e = prepare("", &[], false, &mut c, &mut counter);
    assert_ne!(a.sqlid, b.sqlid);
    assert_ne!(a.sqlid, e.sqlid);
}

#[test]
fn command_complete_row_counts() {
    let cc = |tag: &'static [u8]| CommandComplete::decode(b'C', Bytes::from_static(tag)).unwrap();
    assert_eq!(command_complete(cc(b"INSERT 0 5\0")), 5);
    assert_eq!(command_complete(cc(b"SELECT 3\0")), 3);
    assert_eq!(command_complete(cc(b"UPDATE 12\0")), 12);
    assert_eq!(command_complete(cc(b"CREATE TABLE\0")), 0);
    assert_eq!(command_complete(cc(b"SELECT 99999999999\0")), 0);
}

#[test]
fn portal_machine_cache_miss() {
    let mut c = PgConnState::new();
    let mut counter: u16 = 0;
    let mut p = Portal::new(vec![1i32.encode()], true, 0);
    assert_eq!(p.poll("SELECT $1", &mut c, &mut counter), PortalAction::Flush);
    assert_eq!(p.phase(), PortalPhase::PrepareFlush);
    p.flushed();
    assert_eq!(p.poll("SELECT $1", &mut c, &mut counter), PortalAction::RecvParseComplete);
    p.parse_complete(&mut c);
    assert_eq!(p.phase(), PortalPhase::Bind);
    c.write_buf.clear();
    assert_eq!(p.poll("SELECT $1", &mut c, &mut counter), PortalAction::Flush);
    assert_eq!(c.write_buf[0], b'B');
    p.flushed();
    assert_eq!(p.poll("SELECT $1", &mut c, &mut counter), PortalAction::Ready);

    // the statement is cached now: the next portal binds at once
    c.write_buf.clear();
    let mut q = Portal::new(vec![2i32.encode()], true, 0);
    assert_eq!(q.poll("SELECT $1", &mut c, &mut counter), PortalAction::Flush);
    assert_eq!(q.phase(), PortalPhase::BindFlush);
    assert_eq!(c.write_buf[0], b'B');
    assert_eq!(counter, 1);
}

#[test]
fn portal_machine_once_is_not_cached() {
    let mut c = PgConnState::new();
    let mut counter: u16 = 0;
    let once = "SELECT 2".once();
    assert!(!once.persistent());
    let mut p = Portal::new(vec![], once.persistent(), 0);
    assert_eq!(p.poll(once.sql(), &mut c, &mut counter), PortalAction::Flush);
    p.flushed();
    assert_eq!(p.poll(once.sql(), &mut c, &mut counter), PortalAction::RecvParseComplete);
    p.parse_complete(&mut c);
    assert_eq!(counter, 0);
    let later = prepare("SELECT 2", &[], true, &mut c, &mut counter);
    assert!(!later.cache_hit);
}

#[test]
fn execute_machine_reads_row_count() {
    let mut e = Execute::new();
    assert!(matches!(e.on_message(msg(b'2', b"")), ExecuteStep::Continue));
    assert!(matches!(e.on_message(msg(b'n', b"")), ExecuteStep::Continue));
    assert!(matches!(e.on_message(msg(b'C', b"DELETE 4\0")), ExecuteStep::Continue));
    assert_eq!(e.phase(), ExecutePhase::ReadyForQuery);
    assert!(matches!(e.on_message(msg(b'Z', b"I")), ExecuteStep::Done(4)));
    assert_eq!(e.phase(), ExecutePhase::Complete);
}

#[test]
fn execute_machine_refuses_rows() {
    let mut e = Execute::new();
    assert!(matches!(e.on_message(msg(b'2', b"")), ExecuteStep::Continue));
    match e.on_message(msg(b'T', &[0, 0])) {
        ExecuteStep::Failed(err) => match err.into_kind() {
            ErrorKind::Protocol(p) => assert_eq!(p.message(), "Expected message `NoData` found `RowDescription`"),
            other => panic!("unexpected {other:?}"),
        },
        other => panic!("unexpected {other:?}"),
    }
}

#[test]
fn query_builder_binds_in_order() {
    let q = query::<_, _, (i32,)>("SELECT $1, $2", ()).bind(1i32).bind("two");
    let run = q.fetch_all();
    assert_eq!(run.sql, "SELECT $1, $2");
    assert_eq!(run.portal.phase(), PortalPhase::Prepare);
    let e = qs::query::execute("DELETE FROM t", ()).execute();
    assert_eq!(e.machine.phase(), ExecutePhase::BindComplete);
}
