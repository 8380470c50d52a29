use bytes::Bytes;
use qs::postgres::backend::{BackendMessage, BackendProtocol};
use qs::query::fetch::{FetchOneStep, FetchStep, StreamPhase};
use qs::query::{Fetch, FetchAll, FetchOne, FetchStream};
use qs::row::FromRow;
use qs::ErrorKind;

fn msg(t: u8, body: &[u8]) -> BackendMessage {
    BackendMessage::decode(t, Bytes::copy_from_slice(body)).unwrap()
}

/// A description of one column named `n` of type `oid`.
fn description(oid: u32) -> Vec<u8> {
    let mut v = vec![0, 1];
    v.extend_from_slice(b"n\0");
    v.extend_from_slice(&[0, 0, 0, 0, 0, 0]);
    v.extend_from_slice(&oid.to_be_bytes());
    v.extend_from_slice(&[0, 4, 0, 0, 0, 0, 0, 1]);
    v
}

fn data_row(value: &[u8]) -> Vec<u8> {
    let mut v = vec![0, 1];
    v.extend_from_slice(&(value.len() as u32).to_be_bytes());
    v.extend_from_slice(value);
    v
}

#[test]
fn fetch_hands_out_rows_until_ready() {
    let mut f = Fetch::new();
    for m in [msg(b'2', b""), msg(b'T', &description(23))] {
        assert!(f.accepts(&m));
        assert!(matches!(f.on_message(m), FetchStep::Continue));
    }
    let row = msg(b'D', &data_row(&5i32.to_be_bytes()));
    assert!(f.accepts(&row));
    match f.on_message(row) {
        FetchStep::Row(r) => {
            assert!(<(i32,)>::accepts(&r));
            let (v,) = <(i32,)>::from_row(r).unwrap();
            assert_eq!(v, 5);
        }
        other => panic!("unexpected {other:?}"),
    }
    assert!(matches!(f.on_message(msg(b'C', b"SELECT 1\0")), FetchStep::Continue));
    assert!(matches!(f.on_message(msg(b'Z', b"I")), FetchStep::Done));
    assert!(matches!(f.on_message(msg(b'Z', b"I")), FetchStep::Done));
}

#[test]
fn fetch_needs_a_description_before_rows() {
    let f = Fetch::new();
    assert!(!f.accepts(&msg(b'D', &data_row(b"x"))));
}

#[test]
fn fetch_refuses_messages_out_of_place() {
    let mut f = Fetch::new();
    match f.on_message(msg(b'K', &[0; 8])) {
        FetchStep::Failed(e) => match e.into_kind() {
            ErrorKind::Protocol(p) => assert_eq!(p.message(), "Unexpected message `BackendKeyData` in `extended query`"),
            other => panic!("unexpected {other:?}"),
        },
        other => panic!("unexpected {other:?}"),
    }
    assert!(matches!(f.on_message(msg(b'Z', b"I")), FetchStep::Done));
}

#[test]
fn fetch_stream_phases() {
    let mut f = FetchStream::new();
    assert!(matches!(f.on_message(msg(b'2', b"")), FetchStep::Continue));
    let rd = msg(b'T', &description(25));
    assert!(f.accepts(&rd));
    assert!(matches!(f.on_message(rd), FetchStep::Continue));
    let dr = msg(b'D', &data_row(b"hello"));
    assert!(f.accepts(&dr));
    match f.on_message(dr) {
        FetchStep::Row(r) => {
            let s: String = r.try_get::<&str, String>("n").unwrap();
            assert_eq!(s, "hello");
        }
        other => panic!("unexpected {other:?}"),
    }
    // a row of another width does not fit the description
    assert!(!f.accepts(&msg(b'D', &[0, 2])));
    assert!(matches!(f.on_message(msg(b's', b"")), FetchStep::Continue));
    assert!(matches!(f.on_message(msg(b'Z', b"I")), FetchStep::Done));
    assert!(matches!(f.on_message(msg(b'Z', b"I")), FetchStep::Done));
}

#[test]
fn fetch_stream_refuses_no_data() {
    let mut f = FetchStream::new();
    assert!(matches!(f.on_message(msg(b'2', b"")), FetchStep::Continue));
    assert!(matches!(f.on_message(msg(b'n', b"")), FetchStep::Failed(_)));
    // the description is still awaited
    assert_eq!(f.phase(), StreamPhase::RowDescription);
    assert!(matches!(f.on_message(msg(b'T', &description(23))), FetchStep::Continue));
    assert_eq!(f.phase(), StreamPhase::DataRow);
    let mut g = FetchStream::new();
    assert!(matches!(g.on_message(msg(b'2', b"")), FetchStep::Continue));
    assert!(matches!(g.on_message(msg(b'T', &description(23))), FetchStep::Continue));
    match g.on_message(msg(b'1', b"")) {
        FetchStep::Failed(e) => match e.into_kind() {
            ErrorKind::Protocol(p) => assert_eq!(p.message(), "Unexpected message `ParseComplete` in `fetching rows`"),
            other => panic!("unexpected {other:?}"),
        },
        other => panic!("unexpected {other:?}"),
    }
}

#[test]
fn fetch_all_keeps_order() {
    let mut all = FetchAll::<i32>::new();
    assert!(all.on_next(Some(1)).is_none());
    assert!(all.on_next(Some(2)).is_none());
    assert!(all.on_next(Some(3)).is_none());
    assert_eq!(all.on_next(None), Some(vec![1, 2, 3]));
}

#[test]
fn fetch_one_takes_the_single_row() {
    let mut one = FetchOne::<i32>::new();
    assert!(!one.has_row());
    assert!(matches!(one.on_next(Some(9)), FetchOneStep::Continue));
    assert!(one.has_row());
    assert!(matches!(one.on_next(None), FetchOneStep::Done(9)));
}

#[test]
fn fetch_one_without_a_row_is_an_error() {
    let mut one = FetchOne::<i32>::new();
    match one.on_next(None) {
        FetchOneStep::Failed(e) => {
            assert_eq!(e.message(), "No row found");
            assert!(matches!(e.into_kind(), ErrorKind::RowNotFound));
        }
        other => panic!("unexpected {other:?}"),
    }
    assert!(!one.has_row());
}
