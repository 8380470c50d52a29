use bytes::{BufMut, BytesMut};
use qs::connection::state::{
    check_frame, check_stream_front, decode_message, split_message, stream_recv_step, Frame,
    PgConnState, ReadyStep, RecvStep,
};
use qs::postgres::backend::ReadyForQuery;
use qs::postgres::frontend::{Sync, Terminate};
use qs::statement::StatementName;
use qs::ErrorKind;

fn message(t: u8, body: &[u8]) -> Vec<u8> {
    let mut v = vec![t];
    v.extend_from_slice(&((4 + body.len()) as i32).to_be_bytes());
    v.extend_from_slice(body);
    v
}

#[test]
fn split_waits_for_header_and_body() {
    let mut buf = BytesMut::from(&[b'Z', 0, 0][..]);
    assert!(matches!(split_message(&mut buf), Frame::NeedMore { reserve: 1024 }));
    let mut buf = BytesMut::from(&[b'Z', 0, 0, 0, 5][..]);
    assert!(matches!(split_message(&mut buf), Frame::NeedMore { reserve: 6 }));
    assert_eq!(buf.len(), 5);
}

#[test]
fn split_takes_one_message_and_leaves_the_rest() {
    let mut bytes = message(b'Z', b"I");
    bytes.extend_from_slice(&message(b'2', b""));
    let mut buf = BytesMut::from(&bytes[..]);
    match split_message(&mut buf) {
        Frame::Message { msgtype, body } => {
            assert_eq!(msgtype, b'Z');
            assert_eq!(&body[..], b"I");
        }
        other => panic!("unexpected {other:?}"),
    }
    assert_eq!(&buf[..], &message(b'2', b"")[..]);
}

#[test]
fn frame_check_refuses_short_lengths() {
    let buf = BytesMut::from(&[b'Z', 0, 0, 0, 3][..]);
    assert!(!check_frame(&buf));
    let buf = BytesMut::from(&[b'Z', 0xff, 0xff, 0xff, 0xff][..]);
    assert!(!check_frame(&buf));
    let buf = BytesMut::from(&message(b'Z', b"I")[..]);
    assert!(check_frame(&buf));
}

#[test]
fn send_appends_frames() {
    let mut c = PgConnState::new();
    c.send(Sync);
    c.send(Terminate);
    assert_eq!(&c.write_buf[..], &[b'S', 0, 0, 0, 4, b'X', 0, 0, 0, 4]);
    assert_eq!(c.sync_pending(), 0);
}

#[test]
fn ready_step_settles_pending_syncs() {
    let mut c = PgConnState::new();
    assert!(matches!(c.ready_step(), ReadyStep::Done));
    c.ready_request();
    assert_eq!(c.sync_pending(), 1);
    assert!(matches!(c.ready_step(), ReadyStep::ReadMore));
    c.read_buf.put_slice(&message(b'E', b"\0"));
    c.read_buf.put_slice(&message(b'N', b"\0"));
    c.read_buf.put_slice(&message(b'C', b"SELECT 1\0"));
    c.read_buf.put_slice(&message(b'Z', b"I"));
    c.read_buf.put_slice(&message(b'Z', b"I"));
    // the error queues a Sync, which owes one more ReadyForQuery
    assert!(matches!(c.ready_step(), ReadyStep::Error(_)));
    assert_eq!(c.sync_pending(), 2);
    assert_eq!(&c.write_buf[..], &[b'S', 0, 0, 0, 4]);
    assert!(matches!(c.ready_step(), ReadyStep::Notice(_)));
    assert!(matches!(c.ready_step(), ReadyStep::Skipped));
    assert!(matches!(c.ready_step(), ReadyStep::Skipped));
    assert_eq!(c.sync_pending(), 1);
    assert!(matches!(c.ready_step(), ReadyStep::Skipped));
    assert_eq!(c.sync_pending(), 0);
    assert!(matches!(c.ready_step(), ReadyStep::Done));
    assert!(c.read_buf.is_empty());
}

#[test]
fn recv_step_turns_errors_into_database_errors() {
    let mut c = PgConnState::new();
    c.read_buf.put_slice(&message(b'E', b"SFATAL\0\0"));
    match c.recv_step() {
        RecvStep::Failed(e) => match e.into_kind() {
            ErrorKind::Database(d) => assert_eq!(&d.body[..], b"SFATAL\0\0"),
            other => panic!("unexpected {other:?}"),
        },
        other => panic!("unexpected {other:?}"),
    }
    assert_eq!(c.sync_pending(), 1);
    assert_eq!(&c.write_buf[..], &[b'S', 0, 0, 0, 4]);
}

#[test]
fn recv_step_hands_out_other_messages() {
    let mut c = PgConnState::new();
    c.read_buf.put_slice(&message(b'N', b"\0"));
    c.read_buf.put_slice(&message(b'Z', b"T"));
    assert!(matches!(c.recv_step(), RecvStep::Notice(_)));
    match c.recv_step() {
        RecvStep::Message { msgtype, body } => {
            let r: ReadyForQuery = decode_message(msgtype, body).unwrap();
            assert_eq!(r.tx_status, b'T');
        }
        other => panic!("unexpected {other:?}"),
    }
    assert!(matches!(c.recv_step(), RecvStep::ReadMore));
}

#[test]
fn stream_step_sends_no_sync() {
    let mut buf = BytesMut::from(&message(b'E', b"\0")[..]);
    assert!(check_stream_front(&buf));
    assert!(matches!(stream_recv_step(&mut buf), RecvStep::Failed(_)));
    let buf = BytesMut::from(&message(b'N', b"\0")[..]);
    assert!(!check_stream_front(&buf));
}

#[test]
fn statement_cache_hit_after_add() {
    let mut c = PgConnState::new();
    assert!(c.get_stmt(42).is_none());
    c.add_stmt(42, StatementName::from_id(3));
    let n = c.get_stmt(42).unwrap();
    assert_eq!(n.as_str(), "_qs3__");
    assert!(c.write_buf.is_empty());
}

#[test]
fn statement_cache_evicts_least_recently_used() {
    let mut c = PgConnState::new();
    for id in 0..24u16 {
        c.add_stmt(id as u64, StatementName::from_id(id));
    }
    assert!(c.write_buf.is_empty());
    // touching 0 makes 1 the least recently used
    assert!(c.get_stmt(0).is_some());
    c.add_stmt(100, StatementName::from_id(100));
    assert!(c.get_stmt(1).is_none());
    assert!(c.get_stmt(0).is_some());
    assert_eq!(c.sync_pending(), 1);
    let mut close = vec![b'C', 0, 0, 0, 12, b'S'];
    close.extend_from_slice(b"_qs1__\0");
    close.extend_from_slice(&[b'S', 0, 0, 0, 4]);
    assert_eq!(&c.write_buf[..], &close[..]);
}

#[test]
fn a_written_message_is_read_back() {
    let mut c = PgConnState::new();
    c.send(qs::postgres::frontend::Query { sql: "SELECT 1" });
    c.send(Sync);
    let mut buf = c.write_buf.clone();
    match split_message(&mut buf) {
        Frame::Message { msgtype, body } => {
            assert_eq!(msgtype, b'Q');
            assert_eq!(&body[..], b"SELECT 1\0");
        }
        other => panic!("unexpected {other:?}"),
    }
    assert!(matches!(split_message(&mut buf), Frame::Message { msgtype: b'S', .. }));
    assert!(buf.is_empty());
}
