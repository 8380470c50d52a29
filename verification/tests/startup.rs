use std::borrow::Cow;

use bytes::Bytes;
use qs::connection::startup::StartupConfig;
use qs::connection::state::PgConnState;
use qs::postgres::backend::{BackendMessage, BackendProtocol};
use qs::protocol::{begin_simple_query, simple_query_step, SimpleStep, Startup, StartupStep};
use qs::ErrorKind;

fn msg(t: u8, body: &[u8]) -> BackendMessage {
    BackendMessage::decode(t, Bytes::copy_from_slice(body)).unwrap()
}

#[test]
fn startup_with_clear_text_password() {
    let cfg = StartupConfig::new(Cow::Borrowed("u")).set_password(Cow::Borrowed("pw"));
    let mut c = PgConnState::new();
    let mut s = Startup::begin(&cfg, &mut c);
    let mut expect_body = 196608i32.to_be_bytes().to_vec();
    expect_body.extend_from_slice(b"user\0u\0\0");
    let mut expect = ((4 + expect_body.len()) as i32).to_be_bytes().to_vec();
    expect.extend_from_slice(&expect_body);
    assert_eq!(&c.write_buf[..], &expect[..]);
    c.write_buf.clear();

    assert!(matches!(s.on_message(msg(b'R', &[0, 0, 0, 3]), &cfg, &mut c), StartupStep::Flush));
    assert_eq!(&c.write_buf[..], &[b'p', 0, 0, 0, 7, b'p', b'w', 0]);
    assert!(matches!(s.on_message(msg(b'R', &[0, 0, 0, 0]), &cfg, &mut c), StartupStep::Continue));
    assert!(matches!(s.on_message(msg(b'S', b"a\0b\0"), &cfg, &mut c), StartupStep::Continue));
    assert!(matches!(s.on_message(msg(b'N', b"\0"), &cfg, &mut c), StartupStep::Notice(_)));
    let z = msg(b'Z', b"I");
    assert!(!s.accepts(&z));
    assert!(matches!(s.on_message(msg(b'K', &[0, 0, 0, 1, 0, 0, 0, 2]), &cfg, &mut c), StartupStep::Continue));
    assert!(s.accepts(&z));
    match s.on_message(z, &cfg, &mut c) {
        StartupStep::Done(r) => {
            assert_eq!(r.backend_key_data.process_id, 1);
            assert_eq!(r.backend_key_data.secret_key, 2);
            assert_eq!(r.param_status.len(), 1);
            assert_eq!(r.param_status[0].name.as_str(), "a");
        }
        _ => panic!("unexpected outcome"),
    }
}

#[test]
fn startup_without_password_sends_empty() {
    let cfg = StartupConfig::new(Cow::Borrowed("u"));
    let mut c = PgConnState::new();
    let mut s = Startup::begin(&cfg, &mut c);
    c.write_buf.clear();
    assert!(matches!(s.on_message(msg(b'R', &[0, 0, 0, 3]), &cfg, &mut c), StartupStep::Flush));
    assert_eq!(&c.write_buf[..], &[b'p', 0, 0, 0, 5, 0]);
}

#[test]
fn startup_refuses_other_authentication() {
    let cfg = StartupConfig::new(Cow::Borrowed("u"));
    let mut c = PgConnState::new();
    let mut s = Startup::begin(&cfg, &mut c);
    match s.on_message(msg(b'R', &[0, 0, 0, 5, 1, 2, 3, 4]), &cfg, &mut c) {
        StartupStep::Failed(e) => {
            assert!(matches!(e.kind(), ErrorKind::UnsupportedAuth));
            assert_eq!(e.message(), "Auth not supported");
        }
        _ => panic!("unexpected outcome"),
    }
}

#[test]
fn startup_refuses_messages_out_of_place() {
    let cfg = StartupConfig::new(Cow::Borrowed("u"));
    let mut c = PgConnState::new();
    let mut s = Startup::begin(&cfg, &mut c);
    assert!(matches!(s.on_message(msg(b'Z', b"I"), &cfg, &mut c), StartupStep::Failed(_)));
    let mut t = Startup::begin(&cfg, &mut c);
    assert!(matches!(t.on_message(msg(b'R', &[0, 0, 0, 0]), &cfg, &mut c), StartupStep::Continue));
    match t.on_message(msg(b'D', &[0, 0]), &cfg, &mut c) {
        StartupStep::Failed(e) => match e.into_kind() {
            ErrorKind::Protocol(p) => assert_eq!(p.message(), "Unexpected message `DataRow` in `startup phase`"),
            _ => panic!("unexpected outcome"),
        },
        _ => panic!("unexpected outcome"),
    }
}

#[test]
fn simple_query_flow() {
    let mut c = PgConnState::new();
    begin_simple_query("SELECT 1", &mut c);
    let mut q = vec![b'Q', 0, 0, 0, 13];
    q.extend_from_slice(b"SELECT 1\0");
    assert_eq!(&c.write_buf[..], &q[..]);
    assert!(matches!(simple_query_step::<()>(msg(b'T', &[0, 0])), SimpleStep::Continue));
    assert!(matches!(simple_query_step::<()>(msg(b'C', b"SELECT 1\0")), SimpleStep::Continue));
    assert!(matches!(simple_query_step::<()>(msg(b'Z', b"I")), SimpleStep::Done(v) if v.is_empty()));
    assert!(matches!(simple_query_step::<()>(msg(b'2', b"")), SimpleStep::Failed(_)));
}
