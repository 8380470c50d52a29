use bytes::BytesMut;
use qs::encode::{Encode, Encoded};
use qs::postgres::frontend::{
    Bind, Close, Describe, Execute, Flush, Parse, PasswordMessage, Query, Startup, Sync,
    Terminate,
};
use qs::ext::{BufMutExt, BytesExt};
use qs::postgres::{FrontendProtocol, PgFormat};

fn written<F: qs::postgres::FrontendProtocol>(msg: F) -> Vec<u8> {
    let mut buf = BytesMut::new();
    qs::postgres::frontend::write(msg, &mut buf);
    buf.to_vec()
}

#[test]
fn sync_and_flush_frames() {
    assert_eq!(written(Sync), vec![b'S', 0, 0, 0, 4]);
    assert_eq!(written(Flush), vec![b'H', 0, 0, 0, 4]);
    assert_eq!(written(Terminate), vec![b'X', 0, 0, 0, 4]);
}

#[test]
fn query_frame_counts_itself() {
    let bytes = written(Query { sql: "SELECT 1" });
    let mut expect = vec![b'Q', 0, 0, 0, 13];
    expect.extend_from_slice(b"SELECT 1\0");
    assert_eq!(bytes, expect);
}

#[test]
fn password_message_frame() {
    let bytes = written(PasswordMessage { password: "pw" });
    assert_eq!(bytes, vec![b'p', 0, 0, 0, 7, b'p', b'w', 0]);
}

#[test]
fn parse_frame_lists_oids() {
    let oids = [23i32, 25];
    let bytes = written(Parse { prepare_name: "_qs0__", sql: "SELECT $1", data_types_len: 2, data_types: &oids });
    let mut expect = vec![b'P'];
    let mut body = Vec::new();
    body.extend_from_slice(b"_qs0__\0");
    body.extend_from_slice(b"SELECT $1\0");
    body.extend_from_slice(&[0, 2]);
    body.extend_from_slice(&23i32.to_be_bytes());
    body.extend_from_slice(&25i32.to_be_bytes());
    expect.extend_from_slice(&((4 + body.len()) as i32).to_be_bytes());
    expect.extend_from_slice(&body);
    assert_eq!(bytes, expect);
}

#[test]
fn bind_frame_writes_null_as_minus_one() {
    let params = [7i32.encode(), Encoded::null()];
    let formats = [PgFormat::Binary];
    let bytes = written(Bind {
        portal_name: "",
        stmt_name: "",
        param_formats_len: 1,
        param_formats: &formats,
        params_len: 2,
        params: &params,
        result_formats_len: 1,
        result_formats: &formats,
    });
    let mut body = vec![0, 0, 0, 1, 0, 1, 0, 2];
    body.extend_from_slice(&4i32.to_be_bytes());
    body.extend_from_slice(&7i32.to_be_bytes());
    body.extend_from_slice(&(-1i32).to_be_bytes());
    body.extend_from_slice(&[0, 1, 0, 1]);
    let mut expect = vec![b'B'];
    expect.extend_from_slice(&((4 + body.len()) as i32).to_be_bytes());
    expect.extend_from_slice(&body);
    assert_eq!(bytes, expect);
}

#[test]
fn close_describe_execute_frames() {
    assert_eq!(written(Close { variant: b'S', name: "_qs1__" }), {
        let mut v = vec![b'C', 0, 0, 0, 12, b'S'];
        v.extend_from_slice(b"_qs1__\0");
        v
    });
    assert_eq!(written(Describe { kind: b'P', name: "" }), vec![b'D', 0, 0, 0, 6, b'P', 0]);
    assert_eq!(written(Execute { portal_name: "", max_row: 0 }), vec![b'E', 0, 0, 0, 9, 0, 0, 0, 0, 0]);
}

#[test]
fn startup_message_layout() {
    let mut buf = BytesMut::new();
    Startup { user: "postgres", database: Some("app"), replication: None }.write(&mut buf);
    let mut body = Vec::new();
    body.extend_from_slice(&196608i32.to_be_bytes());
    body.extend_from_slice(b"user\0postgres\0database\0app\0\0");
    let mut expect = ((4 + body.len()) as i32).to_be_bytes().to_vec();
    expect.extend_from_slice(&body);
    assert_eq!(buf.to_vec(), expect);
}

#[test]
fn pg_format_codes() {
    assert_eq!(PgFormat::Text.format_code(), 0);
    assert_eq!(PgFormat::Binary.format_code(), 1);
}

#[test]
fn bind_size_hint_is_the_sum_of_its_parts() {
    let params = [7i32.encode(), "hello".encode()];
    let formats = [PgFormat::Binary];
    let m = Bind {
        portal_name: "p",
        stmt_name: "_qs1__",
        param_formats_len: 1,
        param_formats: &formats,
        params_len: 2,
        params: &params,
        result_formats_len: 1,
        result_formats: &formats,
    };
    let expect = 2 + 7 + 2 + 2 + 2 + (4 + 4) + (4 + 5) + 2 + 2;
    assert_eq!(m.size_hint(), expect);
    let mut buf = BytesMut::new();
    m.encode(&mut buf);
    assert_eq!(buf.len() as i32, expect);
}

#[test]
fn nul_string_reads_back_what_was_written() {
    let mut buf = BytesMut::new();
    buf.put_nul_string("héllo");
    buf.extend_from_slice(b"rest");
    let mut b = buf.freeze();
    assert_eq!(b.get_nul_string(), "héllo");
    assert_eq!(&b[..], b"rest");
}
