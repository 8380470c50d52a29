use bytes::Bytes;
use qs::postgres::backend::{
    Authentication, BackendKeyData, BackendMessage, BackendProtocol, CommandComplete,
    ParameterStatus, ReadyForQuery,
};
use qs::postgres::ProtocolError;

fn decode(msgtype: u8, body: &[u8]) -> Result<BackendMessage, ProtocolError> {
    assert!(BackendMessage::decodable(msgtype, body));
    BackendMessage::decode(msgtype, Bytes::copy_from_slice(body))
}

#[test]
fn ready_for_query_status() {
    let m = ReadyForQuery::decode(b'Z', Bytes::from_static(b"I")).unwrap();
    assert_eq!(m.tx_status, b'I');
    assert!(matches!(decode(b'Z', b"T"), Ok(BackendMessage::ReadyForQuery(r)) if r.tx_status == b'T'));
}

#[test]
fn backend_key_data_fields() {
    let body = [0, 0, 0, 7, 0, 0, 1, 0];
    let k = BackendKeyData::decode(b'K', Bytes::copy_from_slice(&body)).unwrap();
    assert_eq!(k.process_id, 7);
    assert_eq!(k.secret_key, 256);
}

#[test]
fn backend_key_data_text_hides_the_secret() {
    let k = BackendKeyData { process_id: 4021, secret_key: 99 };
    assert_eq!(k.debug_text(), "BackendKeyData { process_id: 4021, secret_key: \"<REDACTED>\" }");
    let z = BackendKeyData { process_id: 0, secret_key: 1 };
    assert_eq!(z.debug_text(), "BackendKeyData { process_id: 0, secret_key: \"<REDACTED>\" }");
}

#[test]
fn authentication_requests() {
    assert!(matches!(decode(b'R', &[0, 0, 0, 0]), Ok(BackendMessage::Authentication(Authentication::AuthenticationOk))));
    assert!(matches!(decode(b'R', &[0, 0, 0, 3]), Ok(BackendMessage::Authentication(Authentication::CleartextPassword))));
    match decode(b'R', &[0, 0, 0, 5, 1, 2, 3, 4]) {
        Ok(BackendMessage::Authentication(Authentication::MD5Password { salt })) => assert_eq!(salt, [1, 2, 3, 4]),
        _ => panic!("unexpected outcome"),
    }
    // a short MD5 request cannot be decoded
    assert!(!Authentication::decodable(b'R', &[0, 0, 0, 5, 1]));
}

#[test]
fn unknown_authentication_code_is_an_error() {
    match decode(b'R', &[0, 0, 0, 4]) {
        Err(ProtocolError::UnknownAuth { auth }) => assert_eq!(auth, 4),
        _ => panic!("unexpected outcome"),
    }
    match Authentication::decode(b'R', Bytes::from_static(&[0, 0, 1, 0, 9])) {
        Err(ProtocolError::UnknownAuth { auth }) => assert_eq!(auth, 256),
        _ => panic!("unexpected outcome"),
    }
}

#[test]
fn command_complete_tag() {
    let c = CommandComplete::decode(b'C', Bytes::from_static(b"INSERT 0 1\0")).unwrap();
    assert_eq!(c.tag.as_str(), "INSERT 0 1");
    assert!(!CommandComplete::decodable(b'C', b"no terminator"));
}

#[test]
fn parameter_status_pair() {
    let p = ParameterStatus::decode(b'S', Bytes::from_static(b"TimeZone\0UTC\0")).unwrap();
    assert_eq!(p.name.as_str(), "TimeZone");
    assert_eq!(p.value.as_str(), "UTC");
    assert!(!ParameterStatus::decodable(b'S', b"TimeZone\0UTC"));
}

#[test]
fn wrong_type_is_an_unexpected_message() {
    match ReadyForQuery::decode(b'C', Bytes::from_static(b"X")) {
        Err(ProtocolError::Unexpected { expect, found, phase }) => {
            assert_eq!(expect, Some(b'Z'));
            assert_eq!(found, b'C');
            assert_eq!(phase, None);
        }
        _ => panic!("unexpected outcome"),
    }
}

#[test]
fn unknown_type_is_an_unexpected_message() {
    match decode(b'!', b"") {
        Err(ProtocolError::Unexpected { expect, found, phase }) => {
            assert_eq!(expect, None);
            assert_eq!(found, b'!');
            assert_eq!(phase, None);
        }
        _ => panic!("unexpected outcome"),
    }
}

#[test]
fn every_message_type_keeps_its_type_byte() {
    let samples: Vec<(u8, Vec<u8>)> = vec![
        (b'R', vec![0, 0, 0, 0]),
        (b'K', vec![0; 8]),
        (b'2', vec![]),
        (b'3', vec![]),
        (b'C', b"SELECT 1\0".to_vec()),
        (b'D', vec![0, 0]),
        (b'E', vec![0]),
        (b'I', vec![]),
        (b'v', vec![0; 8]),
        (b'n', vec![]),
        (b'N', vec![0]),
        (b't', vec![0, 0]),
        (b'S', b"a\0b\0".to_vec()),
        (b'1', vec![]),
        (b's', vec![]),
        (b'Z', vec![b'I']),
        (b'T', vec![0, 0]),
    ];
    for (t, body) in samples {
        let m = decode(t, &body).unwrap();
        assert_eq!(m.msgtype(), t);
    }
}

#[test]
fn protocol_error_messages() {
    let e = ProtocolError::unexpected(b'Z', b'C');
    assert_eq!(e.message(), "Expected message `ReadyForQuery` found `CommandComplete`");
    let e = ProtocolError::unexpected_phase(b'D', "startup phase");
    assert_eq!(e.message(), "Unexpected message `DataRow` in `startup phase`");
    assert_eq!(BackendMessage::message_name(b'!'), "Unknown");
}

#[test]
fn ready_for_query_status_names() {
    let name = |s: &'static [u8]| ReadyForQuery::decode(b'Z', Bytes::from_static(s)).unwrap().status_name();
    assert_eq!(name(b"I"), "Idle(I)");
    assert_eq!(name(b"T"), "Transaction(T)");
    assert_eq!(name(b"E"), "FailedTx(E)");
    assert_eq!(name(b"?"), "unknown");
}
