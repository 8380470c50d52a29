use qs::connection::ConfigError;
use qs::postgres::ProtocolError;
use qs::row::DecodeError;
use qs::{Error, ErrorKind};

#[test]
fn error_messages_of_the_library() {
    assert_eq!(Error::new(ErrorKind::UnsupportedAuth).message(), "Auth not supported");
    assert_eq!(Error::new(ErrorKind::MissmatchDataType).message(), "Missmatch datatype");
    assert_eq!(Error::new(ErrorKind::ColumnIndexOutOfBounds).message(), "Column index out of bounds");
    assert_eq!(
        Error::new(ErrorKind::Config(ConfigError::Parse("invalid port"))).message(),
        "Configuration error: Config error: invalid port"
    );
}

#[test]
fn error_keeps_its_kind() {
    let e = Error::new(ErrorKind::MissmatchDataType);
    assert!(matches!(e.kind(), ErrorKind::MissmatchDataType));
    assert!(matches!(e.into_kind(), ErrorKind::MissmatchDataType));
}

#[test]
fn error_messages_of_protocol_and_decode_errors() {
    let e = Error::new(ErrorKind::Protocol(ProtocolError::unexpected(b'Z', b'C')));
    assert_eq!(e.message(), "Expected message `ReadyForQuery` found `CommandComplete`");
    let e = Error::new(ErrorKind::Protocol(ProtocolError::unexpected_phase(b'K', "fetching rows")));
    assert_eq!(e.message(), "Unexpected message `BackendKeyData` in `fetching rows`");
    let bad = [0xffu8];
    let utf = std::str::from_utf8(&bad).unwrap_err();
    let e = Error::new(ErrorKind::Protocol(ProtocolError::from_utf8_error(utf)));
    assert!(e.message().starts_with("Postgres returns non utf8: "));
    let e = Error::new(ErrorKind::Decode(DecodeError::ColumnNotFound));
    assert_eq!(e.message(), "Failed to decode value, column not found");
    let e = Error::new(ErrorKind::Decode(DecodeError::OidMissmatch));
    assert_eq!(e.message(), "Failed to decode value, data type missmatch");
    let e = Error::new(ErrorKind::Decode(DecodeError::Utf8(utf)));
    assert!(e.message().starts_with("Failed to decode value, "));
}
