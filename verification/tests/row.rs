use bytes::Bytes;
use qs::encode::Encode;
use qs::decode::DecodeError as ValueDecodeError;
use qs::row::{Column, DecodeError, FromColumn, FromRow, Row};

fn description(names: &[(&str, u32)]) -> Vec<u8> {
    let mut v = (names.len() as u16).to_be_bytes().to_vec();
    for (name, oid) in names {
        v.extend_from_slice(name.as_bytes());
        v.push(0);
        v.extend_from_slice(&[0, 0, 0, 0, 0, 0]);
        v.extend_from_slice(&oid.to_be_bytes());
        v.extend_from_slice(&[0, 4, 0, 0, 0, 0, 0, 1]);
    }
    v
}

fn data(values: &[&[u8]]) -> Vec<u8> {
    let mut v = (values.len() as u16).to_be_bytes().to_vec();
    for value in values {
        v.extend_from_slice(&(value.len() as u32).to_be_bytes());
        v.extend_from_slice(value);
    }
    v
}

fn row(names: &[(&str, u32)], values: &[&[u8]]) -> Row {
    let desc = Row::new(Bytes::from(description(names)));
    desc.inner_clone(Bytes::from(data(values)))
}

#[test]
fn columns_by_index_and_name() {
    let r = row(&[("id", 23), ("name", 25)], &[&42i32.to_be_bytes(), b"ann"]);
    assert_eq!(r.len(), 2);
    assert!(!r.is_empty());
    let id: i32 = r.try_get::<usize, i32>(0).unwrap();
    assert_eq!(id, 42);
    let name: String = r.try_get::<&str, String>("name").unwrap();
    assert_eq!(name, "ann");
    let (a, b) = <(i32, String)>::from_row(r).unwrap();
    assert_eq!((a, b.as_str()), (42, "ann"));
}

#[test]
fn missing_column_and_wrong_type() {
    let r = row(&[("id", 23)], &[&1i32.to_be_bytes()]);
    assert!(matches!(r.try_get::<usize, i32>(3), Err(DecodeError::ColumnNotFound)));
    assert!(matches!(r.try_get::<&str, i32>("nope"), Err(DecodeError::ColumnNotFound)));
    assert!(matches!(r.try_get::<usize, String>(0), Err(DecodeError::OidMissmatch)));
}

#[test]
fn invalid_utf8_is_a_decode_error() {
    let r = row(&[("s", 25)], &[&[0xff, 0xfe]]);
    assert!(matches!(r.try_get::<usize, String>(0), Err(DecodeError::Utf8(_))));
}

#[test]
fn decodability_is_checked_before_decoding() {
    let short = row(&[("id", 23)], &[&[1, 2]]);
    assert!(!short.column_decodable::<i32>(0));
    assert!(!<(i32,)>::accepts(&short));
    assert!(short.column_decodable::<String>(0));
    assert!(short.column_decodable::<i32>(5));
    assert!(<i32 as FromColumn>::decodable(25, &[]));
    assert!(!<i32 as FromColumn>::decodable(23, &[0, 0]));
}

#[test]
fn column_parts() {
    let c = Column::new(25, Bytes::from_static(b"v"));
    assert_eq!(c.oid(), 25);
    assert_eq!(c.as_slice(), b"v");
    assert_eq!(&c.value()[..], b"v");
}

#[test]
fn decode_error_messages() {
    assert_eq!(DecodeError::ColumnNotFound.message(), "Failed to decode value, column not found");
    assert_eq!(DecodeError::OidMissmatch.message(), "Failed to decode value, data type missmatch");
    assert_eq!(ValueDecodeError::FieldNotFound.message(), "Failed to decode value, field not found");
    assert_eq!(ValueDecodeError::IndexOutOfBound.message(), "Failed to decode value, index out of bounds");
}

#[test]
fn bound_values_decode_back() {
    let e = (-77i32).encode();
    let c = Column::new(e.oid(), Bytes::copy_from_slice(e.chunk()));
    assert_eq!(<i32 as FromColumn>::decode(c).unwrap(), -77);
    let s = String::from("grüß");
    let e = (&s).encode();
    let c = Column::new(e.oid(), Bytes::copy_from_slice(e.chunk()));
    assert_eq!(<String as FromColumn>::decode(c).unwrap(), s);
}
