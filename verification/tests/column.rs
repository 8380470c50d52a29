use bytes::Bytes;
use qs::column::{description_decodable, field_decodable, fields_decodable, Column, ColumnInfo, Index};
use qs::decode::{Decode, DecodeError};
use qs::postgres::backend::{BackendProtocol, RowDescription};

fn field(name: &[u8], oid: u32) -> Vec<u8> {
    let mut v = name.to_vec();
    v.push(0);
    v.extend_from_slice(&[0, 0, 0, 0, 0, 0]);
    v.extend_from_slice(&oid.to_be_bytes());
    v.extend_from_slice(&[0, 4, 0, 0, 0, 0, 0, 1]);
    v
}

#[test]
fn describes_every_field() {
    let mut body = vec![0, 2];
    body.extend_from_slice(&field(b"id", 23));
    body.extend_from_slice(&field(b"name", 25));
    let rd = RowDescription::decode(b'T', Bytes::from(body)).unwrap();
    let cols = ColumnInfo::decode_multi_vec(rd).unwrap();
    assert_eq!(cols.len(), 2);
    assert_eq!(cols[0].field_name(), "id");
    assert_eq!(cols[0].oid(), 23);
    assert_eq!(cols[1].field_name(), "name");
    assert_eq!(cols[1].oid(), 25);
    assert_eq!("name".position(&cols), Some(1));
    assert_eq!("missing".position(&cols), None);
    assert_eq!(1usize.position(&cols), Some(1));
    assert_eq!(2usize.position(&cols), None);
}

#[test]
fn invalid_utf8_name_is_an_error() {
    let mut body = vec![0, 1];
    body.extend_from_slice(&field(&[0xff], 23));
    let rd = RowDescription::decode(b'T', Bytes::from(body)).unwrap();
    assert!(ColumnInfo::decode_multi_vec(rd).is_err());
}

#[test]
fn decode_values_of_columns() {
    let mut body = Bytes::from(field(b"v", 23));
    let info = ColumnInfo::decode(&mut body).unwrap();
    assert!(body.is_empty());
    let col = Column::new(&info, Bytes::copy_from_slice(&(-3i32).to_be_bytes()));
    assert_eq!(i32::decode(col).unwrap(), -3);
    let col = Column::new(&info, Bytes::from_static(b"x"));
    assert!(matches!(String::decode(col), Err(DecodeError::OidMissmatch)));
    assert!(<i32 as Decode>::decodable(23, &[1, 2, 3, 4]));
    assert!(!<i32 as Decode>::decodable(23, &[1]));
    // an int8 column is not an `i32`
    let mut body8 = Bytes::from(field(b"w", 20));
    let info8 = ColumnInfo::decode(&mut body8).unwrap();
    let col = Column::new(&info8, Bytes::copy_from_slice(&[0, 0, 0, 0, 0, 0, 0, 5]));
    assert!(matches!(i32::decode(col), Err(DecodeError::OidMissmatch)));
    let col = Column::new(&info, Bytes::from_static(b"raw"));
    assert_eq!(col.as_slice(), b"raw");
    assert_eq!(&col.into_value()[..], b"raw");
}

#[test]
fn descriptions_are_checked_before_decoding() {
    let mut body = vec![0, 2];
    body.extend_from_slice(&field(b"id", 23));
    body.extend_from_slice(&field(b"name", 25));
    assert!(fields_decodable(&body[2..], 2));
    let rd = RowDescription::decode(b'T', Bytes::from(body.clone())).unwrap();
    assert!(description_decodable(&rd));
    // one field too many, a name without its terminator, a short field
    assert!(!fields_decodable(&body[2..], 3));
    assert!(!field_decodable(b"name"));
    assert!(!field_decodable(b"id\0\0\0"));
    assert!(field_decodable(&field(b"v", 23)));
    // a name that is not UTF-8 is readable: decoding reports it
    assert!(field_decodable(&[0xff, 0]));
    let short = RowDescription::decode(b'T', Bytes::from_static(&[0, 1, b'x'])).unwrap();
    assert!(!description_decodable(&short));
}
