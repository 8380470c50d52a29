use qs::encode::{Encode, Encoded, ValueRef};

#[test]
fn null_has_oid_zero_and_no_bytes() {
    let n = Encoded::null();
    assert!(n.is_null());
    assert_eq!(n.oid(), 0);
    assert_eq!(n.remaining(), 0);
    assert_eq!(n.size(), -1);
}

#[test]
fn slices_keep_their_oid() {
    let data = [1u8, 2, 3];
    let e = Encoded::from_slice(&data, 17);
    assert_eq!(e.oid(), 17);
    assert_eq!(e.chunk(), &data);
    assert_eq!(e.size(), 3);
}

#[test]
fn copied_values_of_any_length() {
    let e = Encoded::copy_from_slice(&[9, 8], 20);
    assert_eq!(e.chunk(), &[9, 8]);
    let long: Vec<u8> = (0..40).collect();
    let mut l = Encoded::copy_from_slice(&long, 17);
    assert!(matches!(l.value(), ValueRef::Bytes(_)));
    assert_eq!(l.chunk(), &long[..]);
    assert_eq!(l.size(), 40);
    l.advance(30);
    assert_eq!(l.chunk(), &long[30..]);
    let v = ValueRef::copy_from_slice(&[1, 2, 3, 4]);
    assert_eq!(v.len(), 4);
    assert_eq!(v.chunk(), &[1, 2, 3, 4]);
}

#[test]
fn encodings_of_builtin_types() {
    let b = true.encode();
    assert_eq!(b.chunk(), &[1]);
    assert_eq!(b.oid(), 16);
    let i = (-2i32).encode();
    assert_eq!(i.chunk(), &(-2i32).to_be_bytes());
    assert_eq!(i.oid(), 23);
    let s = "hé".encode();
    assert_eq!(s.chunk(), "hé".as_bytes());
    assert_eq!(s.oid(), 25);
    let owned = String::from("x");
    let o = (&owned).encode();
    assert_eq!(o.chunk(), b"x");
    assert_eq!(o.oid(), 25);
}

#[test]
fn advance_drops_leading_bytes() {
    let mut e = Encoded::copy_from_slice(&[1, 2, 3], 20);
    e.advance(1);
    assert_eq!(e.chunk(), &[2, 3]);
    assert_eq!(e.remaining(), 2);
    let data = [4u8, 5, 6];
    let mut s = Encoded::from_slice(&data, 17);
    s.advance(3);
    assert_eq!(s.remaining(), 0);
    assert_eq!(s.oid(), 17);
    let mut v = ValueRef::copy_from_slice(&[7, 8]);
    v.advance(1);
    assert_eq!(v.remaining(), 1);
    assert_eq!(v.chunk(), &[8]);
}
