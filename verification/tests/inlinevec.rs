use qs::common::InlineVec;

#[test]
fn push_pop_inline_and_spilled() {
    let mut v: InlineVec<u32, 2> = InlineVec::new();
    assert!(v.is_empty());
    v.push(1);
    v.push(2);
    v.push(3);
    assert_eq!(v.len(), 3);
    assert_eq!(v.as_slice(), &[1, 2, 3]);
    assert_eq!(v.pop(), Some(3));
    assert_eq!(v.pop(), Some(2));
    assert_eq!(v.pop(), Some(1));
    assert_eq!(v.pop(), None);
}

#[test]
fn with_capacity_and_iteration_order() {
    let mut v: InlineVec<String, 4> = InlineVec::with_capacity(10);
    v.push(String::from("a"));
    v.push(String::from("b"));
    let mut it = v.into_iter();
    assert_eq!(it.len(), 2);
    assert_eq!(it.next().as_deref(), Some("a"));
    assert_eq!(it.next().as_deref(), Some("b"));
    assert_eq!(it.next(), None);
    let d: InlineVec<u8, 1> = InlineVec::default();
    assert_eq!(d.len(), 0);
}
