use qs::statement::{next_stmt_name, StatementName};

#[test]
fn unnamed_statement_is_empty() {
    let n = StatementName::unnamed();
    assert!(n.is_unnamed());
    assert_eq!(n.as_str(), "");
}

#[test]
fn counter_names_are_padded() {
    let mut counter: u16 = 0;
    let a = next_stmt_name(&mut counter);
    assert_eq!(a.as_str(), "_qs0__");
    assert_eq!(counter, 1);
    let mut counter: u16 = 1234;
    let b = next_stmt_name(&mut counter);
    assert_eq!(b.as_str(), "_qs123");
}
