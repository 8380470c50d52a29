//! Sql string operation.
use vstd::prelude::*;
use vstd::string::StringSliceAdditionalSpecFns;

verus! {

/// Type that represent sql string.
pub trait Sql {
    /// The bytes of the sql string.
    spec fn spec_sql(&self) -> Seq<u8>;

    /// Whether the statement is to be cached.
    spec fn spec_persistent(&self) -> bool;

    /// Returns sql string.
    fn sql(&self) -> (r: &str)
        ensures
            r.spec_bytes() == self.spec_sql(),
    ;

    /// Return `true` if current statement should be cached.
    fn persistent(&self) -> (r: bool)
        ensures
            r == self.spec_persistent(),
    ;
}

impl<'s> Sql for &'s str {
    open spec fn spec_sql(&self) -> Seq<u8> {
        (*self).spec_bytes()
    }

    open spec fn spec_persistent(&self) -> bool {
        true
    }

    fn sql(&self) -> (r: &str) {
        *self
    }

    fn persistent(&self) -> (r: bool) {
        true
    }
}

/// Non persistent query string.
#[derive(Debug)]
pub struct SqlOnce<'sql>(&'sql str);

impl<'sql> SqlOnce<'sql> {
    /// The query string.
    pub closed spec fn text(&self) -> Seq<u8> {
        self.0.spec_bytes()
    }
}

impl<'sql> Sql for SqlOnce<'sql> {
    open spec fn spec_sql(&self) -> Seq<u8> {
        self.text()
    }

    open spec fn spec_persistent(&self) -> bool {
        false
    }

    fn sql(&self) -> (r: &str) {
        self.0
    }

    fn persistent(&self) -> (r: bool) {
        false
    }
}

/// Extension trait for easier query persistence config.
pub trait SqlExt<'a>: Sized {
    /// The query string.
    spec fn spec_text(&self) -> Seq<u8>;

    /// Disable statement caching.
    fn once(self) -> (r: SqlOnce<'a>)
        ensures
            r.text() == self.spec_text(),
    ;
}

impl<'a> SqlExt<'a> for &'a str {
    open spec fn spec_text(&self) -> Seq<u8> {
        (*self).spec_bytes()
    }

    fn once(self) -> (r: SqlOnce<'a>) {
        SqlOnce(self)
    }
}

impl<'a> SqlExt<'a> for SqlOnce<'a> {
    open spec fn spec_text(&self) -> Seq<u8> {
        self.text()
    }

    fn once(self) -> (r: SqlOnce<'a>) {
        self
    }
}

} // verus!
