use vstd::prelude::*;

verus! {

/// Postgres object identifier of a data type.
pub type Oid = u32;

/// A Rust type with a postgres data type.
pub trait PgType {
    /// The object ID of the postgres type.
    fn oid() -> (r: Oid)
        ensures
            r == Self::spec_oid(),
    ;

    spec fn spec_oid() -> Oid;
}

impl PgType for () {
    open spec fn spec_oid() -> Oid {
        0
    }

    fn oid() -> (r: Oid) {
        0
    }
}

impl PgType for bool {
    open spec fn spec_oid() -> Oid {
        16
    }

    fn oid() -> (r: Oid) {
        16
    }
}

impl PgType for i32 {
    open spec fn spec_oid() -> Oid {
        23
    }

    fn oid() -> (r: Oid) {
        23
    }
}

impl PgType for str {
    open spec fn spec_oid() -> Oid {
        25
    }

    fn oid() -> (r: Oid) {
        25
    }
}

impl PgType for String {
    open spec fn spec_oid() -> Oid {
        25
    }

    fn oid() -> (r: Oid) {
        25
    }
}

} // verus!
