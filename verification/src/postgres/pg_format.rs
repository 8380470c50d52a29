use vstd::prelude::*;

verus! {

/// Postgres data transmission format.
///
/// In this library, all format uses [`Binary`][b].
///
/// <https://www.postgresql.org/docs/current/protocol-overview.html#PROTOCOL-FORMAT-CODES>
///
/// [b]: PgFormat::Binary
#[derive(Debug, Clone, Copy, PartialEq, Eq, Structural)]
pub enum PgFormat {
    /// Text has format code zero.
    ///
    /// In the text transmitted representation, there is no trailing null character;
    /// the frontend must add one to received values if it wants to process them as C strings.
    Text,
    /// Binary has format code one.
    ///
    /// Binary representations for integers use network byte order (most significant byte first).
    Binary,
}

impl PgFormat {
    /// The format code of `self` on the wire.
    pub open spec fn spec_format_code(self) -> u16 {
        match self {
            PgFormat::Text => 0,
            PgFormat::Binary => 1,
        }
    }

    /// Return format code for current format.
    pub fn format_code(&self) -> (r: u16)
        ensures
            r == self.spec_format_code(),
    {
        match self {
            PgFormat::Text => 0,
            PgFormat::Binary => 1,
        }
    }
}

} // verus!
