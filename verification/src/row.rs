//! Postgres row operation.
//!
//! - [`Row`]
//! - [`Column`]
//! - [`FromRow`]
//! - [`FromColumn`]
//! - [`Index`]
//! - [`DecodeError`]
use bytes::Bytes;
use std::str::Utf8Error;
use vstd::prelude::*;
use vstd::string::StringExecFns;
use vstd::string::StringSliceAdditionalSpecFns;

use crate::encode::{Encode, Encoded};
use crate::buf::{
    be_u16, be_u32, bytes_as_slice, bytes_clone, bytes_get_u16, bytes_get_u32, bytes_new,
    bytes_seq, bytes_split_to, copy_to_vec, read_be_u32,
};
use crate::ext::first_nul;
use crate::postgres::error::utf8_error_text;
use crate::postgres::{Oid, PgType};
use crate::utf8::{from_utf8_error_cause, string_from_utf8};

verus! {

/// Bytes that follow each field name in a `RowDescription`: table object
/// ID, attribute number, data type object ID, data type size, type
/// modifier and format code.
pub const SUFFIX: usize = 18;

/// Offset of the data type object ID after the field name's terminator.
pub const OID_OFFSET: usize = 6;

/// Where the `nth` field (counting from `nth`, searching from `pos`) of a
/// `RowDescription` body ends its name, found by index: the position of
/// the name's terminator and the field number.
pub open spec fn spec_position_index(body: Seq<u8>, pos: int, nth: int, len: int, target: int) -> Option<(int, int)>
    decreases len - nth,
{
    if nth >= len || pos < 0 || pos > body.len() {
        None
    } else {
        match first_nul(body.skip(pos)) {
            None => None,
            Some(j) => {
                let i_nul = pos + j;
                if target == nth {
                    Some((i_nul, nth))
                } else if body.len() - i_nul - 1 < SUFFIX {
                    None
                } else {
                    spec_position_index(body, i_nul + 1 + SUFFIX, nth + 1, len, target)
                }
            },
        }
    }
}

/// Where the field named `name` ends its name, found by name: fields
/// start at `offset`, and the search for a terminator starts at `pos`.
pub open spec fn spec_position_name(body: Seq<u8>, offset: int, pos: int, nth: int, len: int, name: Seq<u8>) -> Option<(int, int)>
    decreases len - nth,
{
    if nth >= len || pos < 0 || pos > body.len() || offset < 0 || offset > pos {
        None
    } else {
        match first_nul(body.skip(pos)) {
            None => None,
            Some(j) => {
                let i_nul = pos + j;
                if body.subrange(offset, i_nul) == name {
                    Some((i_nul, nth))
                } else if body.len() - i_nul - 1 < SUFFIX + 1 {
                    None
                } else {
                    spec_position_name(
                        body,
                        i_nul + 1 + SUFFIX,
                        i_nul + 2 + SUFFIX,
                        nth + 1,
                        len,
                        name,
                    )
                }
            },
        }
    }
}

/// Finds the first zero byte of `s` at or after `pos`.
fn find_nul_from(s: &[u8], pos: usize) -> (r: Option<usize>)
    requires
        pos <= s@.len(),
    ensures
        match r {
            Some(i) => first_nul(s@.skip(pos as int)) == Some(i - pos) && pos <= i < s@.len(),
            None => first_nul(s@.skip(pos as int)) is None,
        },
{
    let mut i: usize = pos;
    while i < s.len()
        invariant
            pos <= i <= s@.len(),
            forall|j: int| pos <= j < i ==> s@[j] != 0,
        decreases s@.len() - i,
    {
        if s[i] == 0 {
            proof {
                let t = s@.skip(pos as int);
                assert forall|j: int| 0 <= j < i - pos implies t[j] != 0 by {
                    assert(t[j] == s@[pos + j]);
                }
                crate::ext::lemma_first_nul_char(t, i - pos);
            }
            return Some(i);
        }
        i = i + 1;
    }
    proof {
        let t = s@.skip(pos as int);
        crate::ext::lemma_first_nul(t);
        if let Some(k) = first_nul(t) {
            assert(t[k] == s@[pos + k]);
        }
    }
    None
}

/// Compares two byte slices.
pub fn slice_eq(a: &[u8], b: &[u8]) -> (r: bool)
    ensures
        r == (a@ == b@),
{
    if a.len() != b.len() {
        return false;
    }
    let mut i: usize = 0;
    while i < a.len()
        invariant
            a@.len() == b@.len(),
            i <= a@.len(),
            forall|j: int| 0 <= j < i ==> a@[j] == b@[j],
        decreases a@.len() - i,
    {
        if a[i] != b[i] {
            return false;
        }
        i = i + 1;
    }
    assert(a@ =~= b@);
    true
}

/// Type that can be used for indexing column.
pub trait Index: Sized + Sealed {
    /// Where the column's name ends in a `RowDescription` body of `len`
    /// fields, and the column's number.
    spec fn spec_position(&self, body: Seq<u8>, len: u16) -> Option<(int, int)>;

    /// Returns (nul string index, nth column).
    fn position(self, body: &[u8], len: u16) -> (r: Option<(usize, u16)>)
        ensures
            match r {
                Some((i, n)) => self.spec_position(body@, len) == Some((i as int, n as int)),
                None => self.spec_position(body@, len) is None,
            },
    ;
}

impl Index for usize {
    open spec fn spec_position(&self, body: Seq<u8>, len: u16) -> Option<(int, int)> {
        spec_position_index(body, 0, 0, len as int, *self as int)
    }

    fn position(self, body: &[u8], len: u16) -> (r: Option<(usize, u16)>) {
        let mut pos: usize = 0;
        let mut nth: u16 = 0;
        while nth < len
            invariant
                pos <= body@.len(),
                nth <= len,
                spec_position_index(body@, 0, 0, len as int, self as int) == spec_position_index(
                    body@,
                    pos as int,
                    nth as int,
                    len as int,
                    self as int,
                ),
            decreases len - nth,
        {
            let i_nul = match find_nul_from(body, pos) {
                Some(i) => i,
                None => {
                    return None;
                },
            };
            if self == nth as usize {
                return Some((i_nul, nth));
            }
            if body.len() - i_nul - 1 < SUFFIX {
                return None;
            }
            pos = i_nul + 1 + SUFFIX;
            nth = nth + 1;
        }
        None
    }
}

impl<'a> Index for &'a str {
    open spec fn spec_position(&self, body: Seq<u8>, len: u16) -> Option<(int, int)> {
        spec_position_name(body, 0, 0, 0, len as int, self.spec_bytes())
    }

    fn position(self, body: &[u8], len: u16) -> (r: Option<(usize, u16)>) {
        let name = self.as_bytes();
        let mut offset: usize = 0;
        let mut pos: usize = 0;
        let mut nth: u16 = 0;
        while nth < len
            invariant
                offset <= pos <= body@.len(),
                nth <= len,
                name@ == self.spec_bytes(),
                spec_position_name(body@, 0, 0, 0, len as int, name@) == spec_position_name(
                    body@,
                    offset as int,
                    pos as int,
                    nth as int,
                    len as int,
                    name@,
                ),
            decreases len - nth,
        {
            let i_nul = match find_nul_from(body, pos) {
                Some(i) => i,
                None => {
                    return None;
                },
            };
            if slice_eq(name, &body[offset..i_nul]) {
                return Some((i_nul, nth));
            }
            if body.len() - i_nul - 1 < SUFFIX + 1 {
                return None;
            }
            offset = i_nul + 1 + SUFFIX;
            pos = offset + 1;
            nth = nth + 1;
        }
        None
    }
}

/// Where the name of field `k` of a `RowDescription` body (the part
/// after the field count) starts: the first name at the start, each next
/// one after the previous name's terminator and the rest of its field.
pub open spec fn field_name_start(body: Seq<u8>, k: nat) -> int
    decreases k, 0int,
{
    if k == 0 {
        0
    } else {
        field_name_end(body, (k - 1) as nat) + 1 + SUFFIX
    }
}

/// Where the name of field `k` ends: at the first zero byte after the
/// name's first byte (at or after the start of the body for the first
/// name), or `-1` when there is none.
pub open spec fn field_name_end(body: Seq<u8>, k: nat) -> int
    decreases k, 1int,
{
    let from = if k == 0 { 0 } else { field_name_start(body, k) + 1 };
    match first_nul(body.skip(from)) {
        Some(j) => from + j,
        None => -1,
    }
}

/// The name of field `k`: the bytes from its start up to its terminator.
pub open spec fn field_name(body: Seq<u8>, k: nat) -> Seq<u8> {
    body.subrange(field_name_start(body, k), field_name_end(body, k))
}

/// The fields up to field `k` can be walked: each of their names is
/// terminated, and each field before `k` is followed by the rest of its
/// field and at least one byte of the next name.
pub open spec fn fields_walkable(body: Seq<u8>, k: nat) -> bool {
    &&& forall|j: nat| j <= k ==> #[trigger] field_name_end(body, j) >= 0
    &&& forall|j: nat| j < k ==> #[trigger] field_name_end(body, j) + SUFFIX + 2 <= body.len()
}

/// Looking a column up by name finds the first field whose whole name is
/// the name asked for.  When [`Index::position`] of `name` in a
/// `RowDescription` body of `len` fields answers `Some((i, n))`, field `n`
/// is one of the `len` fields, its name ends at `i` and is exactly
/// `name` (not merely a name that begins with it), and no earlier field
/// has that name.  And a name is found whenever one of the `len` fields,
/// reachable by walking the fields before it, has it.
pub proof fn law_position_by_name(body: Seq<u8>, len: u16, name: Seq<u8>)
    ensures
        forall|k: nat|
            k < len && fields_walkable(body, k) && #[trigger] field_name(body, k) == name
                ==> spec_position_name(body, 0, 0, 0, len as int, name) is Some,
        spec_position_name(body, 0, 0, 0, len as int, name) matches Some((i, n)) ==> {
            &&& 0 <= n < len
            &&& i == field_name_end(body, n as nat)
            &&& field_name(body, n as nat) == name
            &&& forall|k: nat| k < n ==> #[trigger] field_name(body, k) != name
        },
{
    lemma_position_by_name(body, len as int, name, 0);
    assert forall|k: nat|
        k < len && fields_walkable(body, k) && #[trigger] field_name(body, k) == name implies spec_position_name(
        body,
        0,
        0,
        0,
        len as int,
        name,
    ) is Some by {
        lemma_position_finds(body, len as int, name, 0, k);
    }
}

proof fn lemma_position_finds(body: Seq<u8>, len: int, name: Seq<u8>, nth: nat, k: nat)
    requires
        nth <= k < len,
        fields_walkable(body, k),
        field_name(body, k) == name,
        forall|j: nat| j < nth ==> #[trigger] field_name(body, j) != name,
    ensures
        ({
            let offset = field_name_start(body, nth);
            let pos = if nth == 0 { 0 } else { offset + 1 };
            spec_position_name(body, offset, pos, nth as int, len, name) is Some
        }),
    decreases k - nth,
{
    let offset = field_name_start(body, nth);
    let pos = if nth == 0 { 0 } else { offset + 1 };
    assert(field_name_end(body, nth) >= 0);
    if nth > 0 {
        assert(field_name_end(body, (nth - 1) as nat) >= 0);
        assert(field_name_end(body, (nth - 1) as nat) + SUFFIX + 2 <= body.len());
    }
    assert(first_nul(body.skip(pos)) is Some);
    let j = first_nul(body.skip(pos)).unwrap();
    crate::ext::lemma_first_nul(body.skip(pos));
    let i_nul = pos + j;
    assert(i_nul == field_name_end(body, nth));
    if body.subrange(offset, i_nul) != name {
        assert(field_name(body, nth) != name);
        assert(nth < k);
        assert(field_name_end(body, nth) + SUFFIX + 2 <= body.len());
        assert(field_name_start(body, nth + 1) == i_nul + 1 + SUFFIX);
        lemma_position_finds(body, len, name, nth + 1, k);
    }
}

proof fn lemma_position_by_name(body: Seq<u8>, len: int, name: Seq<u8>, nth: nat)
    ensures
        ({
            let offset = field_name_start(body, nth);
            let pos = if nth == 0 { 0 } else { offset + 1 };
            spec_position_name(body, offset, pos, nth as int, len, name) matches Some((i, n)) ==> {
                &&& nth <= n < len
                &&& i == field_name_end(body, n as nat)
                &&& field_name(body, n as nat) == name
                &&& forall|k: nat| nth <= k < n ==> #[trigger] field_name(body, k) != name
            }
        }),
    decreases len - nth,
{
    let offset = field_name_start(body, nth);
    let pos = if nth == 0 { 0 } else { offset + 1 };
    if nth >= len || pos < 0 || pos > body.len() || offset < 0 || offset > pos {
    } else {
        match first_nul(body.skip(pos)) {
            None => {},
            Some(j) => {
                let i_nul = pos + j;
                assert(field_name_end(body, nth) == i_nul);
                if body.subrange(offset, i_nul) == name {
                } else if body.len() - i_nul - 1 < SUFFIX + 1 {
                } else {
                    assert(field_name_start(body, nth + 1) == i_nul + 1 + SUFFIX);
                    lemma_position_by_name(body, len, name, nth + 1);
                }
            },
        }
    }
}

/// Seals [`Index`].
pub trait Sealed {

}

impl Sealed for usize {

}

impl<'a> Sealed for &'a str {

}

/// The DataRow values before column `nth` are well formed: each has a
/// four byte length and that many bytes, and so does column `nth`.
pub open spec fn values_ok(values: Seq<u8>, nth: int) -> bool
    decreases nth,
{
    &&& values.len() >= 4
    &&& be_u32(values) as int <= values.len() - 4
    &&& nth > 0 ==> values_ok(values.skip(4 + be_u32(values) as int), nth - 1)
}

/// The bytes of DataRow value `nth` (each value: four byte length, bytes).
pub open spec fn value_at(values: Seq<u8>, nth: int) -> Seq<u8>
    decreases nth,
{
    if nth <= 0 {
        values.subrange(4, 4 + be_u32(values) as int)
    } else {
        value_at(values.skip(4 + be_u32(values) as int), nth - 1)
    }
}

/// Where DataRow value `nth` lies in `vals`, when the values up to it are
/// well formed.
fn value_span(vals: &[u8], nth: u16) -> (r: Option<(usize, usize)>)
    ensures
        r is Some <==> values_ok(vals@, nth as int),
        r matches Some((a, b)) ==> a <= b <= vals@.len() && vals@.subrange(a as int, b as int)
            == value_at(vals@, nth as int),
{
    let n = vals.len();
    let mut off: usize = 0;
    let mut k: u16 = 0;
    assert(vals@.skip(0) =~= vals@);
    while k < nth
        invariant
            n == vals@.len(),
            off <= n,
            k <= nth,
            values_ok(vals@, nth as int) == values_ok(vals@.skip(off as int), nth - k),
            values_ok(vals@, nth as int) ==> value_at(vals@, nth as int) == value_at(
                vals@.skip(off as int),
                nth - k,
            ),
        decreases nth - k,
    {
        let ghost t = vals@.skip(off as int);
        if n - off < 4 {
            return None;
        }
        let len = read_be_u32(vstd::slice::slice_subrange(vals, off, off + 4));
        assert(vals@.subrange(off as int, off + 4) =~= t.take(4));
        assert(be_u32(t.take(4)) == be_u32(t));
        if (len as usize) > n - off - 4 {
            return None;
        }
        assert(t.skip(4 + len as int) =~= vals@.skip(off + 4 + len as int));
        off = off + 4 + len as usize;
        k = k + 1;
    }
    let ghost t = vals@.skip(off as int);
    if n - off < 4 {
        return None;
    }
    let len = read_be_u32(vstd::slice::slice_subrange(vals, off, off + 4));
    assert(vals@.subrange(off as int, off + 4) =~= t.take(4));
    assert(be_u32(t.take(4)) == be_u32(t));
    if (len as usize) > n - off - 4 {
        return None;
    }
    assert(vals@.subrange(off + 4, off + 4 + len as int) =~= t.subrange(4, 4 + len as int));
    Some((off + 4, off + 4 + len as usize))
}

/// A row: a `RowDescription` and, once data arrived, a `DataRow`.
#[derive(Debug)]
pub struct Row {
    field_len: u16,
    body: Bytes,
    values: Bytes,
}

impl Row {
    /// Number of fields.
    pub closed spec fn spec_len(&self) -> u16 {
        self.field_len
    }

    /// The `RowDescription` fields, after their count.
    pub closed spec fn spec_body(&self) -> Seq<u8> {
        bytes_seq(self.body)
    }

    /// The `DataRow` values, after their count.
    pub closed spec fn spec_values(&self) -> Seq<u8> {
        bytes_seq(self.values)
    }

    /// A row from a `RowDescription` message body; no values yet.
    /// The body must hold the field count.
    pub fn new(bytes: Bytes) -> (r: Row)
        requires
            bytes_seq(bytes).len() >= 2,
        ensures
            r.spec_len() == be_u16(bytes_seq(bytes)),
            r.spec_body() == bytes_seq(bytes).skip(2),
            r.spec_values() == Seq::<u8>::empty(),
    {
        let mut bytes = bytes;
        let field_len = bytes_get_u16(&mut bytes);
        Row { field_len, body: bytes, values: bytes_new() }
    }

    /// Returns `true` if row contains no columns.
    pub fn is_empty(&self) -> (r: bool)
        ensures
            r == (self.spec_len() == 0),
    {
        self.field_len == 0
    }

    /// Returns the number of fields/column in the row.
    pub fn len(&self) -> (r: u16)
        ensures
            r == self.spec_len(),
    {
        self.field_len
    }

    /// The same description with the values of a `DataRow` message body.
    /// The DataRow's column count must be the description's (it panics
    /// otherwise).
    pub fn inner_clone(&self, bytes: Bytes) -> (r: Row)
        requires
            bytes_seq(bytes).len() >= 2,
            be_u16(bytes_seq(bytes)) == self.spec_len(),
        ensures
            r.spec_len() == self.spec_len(),
            r.spec_body() == self.spec_body(),
            r.spec_values() == bytes_seq(bytes).skip(2),
    {
        let mut bytes = bytes;
        let n = bytes_get_u16(&mut bytes);
        Row { field_len: self.field_len, body: bytes_clone(&self.body), values: bytes }
    }

    /// The column that `try_get` decodes for a column whose name ends at
    /// `nul` and that is value number `nth`.
    pub open spec fn column_ok(&self, nul: int, nth: int) -> bool {
        &&& nul + 1 + OID_OFFSET + 4 <= self.spec_body().len()
        &&& values_ok(self.spec_values(), nth)
    }

    /// Whether column `i` can be taken by `try_get` and decoded as `R`.
    pub fn column_decodable<R: FromColumn>(&self, i: usize) -> (r: bool)
        ensures
            r == can_get::<R>(self, i),
    {
        let body = bytes_as_slice(&self.body);
        let blen = body.len();
        let (nul, nth) = match i.position(body, self.field_len) {
            Some(p) => p,
            None => return true,
        };
        if nul >= blen || blen - nul - 1 < OID_OFFSET + 4 {
            return false;
        }
        let vals = bytes_as_slice(&self.values);
        let (start, end) = match value_span(vals, nth) {
            Some(p) => p,
            None => return false,
        };
        let start_oid = nul + 1 + OID_OFFSET;
        let oid = read_be_u32(vstd::slice::slice_subrange(body, start_oid, start_oid + 4));
        proof {
            assert(body@.subrange(start_oid as int, start_oid + 4).take(4) =~= self.spec_body().skip(
                nul + 1 + OID_OFFSET,
            ).take(4));
        }
        R::decodable(oid, vstd::slice::slice_subrange(vals, start, end))
    }

    /// Try get and decode column.
    ///
    /// Fails with `ColumnNotFound` when the description has no such
    /// column; otherwise decodes the column with `R`.  The description
    /// and the values must be complete for the column found (it panics
    /// otherwise).
    pub fn try_get<I: Index, R: FromColumn>(&self, idx: I) -> (r: Result<R, DecodeError>)
        requires
            idx.spec_position(self.spec_body(), self.spec_len()) matches Some((nul, nth))
                ==> self.column_ok(nul, nth) && R::can_decode(
                be_u32(self.spec_body().skip(nul + 1 + OID_OFFSET)),
                value_at(self.spec_values(), nth),
            ),
        ensures
            match idx.spec_position(self.spec_body(), self.spec_len()) {
                None => r matches Err(DecodeError::ColumnNotFound),
                Some((nul, nth)) => R::decodes(
                    be_u32(self.spec_body().skip(nul + 1 + OID_OFFSET)),
                    value_at(self.spec_values(), nth),
                    r,
                ),
            },
    {
        let body = bytes_as_slice(&self.body);
        let _body_len = body.len();
        let (nul, nth) = match idx.position(body, self.field_len) {
            Some(p) => p,
            None => return Err(DecodeError::ColumnNotFound),
        };
        let ghost target = nth as int;
        let mut i: u16 = 0;
        let mut values = bytes_clone(&self.values);
        while i < nth
            invariant
                i <= nth,
                values_ok(bytes_seq(values), nth - i),
                value_at(self.spec_values(), target) == value_at(bytes_seq(values), nth - i),
            decreases nth - i,
        {
            let ghost before = bytes_seq(values);
            let len = bytes_get_u32(&mut values);
            let _skipped = bytes_split_to(&mut values, len as usize);
            assert(bytes_seq(values) =~= before.skip(4 + be_u32(before) as int));
            i = i + 1;
        }
        let ghost before = bytes_seq(values);
        let len = bytes_get_u32(&mut values);
        let value = bytes_split_to(&mut values, len as usize);
        assert(bytes_seq(value) =~= before.subrange(4, 4 + be_u32(before) as int));
        let start = nul + 1;
        let oid = read_be_u32(&body[start + OID_OFFSET..start + OID_OFFSET + 4]);
        proof {
            assert(body@.subrange(
                start + OID_OFFSET,
                start + OID_OFFSET + 4,
            ).take(4) =~= self.spec_body().skip(nul + 1 + OID_OFFSET).take(4));
        }
        R::decode(Column { oid, value })
    }
}

/// Postgres column: the data type object ID and the value.
#[derive(Debug)]
pub struct Column {
    oid: Oid,
    value: Bytes,
}

impl Column {
    /// The column's data type object ID.
    pub closed spec fn spec_oid(&self) -> Oid {
        self.oid
    }

    /// The column's value.
    pub closed spec fn spec_value(&self) -> Seq<u8> {
        bytes_seq(self.value)
    }

    /// A column with the given type and value.
    pub fn new(oid: Oid, value: Bytes) -> (r: Column)
        ensures
            r.spec_oid() == oid,
            r.spec_value() == bytes_seq(value),
    {
        Column { oid, value }
    }

    /// Returns column [`Oid`].
    pub fn oid(&self) -> (r: Oid)
        ensures
            r == self.spec_oid(),
    {
        self.oid
    }

    /// Extract the inner bytes as slice.
    pub fn as_slice(&self) -> (r: &[u8])
        ensures
            r@ == self.spec_value(),
    {
        bytes_as_slice(&self.value)
    }

    /// Clone the inner [`Bytes`].
    pub fn value(&self) -> (r: Bytes)
        ensures
            bytes_seq(r) == self.spec_value(),
    {
        bytes_clone(&self.value)
    }
}

// ===== Traits =====

/// Type that can be constructed from a row.
pub trait FromRow: Sized {
    /// The row holds what decoding needs (decoding panics otherwise).
    spec fn can_from_row(row: &Row) -> bool;

    /// `r` is the outcome of decoding `row`.
    spec fn from_row_ok(row: &Row, r: Result<Self, DecodeError>) -> bool;

    /// Construct self from row.
    fn from_row(row: Row) -> (r: Result<Self, DecodeError>)
        requires
            Self::can_from_row(&row),
        ensures
            Self::from_row_ok(&row, r),
    ;

    /// Whether `from_row` can be called on `row`.
    fn accepts(row: &Row) -> (r: bool)
        ensures
            r == Self::can_from_row(row),
    ;
}

impl FromRow for Row {
    open spec fn can_from_row(row: &Row) -> bool {
        true
    }

    open spec fn from_row_ok(row: &Row, r: Result<Self, DecodeError>) -> bool {
        r matches Ok(x) && x.spec_len() == row.spec_len() && x.spec_body() == row.spec_body()
            && x.spec_values() == row.spec_values()
    }

    fn from_row(row: Row) -> (r: Result<Self, DecodeError>) {
        Ok(row)
    }

    fn accepts(row: &Row) -> (r: bool) {
        true
    }
}

impl FromRow for () {
    open spec fn can_from_row(row: &Row) -> bool {
        true
    }

    open spec fn from_row_ok(row: &Row, r: Result<Self, DecodeError>) -> bool {
        r is Ok
    }

    fn from_row(row: Row) -> (r: Result<Self, DecodeError>) {
        Ok(())
    }

    fn accepts(row: &Row) -> (r: bool) {
        true
    }
}

/// What `try_get` needs of column `i` for decoding it as `R` not to panic.
pub open spec fn can_get<R: FromColumn>(row: &Row, i: usize) -> bool {
    i.spec_position(row.spec_body(), row.spec_len()) matches Some((nul, nth)) ==> row.column_ok(
        nul,
        nth,
    ) && R::can_decode(
        be_u32(row.spec_body().skip(nul + 1 + OID_OFFSET)),
        value_at(row.spec_values(), nth),
    )
}

/// The outcome of `try_get` for column `i` decoded as `R`.
pub open spec fn got<R: FromColumn>(row: &Row, i: usize, r: Result<R, DecodeError>) -> bool {
    match i.spec_position(row.spec_body(), row.spec_len()) {
        None => r matches Err(DecodeError::ColumnNotFound),
        Some((nul, nth)) => R::decodes(
            be_u32(row.spec_body().skip(nul + 1 + OID_OFFSET)),
            value_at(row.spec_values(), nth),
            r,
        ),
    }
}

impl<T0: FromColumn> FromRow for (T0,) {
    open spec fn can_from_row(row: &Row) -> bool {
        can_get::<T0>(row, 0)
    }

    open spec fn from_row_ok(row: &Row, r: Result<Self, DecodeError>) -> bool {
        match r {
            Ok((a,)) => got::<T0>(row, 0, Ok(a)),
            Err(e) => got::<T0>(row, 0, Err(e)),
        }
    }

    fn from_row(row: Row) -> (r: Result<Self, DecodeError>) {
        match row.try_get::<usize, T0>(0) {
            Ok(a) => Ok((a,)),
            Err(e) => Err(e),
        }
    }

    fn accepts(row: &Row) -> (r: bool) {
        row.column_decodable::<T0>(0)
    }
}

impl<T0: FromColumn, T1: FromColumn> FromRow for (T0, T1) {
    open spec fn can_from_row(row: &Row) -> bool {
        can_get::<T0>(row, 0) && can_get::<T1>(row, 1)
    }

    open spec fn from_row_ok(row: &Row, r: Result<Self, DecodeError>) -> bool {
        match r {
            Ok((a, b)) => got::<T0>(row, 0, Ok(a)) && got::<T1>(row, 1, Ok(b)),
            Err(e) => got::<T0>(row, 0, Err(e)) || exists|a: T0|
                got::<T0>(row, 0, Ok(a)) && got::<T1>(row, 1, Err(e)),
        }
    }

    fn from_row(row: Row) -> (r: Result<Self, DecodeError>) {
        let a = match row.try_get::<usize, T0>(0) {
            Ok(a) => a,
            Err(e) => return Err(e),
        };
        let b = match row.try_get::<usize, T1>(1) {
            Ok(b) => b,
            Err(e) => {
                assert(got::<T0>(&row, 0, Ok(a)) && got::<T1>(&row, 1, Err(e)));
                return Err(e);
            },
        };
        Ok((a, b))
    }

    fn accepts(row: &Row) -> (r: bool) {
        row.column_decodable::<T0>(0) && row.column_decodable::<T1>(1)
    }
}

/// A type that can be constructed from [`Column`].
pub trait FromColumn: Sized {
    /// Decoding a column of type `oid` holding `value` does not panic.
    spec fn can_decode(oid: Oid, value: Seq<u8>) -> bool;

    /// `r` is the outcome of decoding a column of type `oid` holding `value`.
    spec fn decodes(oid: Oid, value: Seq<u8>, r: Result<Self, DecodeError>) -> bool;

    fn decode(column: Column) -> (r: Result<Self, DecodeError>)
        requires
            Self::can_decode(column.spec_oid(), column.spec_value()),
        ensures
            Self::decodes(column.spec_oid(), column.spec_value(), r),
    ;

    /// Whether a column of type `oid` holding `value` can be decoded.
    fn decodable(oid: Oid, value: &[u8]) -> (r: bool)
        ensures
            r == Self::can_decode(oid, value@),
    ;
}

impl FromColumn for Column {
    open spec fn can_decode(oid: Oid, value: Seq<u8>) -> bool {
        true
    }

    open spec fn decodes(oid: Oid, value: Seq<u8>, r: Result<Self, DecodeError>) -> bool {
        r matches Ok(c) && c.spec_oid() == oid && c.spec_value() == value
    }

    fn decode(column: Column) -> (r: Result<Self, DecodeError>) {
        Ok(column)
    }

    fn decodable(oid: Oid, value: &[u8]) -> (r: bool) {
        true
    }
}

impl FromColumn for () {
    open spec fn can_decode(oid: Oid, value: Seq<u8>) -> bool {
        true
    }

    open spec fn decodes(oid: Oid, value: Seq<u8>, r: Result<Self, DecodeError>) -> bool {
        r is Ok
    }

    fn decode(column: Column) -> (r: Result<Self, DecodeError>) {
        Ok(())
    }

    fn decodable(oid: Oid, value: &[u8]) -> (r: bool) {
        true
    }
}

impl FromColumn for i32 {
    /// A column of the right type holds at least four bytes (decoding
    /// panics otherwise).
    open spec fn can_decode(oid: Oid, value: Seq<u8>) -> bool {
        oid == <i32 as PgType>::spec_oid() ==> value.len() >= 4
    }

    open spec fn decodes(oid: Oid, value: Seq<u8>, r: Result<Self, DecodeError>) -> bool {
        if oid != <i32 as PgType>::spec_oid() {
            r matches Err(DecodeError::OidMissmatch)
        } else {
            r == Ok::<i32, DecodeError>(crate::buf::be_i32(value))
        }
    }

    fn decode(col: Column) -> (r: Result<Self, DecodeError>) {
        if col.oid() != <i32 as PgType>::oid() {
            return Err(DecodeError::OidMissmatch);
        }
        let s = col.as_slice();
        Ok(crate::buf::read_be_i32(&s[0..4]))
    }

    fn decodable(oid: Oid, value: &[u8]) -> (r: bool) {
        oid != <i32 as PgType>::oid() || value.len() >= 4
    }
}

impl FromColumn for String {
    open spec fn can_decode(oid: Oid, value: Seq<u8>) -> bool {
        true
    }

    open spec fn decodes(oid: Oid, value: Seq<u8>, r: Result<Self, DecodeError>) -> bool {
        if oid != <String as PgType>::spec_oid() {
            r matches Err(DecodeError::OidMissmatch)
        } else if vstd::utf8::valid_utf8(value) {
            r matches Ok(s) && s@ == vstd::utf8::decode_utf8(value)
        } else {
            r matches Err(DecodeError::Utf8(_))
        }
    }

    fn decode(col: Column) -> (r: Result<Self, DecodeError>) {
        if col.oid() != <String as PgType>::oid() {
            return Err(DecodeError::OidMissmatch);
        }
        let v = copy_to_vec(col.as_slice());
        match string_from_utf8(v) {
            Ok(s) => Ok(s),
            Err(e) => Err(DecodeError::Utf8(from_utf8_error_cause(&e))),
        }
    }

    fn decodable(oid: Oid, value: &[u8]) -> (r: bool) {
        true
    }
}

/// An error when decoding row value.
#[derive(Debug)]
pub enum DecodeError {
    /// Postgres return non utf8 string.
    Utf8(Utf8Error),
    /// Column requested not found.
    ColumnNotFound,
    /// Oid requested missmatch.
    OidMissmatch,
}

impl DecodeError {
    /// The human readable description: `Failed to decode value, ` and the reason.
    pub fn message(&self) -> (r: String)
        ensures
            self is Utf8 ==> "Failed to decode value, "@.is_prefix_of(r@),
            self is ColumnNotFound ==> r@ == "Failed to decode value, column not found"@,
            self is OidMissmatch ==> r@ == "Failed to decode value, data type missmatch"@,
    {
        let mut s = String::new();
        s.append("Failed to decode value, ");
        match self {
            DecodeError::Utf8(e) => {
                let t = utf8_error_text(e);
                s.append(t.as_str());
            },
            DecodeError::ColumnNotFound => {
                s.append("column not found");
            },
            DecodeError::OidMissmatch => {
                s.append("data type missmatch");
            },
        }
        proof {
            reveal_strlit("Failed to decode value, ");
            reveal_strlit("column not found");
            reveal_strlit("data type missmatch");
            reveal_strlit("Failed to decode value, column not found");
            reveal_strlit("Failed to decode value, data type missmatch");
        }
        s
    }
}

} // verus!

verus! {

/// An `i32` bound as a parameter is what a column of its type decodes to.
pub proof fn law_i32_roundtrip(v: i32, e: Encoded)
    requires
        <i32 as Encode>::encoded(v, e),
    ensures
        <i32 as FromColumn>::can_decode(e.spec_type_oid(), e.bytes()),
        <i32 as FromColumn>::decodes(e.spec_type_oid(), e.bytes(), Ok(v)),
{
    crate::buf::lemma_i32_be_roundtrip(v);
}

/// A string bound as a parameter is what a column of its type decodes to.
pub proof fn law_string_roundtrip<'a>(s: &'a String, e: Encoded<'a>)
    requires
        <&'a String as Encode<'a>>::encoded(s, e),
    ensures
        <String as FromColumn>::can_decode(e.spec_type_oid(), e.bytes()),
        forall|r: Result<String, DecodeError>|
            <String as FromColumn>::decodes(e.spec_type_oid(), e.bytes(), r) ==> (r matches Ok(x)
                && x@ == s@),
{
    vstd::utf8::encode_utf8_valid_utf8(s@);
    vstd::utf8::encode_utf8_decode_utf8(s@);
}

} // verus!
