//! Column descriptions of a `RowDescription`, and columns of values.
use bytes::Bytes;
use std::str::Utf8Error;
use vstd::prelude::*;
use vstd::string::StringSliceAdditionalSpecFns;
use vstd::utf8::valid_utf8;

use crate::buf::{be_u16, be_u32, bytes_advance, bytes_as_slice, bytes_get_u16, bytes_get_u32, bytes_seq};
use crate::common::ByteStr;
use crate::ext::{find_nul, first_nul, get_nul_bytestr};
use crate::utf8::str_from_utf8;
use crate::postgres::backend::{after_nul_string, has_nul_string, nul_string_at, RowDescription};
use crate::postgres::Oid;
use crate::row::slice_eq;

verus! {

/// After a field's name: table object ID, attribute number, data type
/// object ID, data type size, type modifier, format code.
pub const FIELD_SUFFIX: usize = 18;

/// The field at the front of `s` can be read: its name is terminated,
/// and a name that is UTF-8 is followed by the rest of the field.
pub open spec fn field_ok(s: Seq<u8>) -> bool {
    &&& has_nul_string(s)
    &&& valid_utf8(nul_string_at(s)) ==> after_nul_string(s).len() >= FIELD_SUFFIX
}

/// The data type object ID of the field at the front of `s`.
pub open spec fn field_oid(s: Seq<u8>) -> Oid {
    be_u32(after_nul_string(s).skip(6))
}

/// What follows the field at the front of `s`.
pub open spec fn after_field(s: Seq<u8>) -> Seq<u8> {
    after_nul_string(s).skip(FIELD_SUFFIX as int)
}

/// `n` fields can be read from the front of `s`, up to the first name
/// that is not UTF-8.
pub open spec fn fields_ok(s: Seq<u8>, n: nat) -> bool
    decreases n,
{
    n == 0 || (field_ok(s) && (valid_utf8(nul_string_at(s)) ==> fields_ok(
        after_field(s),
        (n - 1) as nat,
    )))
}

/// The names and types of `n` fields at the front of `s`, or `None` when
/// a name is not UTF-8.
pub open spec fn fields_of(s: Seq<u8>, n: nat) -> Option<Seq<(Seq<u8>, Oid)>>
    decreases n,
{
    if n == 0 {
        Some(Seq::empty())
    } else if !valid_utf8(nul_string_at(s)) {
        None
    } else {
        match fields_of(after_field(s), (n - 1) as nat) {
            Some(t) => Some(seq![(nul_string_at(s), field_oid(s))] + t),
            None => None,
        }
    }
}

/// Whether the field at the front of `s` can be read; when it can, also
/// whether its name is UTF-8, and where the field ends.
fn check_field(s: &[u8]) -> (r: Option<(bool, usize)>)
    ensures
        match r {
            None => !field_ok(s@),
            Some((utf8, end)) => {
                &&& field_ok(s@)
                &&& utf8 == valid_utf8(nul_string_at(s@))
                &&& utf8 ==> end <= s@.len() && s@.skip(end as int) == after_field(s@)
            },
        },
{
    let i = match find_nul(s) {
        Some(i) => i,
        None => return None,
    };
    let name = vstd::slice::slice_subrange(s, 0, i);
    assert(name@ =~= nul_string_at(s@));
    let utf8 = str_from_utf8(name).is_ok();
    if !utf8 {
        return Some((false, 0));
    }
    if s.len() - (i + 1) < FIELD_SUFFIX {
        return None;
    }
    let end = i + 1 + FIELD_SUFFIX;
    assert(s@.skip(end as int) =~= after_field(s@));
    Some((true, end))
}

/// Whether the field at the front of `body` can be read by
/// [`ColumnInfo::decode`].
pub fn field_decodable(body: &[u8]) -> (r: bool)
    ensures
        r == field_ok(body@),
{
    check_field(body).is_some()
}

/// Whether the `n` fields at the front of `body` can be read, as
/// [`ColumnInfo::decode_multi_vec`] reads them.
pub fn fields_decodable(body: &[u8], n: u16) -> (r: bool)
    ensures
        r == fields_ok(body@, n as nat),
{
    let mut pos: usize = 0;
    let mut k: u16 = 0;
    assert(body@.skip(0) =~= body@);
    while k < n
        invariant
            k <= n,
            pos <= body@.len(),
            fields_ok(body@, n as nat) == fields_ok(body@.skip(pos as int), (n - k) as nat),
        decreases n - k,
    {
        let rest = vstd::slice::slice_subrange(body, pos, body.len());
        assert(rest@ =~= body@.skip(pos as int));
        match check_field(rest) {
            None => return false,
            Some((false, _)) => return true,
            Some((true, end)) => {
                assert(body@.skip((pos + end) as int) =~= rest@.skip(end as int));
                pos = pos + end;
                k = k + 1;
            },
        }
    }
    true
}

/// Whether [`ColumnInfo::decode_multi_vec`] can read the body of a
/// `RowDescription`.
pub fn description_decodable(rd: &RowDescription) -> (r: bool)
    ensures
        r == (bytes_seq(rd.body).len() >= 2 && fields_ok(
            bytes_seq(rd.body).skip(2),
            be_u16(bytes_seq(rd.body)) as nat,
        )),
{
    let b = bytes_as_slice(&rd.body);
    if b.len() < 2 {
        return false;
    }
    let n: u16 = (b[0] as u16) * 256 + b[1] as u16;
    let rest = vstd::slice::slice_subrange(b, 2, b.len());
    assert(rest@ =~= b@.skip(2));
    fields_decodable(rest, n)
}

/// The description of one column: its name and data type.
#[derive(Debug)]
pub struct ColumnInfo {
    /// The field name.
    field_name: ByteStr,
    /// The object ID of the field's data type.
    oid: Oid,
}

/// The names and types of `cols`.
pub open spec fn infos_view(cols: Seq<ColumnInfo>) -> Seq<(Seq<u8>, Oid)> {
    cols.map_values(|c: ColumnInfo| (c.spec_name(), c.spec_oid()))
}

impl ColumnInfo {
    pub closed spec fn spec_name(&self) -> Seq<u8> {
        self.field_name@
    }

    pub closed spec fn spec_oid(&self) -> Oid {
        self.oid
    }

    /// Reads the field at the front of `body`.
    pub fn decode(body: &mut Bytes) -> (r: Result<ColumnInfo, Utf8Error>)
        requires
            field_ok(bytes_seq(*old(body))),
        ensures
            ({
                let s = bytes_seq(*old(body));
                if valid_utf8(nul_string_at(s)) {
                    &&& r matches Ok(c) && c.spec_name() == nul_string_at(s) && c.spec_oid()
                        == field_oid(s)
                    &&& bytes_seq(*final(body)) == after_field(s)
                } else {
                    &&& r is Err
                    &&& bytes_seq(*final(body)) == after_nul_string(s)
                }
            }),
    {
        let ghost s = bytes_seq(*body);
        let field_name = match get_nul_bytestr(body) {
            Ok(n) => n,
            Err(e) => return Err(e),
        };
        let ghost a = bytes_seq(*body);
        bytes_advance(body, 4);  // table_oid
        bytes_advance(body, 2);  // attribute number
        let oid = bytes_get_u32(body);
        bytes_advance(body, 2);  // data type size
        bytes_advance(body, 4);  // type modifier
        bytes_advance(body, 2);  // format code
        assert(a.skip(4).skip(2) =~= a.skip(6));
        assert(bytes_seq(*body) =~= a.skip(18));
        Ok(ColumnInfo { field_name, oid })
    }

    /// Reads all field descriptions of a `RowDescription`: the field count,
    /// then the fields.
    pub fn decode_multi_vec(rd: RowDescription) -> (r: Result<Vec<ColumnInfo>, Utf8Error>)
        requires
            bytes_seq(rd.body).len() >= 2,
            fields_ok(bytes_seq(rd.body).skip(2), be_u16(bytes_seq(rd.body)) as nat),
        ensures
            match fields_of(bytes_seq(rd.body).skip(2), be_u16(bytes_seq(rd.body)) as nat) {
                Some(f) => r matches Ok(v) && infos_view(v@) == f,
                None => r is Err,
            },
    {
        let mut body = rd.body;
        let ghost full = bytes_seq(body).skip(2);
        let field_len = bytes_get_u16(&mut body);
        let mut cols: Vec<ColumnInfo> = Vec::new();
        let mut i: u16 = 0;
        while i < field_len
            invariant
                i <= field_len,
                full == bytes_seq(rd.body).skip(2),
                field_len == be_u16(bytes_seq(rd.body)),
                fields_ok(bytes_seq(body), (field_len - i) as nat),
                fields_of(full, field_len as nat) == (match fields_of(
                    bytes_seq(body),
                    (field_len - i) as nat,
                ) {
                    Some(t) => Some(infos_view(cols@) + t),
                    None => None::<Seq<(Seq<u8>, Oid)>>,
                }),
            decreases field_len - i,
        {
            let ghost s = bytes_seq(body);
            let c = match ColumnInfo::decode(&mut body) {
                Ok(c) => c,
                Err(e) => {
                    assert(fields_of(s, (field_len - i) as nat) is None);
                    return Err(e);
                },
            };
            let ghost before = cols@;
            cols.push(c);
            assert(infos_view(cols@) =~= infos_view(before) + seq![(nul_string_at(s), field_oid(s))]);
            assert(infos_view(before) + (seq![(nul_string_at(s), field_oid(s))] + (match fields_of(
                after_field(s),
                (field_len - i - 1) as nat,
            ) {
                Some(t) => t,
                None => Seq::empty(),
            })) =~= infos_view(cols@) + (match fields_of(after_field(s), (field_len - i - 1) as nat) {
                Some(t) => t,
                None => Seq::empty(),
            }));
            i = i + 1;
        }
        assert(infos_view(cols@) + Seq::<(Seq<u8>, Oid)>::empty() =~= infos_view(cols@));
        Ok(cols)
    }

    /// The field name.
    pub fn field_name(&self) -> (r: &str)
        ensures
            r.spec_bytes() == self.spec_name(),
    {
        self.field_name.as_str()
    }

    /// The object ID of the field's data type.
    pub fn oid(&self) -> (r: Oid)
        ensures
            r == self.spec_oid(),
    {
        self.oid
    }
}

/// A column of a row: its data type and its value.
#[derive(Debug)]
pub struct Column {
    oid: Oid,
    value: Bytes,
}

impl Column {
    pub closed spec fn spec_oid(&self) -> Oid {
        self.oid
    }

    pub closed spec fn spec_value(&self) -> Seq<u8> {
        bytes_seq(self.value)
    }

    /// The column described by `col` holding `value`.
    pub fn new(col: &ColumnInfo, value: Bytes) -> (r: Column)
        ensures
            r.spec_oid() == col.spec_oid(),
            r.spec_value() == bytes_seq(value),
    {
        Column { oid: col.oid, value }
    }

    /// Get the column [`Oid`].
    pub fn oid(&self) -> (r: Oid)
        ensures
            r == self.spec_oid(),
    {
        self.oid
    }

    /// Get the column value as slice.
    pub fn as_slice(&self) -> (r: &[u8])
        ensures
            r@ == self.spec_value(),
    {
        bytes_as_slice(&self.value)
    }

    /// Consume the column value as [`Bytes`].
    pub fn into_value(self) -> (r: Bytes)
        ensures
            bytes_seq(r) == self.spec_value(),
    {
        self.value
    }
}

/// Type that can be used for indexing column: a position, or a name.
pub trait Index: Sized {
    /// The column that `self` picks among `cols`.
    spec fn spec_position(&self, cols: Seq<ColumnInfo>) -> Option<int>;

    /// Returns the column index.
    fn position(self, cols: &[ColumnInfo]) -> (r: Option<usize>)
        ensures
            match r {
                Some(i) => self.spec_position(cols@) == Some(i as int),
                None => self.spec_position(cols@) is None,
            },
    ;
}

impl Index for usize {
    open spec fn spec_position(&self, cols: Seq<ColumnInfo>) -> Option<int> {
        if (*self as int) < cols.len() {
            Some(*self as int)
        } else {
            None
        }
    }

    fn position(self, cols: &[ColumnInfo]) -> (r: Option<usize>) {
        if self < cols.len() {
            Some(self)
        } else {
            None
        }
    }
}

/// The first of `cols` named `name`.
pub open spec fn first_named(cols: Seq<ColumnInfo>, name: Seq<u8>) -> Option<int>
    decreases cols.len(),
{
    if cols.len() == 0 {
        None
    } else if cols[0].spec_name() == name {
        Some(0)
    } else {
        match first_named(cols.skip(1), name) {
            Some(i) => Some(i + 1),
            None => None,
        }
    }
}

impl<'a> Index for &'a str {
    open spec fn spec_position(&self, cols: Seq<ColumnInfo>) -> Option<int> {
        first_named(cols, (*self).spec_bytes())
    }

    fn position(self, cols: &[ColumnInfo]) -> (r: Option<usize>) {
        let name = self.as_bytes();
        let mut i: usize = 0;
        assert(cols@.skip(0) =~= cols@);
        while i < cols.len()
            invariant
                i <= cols@.len(),
                name@ == self.spec_bytes(),
                first_named(cols@, name@) == (match first_named(cols@.skip(i as int), name@) {
                    Some(j) => Some(j + i),
                    None => None,
                }),
            decreases cols@.len() - i,
        {
            assert(cols@.skip(i as int)[0] == cols@[i as int]);
            assert(cols@.skip(i as int).skip(1) =~= cols@.skip(i + 1));
            if slice_eq(cols[i].field_name().as_bytes(), name) {
                return Some(i);
            }
            i = i + 1;
        }
        None
    }
}

} // verus!
