//! Names of prepared statements and portals.
use vstd::prelude::*;
use vstd::string::StringSliceAdditionalSpecFns;
use vstd::utf8::valid_utf8;

use crate::buf::copy_to_vec;
use crate::encode::{Encode, Encoded};
use crate::utf8::str_from_utf8;

verus! {

/// The most parameters a [`Statement`] holds.
pub const MAX_QUERY_BIND: usize = 16;

/// A query string and up to [`MAX_QUERY_BIND`] parameters.
pub struct Statement<'a> {
    sql: &'a str,
    args: Vec<Encoded<'a>>,
}

impl<'a> Statement<'a> {
    /// The query string.
    pub closed spec fn spec_sql(&self) -> &'a str {
        self.sql
    }

    /// The parameters bound, in order.
    pub closed spec fn spec_args(&self) -> Seq<Encoded<'a>> {
        self.args@
    }

    /// A statement with no parameters.
    pub fn new(sql: &'a str) -> (r: Self)
        ensures
            r.spec_sql() == sql,
            r.spec_args() == Seq::<Encoded<'a>>::empty(),
    {
        Statement { sql, args: Vec::new() }
    }

    /// Binds the next parameter.  Binding more than [`MAX_QUERY_BIND`]
    /// is a panic, so a free place is required.
    pub fn bind<E: Encode<'a>>(&mut self, value: E)
        requires
            old(self).spec_args().len() < MAX_QUERY_BIND,
        ensures
            final(self).spec_sql() == old(self).spec_sql(),
            final(self).spec_args().len() == old(self).spec_args().len() + 1,
            final(self).spec_args().drop_last() == old(self).spec_args(),
            E::encoded(value, final(self).spec_args().last()),
    {
        let e = value.encode();
        self.args.push(e);
        assert(self.args@.drop_last() =~= old(self).args@);
    }

    /// The query string.
    pub fn sql(&self) -> (r: &str)
        ensures
            r == self.spec_sql(),
    {
        self.sql
    }

    /// The parameters bound, in order.
    pub fn args(&self) -> (r: &[Encoded<'a>])
        ensures
            r@ == self.spec_args(),
    {
        self.args.as_slice()
    }
}

/// The decimal digits of `n`, most significant first.
pub open spec fn decimal(n: nat) -> Seq<u8>
    decreases n,
{
    if n < 10 {
        seq![(48 + n) as u8]
    } else {
        decimal(n / 10).push((48 + n % 10) as u8)
    }
}

/// `itoa::Buffer::format`: the decimal representation of `n`.
#[verifier::external_body]
fn format_u16(n: u16) -> (r: Vec<u8>)
    ensures
        r@ == decimal(n as nat),
{
    let mut buffer = itoa::Buffer::new();
    buffer.format(n).as_bytes().to_vec()
}

/// `itoa::Buffer::format`: the decimal representation of `n`.
#[verifier::external_body]
pub(crate) fn format_u32(n: u32) -> (r: Vec<u8>)
    ensures
        r@ == decimal(n as nat),
{
    let mut buffer = itoa::Buffer::new();
    buffer.format(n).as_bytes().to_vec()
}

/// Bytes below 0x80 are valid UTF-8.
pub open spec fn all_ascii(s: Seq<u8>) -> bool {
    forall|i: int| 0 <= i < s.len() ==> s[i] <= 0x7f
}

pub proof fn lemma_ascii_valid_utf8(s: Seq<u8>)
    requires
        all_ascii(s),
    ensures
        valid_utf8(s),
    decreases s.len(),
{
    if s.len() > 0 {
        let b = s[0];
        assert((b & 0x7f) <= 0x7f) by (bit_vector);
        let p = vstd::utf8::pop_first_scalar(s);
        assert(p =~= s.skip(1));
        lemma_ascii_valid_utf8(p);
    }
}

pub proof fn lemma_decimal_ascii(n: nat)
    ensures
        all_ascii(decimal(n)),
        1 <= decimal(n).len(),
    decreases n,
{
    if n >= 10 {
        lemma_decimal_ascii(n / 10);
    }
}

/// A six byte name: `prefix`, the first (at most three) decimal digits of
/// `id`, then `pad` up to six bytes.
pub open spec fn counter_name(id: u16, pad: u8) -> Seq<u8> {
    let d = decimal(id as nat);
    let k = if d.len() < 3 { d.len() as int } else { 3 };
    seq![95u8, 113u8, 115u8] + d.take(k) + Seq::new((3 - k) as nat, |_i: int| pad)
}

/// Writes the counter name for `id` into a six byte array.
fn write_counter_name(id: u16, pad: u8) -> (r: [u8; 6])
    ensures
        r@ == counter_name(id, pad),
{
    let mut buf = [pad; 6];
    // "_qs"
    buf[0] = 95;
    buf[1] = 113;
    buf[2] = 115;
    let digits = format_u16(id);
    proof {
        lemma_decimal_ascii(id as nat);
    }
    let k = if digits.len() < 3 { digits.len() } else { 3 };
    let mut i: usize = 0;
    while i < k
        invariant
            k <= 3,
            k <= digits@.len(),
            i <= k,
            buf@.len() == 6,
            buf@[0] == 95u8 && buf@[1] == 113u8 && buf@[2] == 115u8,
            forall|j: int| 0 <= j < i ==> buf@[3 + j] == digits@[j],
            forall|j: int| 3 + k <= j < 6 ==> buf@[j] == pad,
        decreases k - i,
    {
        buf[3 + i] = digits[i];
        i = i + 1;
    }
    assert(buf@ =~= counter_name(id, pad));
    buf
}

/// Name of a prepared statement: six bytes, or all zeros for the unnamed one.
#[derive(Debug, Clone, Copy)]
pub struct StatementName([u8; 6]);

impl View for StatementName {
    type V = Seq<u8>;

    closed spec fn view(&self) -> Seq<u8> {
        self.0@
    }
}

impl StatementName {
    /// A name is six bytes.
    pub proof fn lemma_len(&self)
        ensures
            self@.len() == 6,
    {
    }

    /// A name is the unnamed one or a counter name padded with `_`.
    pub open spec fn wf(&self) -> bool {
        self@.len() == 6 && (self@[0] == 0 || all_ascii(self@))
    }

    /// The name as the server sees it: empty for the unnamed statement.
    pub open spec fn spec_str(&self) -> Seq<u8> {
        if self@[0] == 0 { Seq::empty() } else { self@ }
    }

    /// The unnamed prepared statement.
    pub fn unnamed() -> (r: StatementName)
        ensures
            r@ == seq![0u8, 0u8, 0u8, 0u8, 0u8, 0u8],
            r.wf(),
    {
        let r = StatementName([0, 0, 0, 0, 0, 0]);
        assert(r@ =~= seq![0u8, 0u8, 0u8, 0u8, 0u8, 0u8]);
        r
    }

    /// The name for counter value `id`: `_qs`, the first three (or fewer)
    /// decimal digits of `id`, then `_` up to six bytes.
    pub fn from_id(id: u16) -> (r: StatementName)
        ensures
            r@ == counter_name(id, 95u8),
            r.wf(),
    {
        let r = StatementName(write_counter_name(id, 95));
        proof {
            lemma_decimal_ascii(id as nat);
            assert(all_ascii(r@));
        }
        r
    }

    /// The next statement name: the name for the counter's value, and the
    /// counter moves on by one, wrapping around as an atomic `fetch_add`
    /// does.
    pub fn next(counter: &mut u16) -> (r: StatementName)
        ensures
            r@ == counter_name(*old(counter), 95u8),
            *final(counter) == (if *old(counter) == u16::MAX { 0 } else { *old(counter) + 1 }),
            r.wf(),
    {
        let id = *counter;
        *counter = id.wrapping_add(1);
        Self::from_id(id)
    }

    /// `true` for the unnamed prepared statement.
    pub fn is_unnamed(&self) -> (r: bool)
        ensures
            r == (self@[0] == 0),
    {
        self.0[0] == 0
    }

    /// The name as a string: empty for the unnamed prepared statement.
    pub fn as_str(&self) -> (r: &str)
        requires
            self.wf(),
        ensures
            r.spec_bytes() == self.spec_str(),
    {
        if self.is_unnamed() {
            proof {
                vstd::utf8::encode_utf8_decode_utf8(""@);
                reveal_strlit("");
            }
            assert(""@ =~= Seq::<char>::empty());
            assert(vstd::utf8::encode_utf8(Seq::<char>::empty()) =~= Seq::<u8>::empty());
            return "";
        }
        proof {
            lemma_ascii_valid_utf8(self@);
        }
        match str_from_utf8(self.0.as_slice()) {
            Ok(s) => s,
            Err(_) => {
                proof {
                    assert(false);
                }
                ""
            },
        }
    }
}

/// The next statement name; see [`StatementName::next`].
pub fn next_stmt_name(counter: &mut u16) -> (r: StatementName)
    ensures
        r@ == counter_name(*old(counter), 95u8),
        *final(counter) == (if *old(counter) == u16::MAX { 0 } else { *old(counter) + 1 }),
        r.wf(),
{
    StatementName::next(counter)
}

/// Name of a portal: `_qs` and up to three digits, padded with zero bytes.
#[derive(Debug)]
pub struct PortalName([u8; 6]);

impl View for PortalName {
    type V = Seq<u8>;

    closed spec fn view(&self) -> Seq<u8> {
        self.0@
    }
}

impl PortalName {
    /// The name as a string, all six bytes (zero padding included).
    pub fn as_str(&self) -> (r: &str)
        requires
            all_ascii(self@),
        ensures
            r.spec_bytes() == self@,
    {
        proof {
            lemma_ascii_valid_utf8(self@);
        }
        match str_from_utf8(self.0.as_slice()) {
            Ok(s) => s,
            Err(_) => {
                proof {
                    assert(false);
                }
                ""
            },
        }
    }
}

/// The next portal name: `_qs`, the first three (or fewer) decimal digits
/// of the counter's value, then zero bytes up to six bytes; the counter
/// moves on by one, wrapping around.
pub fn next_portal_name(counter: &mut u16) -> (r: PortalName)
    ensures
        r@ == counter_name(*old(counter), 0u8),
        all_ascii(r@),
        *final(counter) == (if *old(counter) == u16::MAX { 0 } else { *old(counter) + 1 }),
{
    let id = *counter;
    *counter = id.wrapping_add(1);
    let r = PortalName(write_counter_name(id, 0));
    proof {
        lemma_decimal_ascii(id as nat);
        assert(all_ascii(r@));
    }
    r
}

} // verus!
