//! The messages of the extended query protocol, written to a connection.
use std::hash::{DefaultHasher, Hash, Hasher};
use vstd::prelude::*;
use vstd::std_specs::hash::DefaultHasherAdditionalSpecFns;
use vstd::string::StringSliceAdditionalSpecFns;

use crate::buf::{bytes_mut_seq, i16_be, i32_be, u16_be};
use crate::connection::config::digits_value;
use crate::connection::state::{name_str, PgConnState};
use crate::encode::Encoded;
use crate::ext::nul_string;
use crate::postgres::backend::CommandComplete;
use crate::postgres::frontend::{self, frame, oids_bytes, params_bytes, lemma_oids_len};
use crate::postgres::PgFormat;
use crate::statement::{counter_name, decimal, StatementName};

verus! {

/// What [`prepare`] settled: the query's hash, the statement to bind,
/// whether the statement was already prepared, and the most rows that
/// `Execute` asks for (`0` for all of them).
#[derive(Debug)]
pub struct PrepareData {
    pub sqlid: u64,
    pub stmt: StatementName,
    pub cache_hit: bool,
    pub max_row: i32,
}

/// The writes that `Hash::hash` for `str` makes into a hasher, for a
/// string with these characters.
pub uninterp spec fn str_hash_writes(s: Seq<char>) -> Seq<Seq<u8>>;

/// `Hash::hash` of a `str` into a `DefaultHasher`: the hasher's record of
/// writes grows by what hashing this string writes, which depends on the
/// string alone.
#[verifier::external_body]
fn hash_str(s: &str, state: &mut DefaultHasher)
    ensures
        final(state)@ == old(state)@ + str_hash_writes(s@),
{
    s.hash(state);
}

/// The key of the statement cache for a query: its string hashed into a
/// fresh `DefaultHasher`.
pub open spec fn spec_sql_hash(sql: Seq<char>) -> u64 {
    DefaultHasher::spec_finish(str_hash_writes(sql))
}

/// Hashes the query string with `DefaultHasher`: the key of the statement
/// cache.
pub fn sql_hash(sql: &str) -> (r: u64)
    ensures
        r == spec_sql_hash(sql@),
{
    let mut buf = DefaultHasher::new();
    hash_str(sql, &mut buf);
    assert(buf@ =~= str_hash_writes(sql@));
    buf.finish()
}

/// The object IDs that `Parse` announces for the parameters, in order.
pub open spec fn param_oids(params: Seq<Encoded>) -> Seq<i32> {
    Seq::new(params.len(), |i: int| params[i].spec_oid() as i32)
}

/// The body of the `Parse` message for statement `name`.
pub open spec fn parse_body(name: Seq<u8>, sql: Seq<u8>, params: Seq<Encoded>) -> Seq<u8> {
    nul_string(name_str(name)) + nul_string(sql) + i16_be(params.len() as i16) + oids_bytes(
        param_oids(params),
    )
}

/// `Parse` then `Flush`, as written by [`prepare`] on a cache miss.
pub open spec fn prepare_bytes(name: Seq<u8>, sql: Seq<u8>, params: Seq<Encoded>) -> Seq<u8> {
    frame(80u8, parse_body(name, sql, params)) + frame(72u8, Seq::empty())
}

/// The bytes of the unnamed statement.
pub open spec fn unnamed_bytes() -> Seq<u8> {
    seq![0u8, 0u8, 0u8, 0u8, 0u8, 0u8]
}

/// What [`prepare`] needs of its inputs: well formed values, counts that
/// fit their fields, and buffers that stay within `isize::MAX`.
pub open spec fn prepare_ok(conn: PgConnState, sql: Seq<u8>, params: Seq<Encoded>) -> bool {
    &&& conn.wf()
    &&& params.len() <= 0x7fff
    &&& sql.len() + 4 * params.len() + 32 <= i32::MAX
    &&& bytes_mut_seq(conn.write_buf).len() + sql.len() + 4 * params.len() + 64 <= isize::MAX
}

/// Writes the statement preparation to `conn`, the query's hash given.
///
/// A persistent query whose statement is cached needs nothing more.
/// Otherwise `Parse` (under the next counter name, or unnamed when not
/// persistent) and `Flush` are queued; the caller flushes, waits for
/// `ParseComplete`, and may then cache the statement.
pub fn prepare_with_id(
    sqlid: u64,
    sql: &str,
    params: &[Encoded],
    persistent: bool,
    conn: &mut PgConnState,
    counter: &mut u16,
) -> (r: PrepareData)
    requires
        prepare_ok(*old(conn), sql.spec_bytes(), params@),
    ensures
        final(conn).wf(),
        final(conn).stmts() == old(conn).stmts(),
        final(conn).read_buf == old(conn).read_buf,
        final(conn).sync_pending == old(conn).sync_pending,
        r.sqlid == sqlid,
        r.max_row == 0,
        r.stmt.wf(),
        if persistent && old(conn).stmts().contains_key(sqlid) {
            &&& r.cache_hit
            &&& r.stmt@ == old(conn).stmts()[sqlid]
            &&& final(conn).write_buf == old(conn).write_buf
            &&& *final(counter) == *old(counter)
        } else {
            &&& !r.cache_hit
            &&& r.stmt@ == (if persistent {
                counter_name(*old(counter), 95u8)
            } else {
                unnamed_bytes()
            })
            &&& *final(counter) == (if persistent {
                if *old(counter) == u16::MAX { 0 } else { (*old(counter) + 1) as u16 }
            } else {
                *old(counter)
            })
            &&& bytes_mut_seq(final(conn).write_buf) == bytes_mut_seq(old(conn).write_buf)
                + prepare_bytes(r.stmt@, sql.spec_bytes(), params@)
        },
{
    if persistent {
        if let Some(stmt) = conn.get_stmt(sqlid) {
            return PrepareData { sqlid, stmt, cache_hit: true, max_row: 0 };
        }
    }
    let stmt = if persistent {
        StatementName::next(counter)
    } else {
        StatementName::unnamed()
    };
    let mut oids: Vec<i32> = Vec::new();
    let mut i: usize = 0;
    while i < params.len()
        invariant
            i <= params@.len(),
            oids@ == param_oids(params@).take(i as int),
        decreases params@.len() - i,
    {
        oids.push(params[i].oid() as i32);
        i = i + 1;
        assert(oids@ =~= param_oids(params@).take(i as int));
    }
    assert(oids@ =~= param_oids(params@));
    let name = stmt.as_str();
    proof {
        stmt.lemma_len();
        lemma_oids_len(oids@);
    }
    conn.send(
        frontend::Parse {
            prepare_name: name,
            sql,
            data_types_len: params.len() as i16,
            data_types: oids.as_slice(),
        },
    );
    conn.send(frontend::Flush);
    assert(bytes_mut_seq(conn.write_buf) =~= bytes_mut_seq(old(conn).write_buf) + prepare_bytes(
        stmt@,
        sql.spec_bytes(),
        params@,
    ));
    PrepareData { sqlid, stmt, cache_hit: false, max_row: 0 }
}

/// Writes the statement preparation to `conn`: hashes the query, then
/// proceeds as [`prepare_with_id`] with that hash.  No row limit is set.
pub fn prepare(
    sql: &str,
    params: &[Encoded],
    persistent: bool,
    conn: &mut PgConnState,
    counter: &mut u16,
) -> (r: PrepareData)
    requires
        prepare_ok(*old(conn), sql.spec_bytes(), params@),
    ensures
        final(conn).wf(),
        final(conn).stmts() == old(conn).stmts(),
        final(conn).read_buf == old(conn).read_buf,
        final(conn).sync_pending == old(conn).sync_pending,
        r.sqlid == spec_sql_hash(sql@),
        r.max_row == 0,
        r.stmt.wf(),
        if persistent && old(conn).stmts().contains_key(r.sqlid) {
            &&& r.cache_hit
            &&& r.stmt@ == old(conn).stmts()[r.sqlid]
            &&& final(conn).write_buf == old(conn).write_buf
            &&& *final(counter) == *old(counter)
        } else {
            &&& !r.cache_hit
            &&& r.stmt@ == (if persistent {
                counter_name(*old(counter), 95u8)
            } else {
                unnamed_bytes()
            })
            &&& *final(counter) == (if persistent {
                if *old(counter) == u16::MAX { 0 } else { (*old(counter) + 1) as u16 }
            } else {
                *old(counter)
            })
            &&& bytes_mut_seq(final(conn).write_buf) == bytes_mut_seq(old(conn).write_buf)
                + prepare_bytes(r.stmt@, sql.spec_bytes(), params@)
        },
{
    let sqlid = sql_hash(sql);
    prepare_with_id(sqlid, sql, params, persistent, conn, counter)
}

/// The body of the `Bind` message that [`portal`] writes: unnamed portal,
/// all parameters and all results in binary format.
pub open spec fn bind_body(stmt: Seq<u8>, params: Seq<Encoded>) -> Seq<u8> {
    nul_string(Seq::empty()) + nul_string(name_str(stmt)) + u16_be(1) + u16_be(1) + u16_be(
        params.len() as u16,
    ) + params_bytes(params) + u16_be(1) + u16_be(1)
}

/// `Bind`, `Describe` of the portal, `Execute` asking for at most
/// `max_row` rows (`0`: all of them), `Sync`.
pub open spec fn portal_bytes(stmt: Seq<u8>, params: Seq<Encoded>, max_row: i32) -> Seq<u8> {
    frame(66u8, bind_body(stmt, params)) + frame(68u8, seq![80u8] + nul_string(Seq::empty()))
        + frame(69u8, nul_string(Seq::empty()) + i32_be(max_row)) + frame(83u8, Seq::empty())
}

/// What [`portal`] needs: parameters that are well formed and whose
/// lengths fit their fields, and buffers within `isize::MAX`.
pub open spec fn portal_ok(conn: PgConnState, params: Seq<Encoded>) -> bool {
    &&& params.len() <= u16::MAX
    &&& forall|i: int| 0 <= i < params.len() ==> (#[trigger] params[i]).wf()
    &&& params_bytes(params).len() + 64 <= i32::MAX
    &&& bytes_mut_seq(conn.write_buf).len() + params_bytes(params).len() + 128 <= isize::MAX
}

/// Binds the parameters to the prepared statement in the unnamed portal,
/// describes and executes it (for at most `data.max_row` rows, all of them
/// when that is `0`), and ends with `Sync`.  The parameters are
/// taken out of `params`.  The caller flushes and then receives
/// `BindComplete`, `RowDescription` or `NoData`, the rows, the command's
/// completion and `ReadyForQuery`.
pub fn portal(data: &PrepareData, params: &mut Vec<Encoded>, conn: &mut PgConnState)
    requires
        data.stmt.wf(),
        portal_ok(*old(conn), old(params)@),
    ensures
        bytes_mut_seq(final(conn).write_buf) == bytes_mut_seq(old(conn).write_buf) + portal_bytes(
            data.stmt@,
            old(params)@,
            data.max_row,
        ),
        final(params)@ == Seq::<Encoded>::empty(),
        final(conn).read_buf == old(conn).read_buf,
        final(conn).stmts == old(conn).stmts,
        final(conn).sync_pending == old(conn).sync_pending,
{
    let formats = [PgFormat::Binary];
    let n = params.len();
    proof {
        data.stmt.lemma_len();
        assert forall|i: int| 0 <= i < params@.len() implies (#[trigger] params@[i]).bytes().len()
            <= i32::MAX by {
            lemma_param_within(params@, i);
        }
        assert(formats@ =~= seq![PgFormat::Binary]);
        assert(formats@.drop_last() =~= Seq::<PgFormat>::empty());
        assert(crate::postgres::frontend::formats_bytes(Seq::<PgFormat>::empty()) =~= Seq::<u8>::empty());
        assert(formats@.last() == PgFormat::Binary);
        assert(crate::postgres::frontend::formats_bytes(formats@) =~= u16_be(1));
        reveal_strlit("");
    }
    conn.send(
        frontend::Bind {
            portal_name: "",
            stmt_name: data.stmt.as_str(),
            param_formats_len: 1,
            param_formats: &formats,
            params_len: n as u16,
            params: params.as_slice(),
            result_formats_len: 1,
            result_formats: &formats,
        },
    );
    conn.send(frontend::Describe { kind: 80 /* 'P' */, name: "" });
    conn.send(frontend::Execute { portal_name: "", max_row: data.max_row });
    conn.send(frontend::Sync);
    proof {
        assert(bytes_mut_seq(conn.write_buf) =~= bytes_mut_seq(old(conn).write_buf)
            + portal_bytes(data.stmt@, old(params)@, data.max_row));
    }
    *params = Vec::new();
}

/// A parameter's bytes are no longer than the bytes of all parameters.
proof fn lemma_param_within(params: Seq<Encoded>, i: int)
    requires
        0 <= i < params.len(),
        forall|j: int| 0 <= j < params.len() ==> (#[trigger] params[j]).wf(),
    ensures
        params[i].bytes().len() <= params_bytes(params).len(),
    decreases params.len(),
{
    crate::postgres::frontend::lemma_params_len_monotone(params, i + 1);
    assert(params.take(i + 1).drop_last() =~= params.take(i));
    assert(params.take(i + 1).last() == params[i]);
    crate::postgres::frontend::lemma_param_len(params[i]);
}

/// The bytes after the last space of `s`; all of `s` when it has none.
pub open spec fn last_word(s: Seq<u8>) -> Seq<u8>
    decreases s.len(),
{
    if s.len() == 0 {
        s
    } else if s.last() == 32 {
        Seq::empty()
    } else {
        last_word(s.drop_last()).push(s.last())
    }
}

/// Every byte is an ASCII digit.
pub open spec fn all_digits(s: Seq<u8>) -> bool {
    forall|i: int| 0 <= i < s.len() ==> 48 <= #[trigger] s[i] <= 57
}

/// The number of rows a command tag reports: its last word read as a
/// decimal number, or `0` when the tag ends in no number that fits a `u32`
/// (as for a tag without a row count).
pub open spec fn row_count(tag: Seq<u8>) -> u32 {
    let w = last_word(tag);
    if w.len() > 0 && all_digits(w) && digits_value(w) <= u32::MAX {
        digits_value(w) as u32
    } else {
        0
    }
}

proof fn lemma_digits_prefix(w: Seq<u8>, i: int)
    requires
        all_digits(w),
        0 <= i <= w.len(),
    ensures
        0 <= digits_value(w.take(i)) <= digits_value(w),
    decreases w.len(),
{
    if w.len() > 0 {
        if i < w.len() {
            assert(w.drop_last().take(i) =~= w.take(i));
            lemma_digits_prefix(w.drop_last(), i);
        } else {
            assert(w.take(i) =~= w);
            lemma_digits_prefix(w.drop_last(), i - 1);
            assert(w.drop_last().take(i - 1) =~= w.drop_last());
        }
    } else {
        assert(w.take(i) =~= w);
    }
}

/// The decimal digits of `n` read back as a number give `n`.
proof fn lemma_decimal_value(n: nat)
    ensures
        all_digits(decimal(n)),
        decimal(n).len() > 0,
        digits_value(decimal(n)) == n,
        forall|i: int| 0 <= i < decimal(n).len() ==> #[trigger] decimal(n)[i] != 32,
    decreases n,
{
    let d = decimal(n);
    if n < 10 {
        assert(d.drop_last() =~= Seq::<u8>::empty());
        assert(d.last() == 48 + n);
        assert(digits_value(Seq::<u8>::empty()) == 0);
        assert(digits_value(d) == digits_value(d.drop_last()) * 10 + (d.last() - 48));
        assert(digits_value(d) == n);
    } else {
        lemma_decimal_value(n / 10);
        assert(d.drop_last() =~= decimal(n / 10));
        assert(d.last() == 48 + n % 10);
        assert(digits_value(d) == digits_value(decimal(n / 10)) * 10 + n % 10);
        assert((n / 10) * 10 + n % 10 == n) by (nonlinear_arith);
        assert(digits_value(d) == n);
        assert forall|i: int| 0 <= i < d.len() implies 48 <= #[trigger] d[i] <= 57 && d[i] != 32 by {
            if i < d.len() - 1 {
                assert(d[i] == decimal(n / 10)[i]);
            }
        }
    }
}

/// The last word of a tag that ends in a space and then `d`, where `d`
/// holds no space, is `d`.
proof fn lemma_last_word_after_space(a: Seq<u8>, d: Seq<u8>)
    requires
        forall|i: int| 0 <= i < d.len() ==> #[trigger] d[i] != 32,
    ensures
        last_word(a.push(32u8) + d) == d,
    decreases d.len(),
{
    if d.len() == 0 {
        assert(a.push(32u8) + d =~= a.push(32u8));
        assert(a.push(32u8).drop_last() =~= a);
    } else {
        let t = a.push(32u8) + d;
        assert(t.drop_last() =~= a.push(32u8) + d.drop_last());
        lemma_last_word_after_space(a, d.drop_last());
        assert(d.drop_last().push(d.last()) =~= d);
    }
}

/// A command tag reports its row count: for every command word (`SELECT`,
/// `INSERT 0`, `DELETE`, `UPDATE`, ...) and every count `n` that fits a
/// `u32`, the tag made of the word, a space and the decimal digits of `n`
/// gives `n` from [`command_complete`].
pub proof fn law_command_row_count(word: Seq<u8>, n: u32)
    ensures
        row_count(word.push(32u8) + decimal(n as nat)) == n,
{
    lemma_decimal_value(n as nat);
    lemma_last_word_after_space(word, decimal(n as nat));
}

/// Decodes information from a [`CommandComplete`] message: the number of
/// rows the command inserted, deleted, updated, merged, retrieved, moved,
/// fetched or copied, which is the last word of its tag.
pub fn command_complete(cmd: CommandComplete) -> (r: u32)
    ensures
        r == row_count(cmd.tag@),
{
    let s = cmd.tag.as_str().as_bytes();
    let n = s.len();
    let mut j = n;
    assert(s@.take(j as int) =~= s@);
    assert(s@.subrange(j as int, n as int) =~= Seq::<u8>::empty());
    while j > 0 && s[j - 1] != 32
        invariant
            j <= n,
            n == s@.len(),
            last_word(s@) == last_word(s@.take(j as int)) + s@.subrange(j as int, n as int),
        decreases j,
    {
        assert(s@.take(j as int).drop_last() =~= s@.take(j - 1));
        assert(s@.subrange(j - 1, n as int) =~= seq![s@[j - 1]] + s@.subrange(j as int, n as int));
        j = j - 1;
    }
    proof {
        if j > 0 {
            assert(s@.take(j as int).last() == 32);
        }
        assert(last_word(s@.take(j as int)) =~= Seq::<u8>::empty());
    }
    let w = vstd::slice::slice_subrange(s, j, n);
    assert(w@ =~= last_word(s@));
    if w.len() == 0 {
        return 0;
    }
    let mut acc: u64 = 0;
    let mut i: usize = 0;
    while i < w.len()
        invariant
            i <= w@.len(),
            w@ == last_word(s@),
            s@ == cmd.tag@,
            all_digits(w@.take(i as int)),
            acc == digits_value(w@.take(i as int)),
            acc <= u32::MAX,
        decreases w@.len() - i,
    {
        let d = w[i];
        if d < 48 || d > 57 {
            assert(!(48 <= w@[i as int] <= 57));
            return 0;
        }
        assert(w@.take(i + 1).drop_last() =~= w@.take(i as int));
        assert(w@.take(i + 1).last() == d);
        let next = acc * 10 + (d - 48) as u64;
        if next > 0xffff_ffff {
            proof {
                assert(digits_value(w@.take(i + 1)) == next);
                if all_digits(w@) {
                    lemma_digits_prefix(w@, i + 1);
                }
            }
            return 0;
        }
        acc = next;
        i = i + 1;
    }
    assert(w@.take(i as int) =~= w@);
    acc as u32
}

} // verus!
