//! The cache of prepared statements: an `lru::LruCache` from the hash of a
//! query string to the statement's name.
use lru::LruCache;
use std::num::NonZeroUsize;
use vstd::prelude::*;

use crate::statement::{all_ascii, StatementName};

verus! {

#[verifier::external_type_specification]
#[verifier::external_body]
#[verifier::reject_recursive_types(K)]
#[verifier::reject_recursive_types(V)]
#[verifier::reject_recursive_types(S)]
pub struct ExLruCache<K, V, S>(lru::LruCache<K, V, S>);

#[verifier::external_type_specification]
#[verifier::external_body]
pub struct ExLruHasher(lru::DefaultHasher);

/// The entries of the cache, most recently used first: each key with the
/// bytes of its statement name.
pub uninterp spec fn lru_entries(c: LruCache<u64, StatementName>) -> Seq<(u64, Seq<u8>)>;

/// The capacity that the cache was made with.
pub uninterp spec fn lru_cap(c: LruCache<u64, StatementName>) -> nat;

/// The position of key `k` among `e`, if it is there.
pub open spec fn key_index(e: Seq<(u64, Seq<u8>)>, k: u64) -> Option<int>
    decreases e.len(),
{
    if e.len() == 0 {
        None
    } else if e[0].0 == k {
        Some(0)
    } else {
        match key_index(e.skip(1), k) {
            Some(i) => Some(i + 1),
            None => None,
        }
    }
}

pub proof fn lemma_key_index(e: Seq<(u64, Seq<u8>)>, k: u64)
    ensures
        key_index(e, k) matches Some(i) ==> 0 <= i < e.len() && e[i].0 == k,
        key_index(e, k) is None ==> forall|j: int| 0 <= j < e.len() ==> e[j].0 != k,
    decreases e.len(),
{
    if e.len() > 0 {
        lemma_key_index(e.skip(1), k);
        assert forall|j: int| 1 <= j < e.len() implies e[j] == e.skip(1)[j - 1] by {}
    }
}

/// `LruCache::new`: an empty cache holding at most `cap` entries.
#[verifier::external_body]
fn lru_new(cap: usize) -> (r: LruCache<u64, StatementName>)
    requires
        cap > 0,
    ensures
        lru_entries(r) == Seq::<(u64, Seq<u8>)>::empty(),
        lru_cap(r) == cap,
{
    LruCache::new(NonZeroUsize::new(cap).unwrap())
}

/// `LruCache::get`, the value copied out: the name stored for `k`, which
/// becomes the most recently used entry; `None`, and no change, when `k`
/// is absent.
#[verifier::external_body]
fn lru_get(c: &mut LruCache<u64, StatementName>, k: u64) -> (r: Option<StatementName>)
    ensures
        lru_cap(*final(c)) == lru_cap(*old(c)),
        match key_index(lru_entries(*old(c)), k) {
            Some(i) => r matches Some(n) && n@ == lru_entries(*old(c))[i].1 && lru_entries(
                *final(c),
            ) == seq![lru_entries(*old(c))[i]] + lru_entries(*old(c)).remove(i),
            None => r is None && lru_entries(*final(c)) == lru_entries(*old(c)),
        },
{
    c.get(&k).cloned()
}

/// `LruCache::push`: stores `v` for `k` as the most recently used entry.
/// When `k` was present its old entry is returned; otherwise, when the
/// cache was full, the least recently used entry is removed and returned.
#[verifier::external_body]
fn lru_push(c: &mut LruCache<u64, StatementName>, k: u64, v: StatementName) -> (r: Option<
    (u64, StatementName),
>)
    ensures
        lru_cap(*final(c)) == lru_cap(*old(c)),
        ({
            let e = lru_entries(*old(c));
            match key_index(e, k) {
                Some(i) => r matches Some((rk, rv)) && rk == k && rv@ == e[i].1 && lru_entries(
                    *final(c),
                ) == seq![(k, v@)] + e.remove(i),
                None => if e.len() == lru_cap(*old(c)) {
                    r matches Some((rk, rv)) && e.len() > 0 && rk == e.last().0 && rv@
                        == e.last().1 && lru_entries(*final(c)) == seq![(k, v@)] + e.drop_last()
                } else {
                    r is None && lru_entries(*final(c)) == seq![(k, v@)] + e
                },
            }
        }),
{
    c.push(k, v)
}

/// The bytes of a well formed statement name.
pub open spec fn name_ok(s: Seq<u8>) -> bool {
    s.len() == 6 && (s[0] == 0 || all_ascii(s))
}

/// Every stored name is well formed.
pub open spec fn names_ok(e: Seq<(u64, Seq<u8>)>) -> bool {
    forall|i: int| 0 <= i < e.len() ==> name_ok(#[trigger] e[i].1)
}

/// No key occurs twice.
pub open spec fn keys_distinct(e: Seq<(u64, Seq<u8>)>) -> bool {
    forall|i: int, j: int| 0 <= i < j < e.len() ==> e[i].0 != e[j].0
}

/// The prepared statements of a connection, by the hash of their query.
#[derive(Debug)]
pub struct StmtCache {
    cache: LruCache<u64, StatementName>,
}

impl StmtCache {
    /// The entries, most recently used first.
    pub closed spec fn entries(&self) -> Seq<(u64, Seq<u8>)> {
        lru_entries(self.cache)
    }

    /// The capacity.
    pub closed spec fn cap(&self) -> nat {
        lru_cap(self.cache)
    }

    /// The cache is within its capacity and holds each key once.
    pub open spec fn wf(&self) -> bool {
        &&& self.cap() > 0
        &&& self.entries().len() <= self.cap()
        &&& keys_distinct(self.entries())
        &&& names_ok(self.entries())
    }

    /// What the cache maps each key to.
    pub open spec fn map(&self) -> Map<u64, Seq<u8>> {
        Map::new(
            |k: u64| key_index(self.entries(), k) is Some,
            |k: u64| self.entries()[key_index(self.entries(), k).unwrap()].1,
        )
    }

    /// An empty cache of `cap` entries.
    pub fn new(cap: usize) -> (r: StmtCache)
        requires
            cap > 0,
        ensures
            r.wf(),
            r.entries() == Seq::<(u64, Seq<u8>)>::empty(),
            r.cap() == cap,
    {
        StmtCache { cache: lru_new(cap) }
    }

    /// The statement prepared for query hash `sqlid`, if cached; a hit
    /// makes it the most recently used entry.
    pub fn get(&mut self, sqlid: u64) -> (r: Option<StatementName>)
        requires
            old(self).wf(),
        ensures
            final(self).wf(),
            final(self).cap() == old(self).cap(),
            final(self).map() == old(self).map(),
            match key_index(old(self).entries(), sqlid) {
                Some(i) => r matches Some(n) && n@ == old(self).entries()[i].1,
                None => r is None,
            },
            r matches Some(n) ==> n.wf(),
    {
        proof {
            lemma_key_index(self.entries(), sqlid);
        }
        let ghost e = self.entries();
        let r = lru_get(&mut self.cache, sqlid);
        proof {
            if let Some(i) = key_index(e, sqlid) {
                lemma_move_front_keeps(e, i);
                assert(name_ok(e[i].1));
            }
        }
        r
    }

    /// Caches `name` for `sqlid`.  Returns the entry that no longer is in
    /// the cache: the old name for `sqlid`, or the least recently used
    /// entry when the cache was full.
    pub fn push(&mut self, sqlid: u64, name: StatementName) -> (r: Option<(u64, StatementName)>)
        requires
            old(self).wf(),
            name.wf(),
        ensures
            r matches Some((_, n)) ==> n.wf(),
            final(self).wf(),
            final(self).cap() == old(self).cap(),
            final(self).entries()[0] == (sqlid, name@),
            final(self).map() == (match r {
                Some((k, _)) => old(self).map().remove(k),
                None => old(self).map(),
            }).insert(sqlid, name@),
            match key_index(old(self).entries(), sqlid) {
                Some(i) => r matches Some((k, n)) && k == sqlid && n@ == old(self).entries()[i].1,
                None => if old(self).entries().len() == old(self).cap() {
                    r matches Some((k, n)) && k == old(self).entries().last().0 && n@
                        == old(self).entries().last().1
                } else {
                    r is None
                },
            },
    {
        proof {
            lemma_key_index(self.entries(), sqlid);
        }
        let ghost e = self.entries();
        let r = lru_push(&mut self.cache, sqlid, name);
        proof {
            lemma_push_map(e, sqlid, name@, self.cap(), r);
            if let Some(i) = key_index(e, sqlid) {
                assert(name_ok(e[i].1));
            } else if e.len() == self.cap() {
                assert(name_ok(e[e.len() - 1].1));
            }
        }
        r
    }
}

/// Moving entry `i` to the front keeps the keys distinct and the map.
proof fn lemma_move_front_keeps(e: Seq<(u64, Seq<u8>)>, i: int)
    requires
        keys_distinct(e),
        0 <= i < e.len(),
    ensures
        keys_distinct(seq![e[i]] + e.remove(i)),
        names_ok(e) ==> names_ok(seq![e[i]] + e.remove(i)),
        forall|k: u64|
            #![trigger key_index(seq![e[i]] + e.remove(i), k)]
            (key_index(seq![e[i]] + e.remove(i), k) is Some <==> key_index(e, k) is Some),
        forall|k: u64|
            key_index(e, k) is Some ==> (seq![e[i]] + e.remove(i))[key_index(
                seq![e[i]] + e.remove(i),
                k,
            ).unwrap()].1 == e[key_index(e, k).unwrap()].1,
{
    let f = seq![e[i]] + e.remove(i);
    assert forall|a: int, b: int| 0 <= a < b < f.len() implies f[a].0 != f[b].0 by {
        let ia = if a == 0 { i } else if a - 1 < i { a - 1 } else { a };
        let ib = if b == 0 { i } else if b - 1 < i { b - 1 } else { b };
        assert(f[a] == e[ia]);
        assert(f[b] == e[ib]);
    }
    assert forall|a: int| names_ok(e) && 0 <= a < f.len() implies name_ok(#[trigger] f[a].1) by {
        let ia = if a == 0 { i } else if a - 1 < i { a - 1 } else { a };
        assert(f[a] == e[ia]);
    }
    assert forall|k: u64| #![trigger key_index(f, k)] (key_index(f, k) is Some <==> key_index(e, k) is Some) by {
        lemma_key_index(f, k);
        lemma_key_index(e, k);
        if let Some(j) = key_index(e, k) {
            let fj = if j == i { 0 } else if j < i { j + 1 } else { j };
            assert(f[fj] == e[j]);
        }
        if let Some(j) = key_index(f, k) {
            let ej = if j == 0 { i } else if j - 1 < i { j - 1 } else { j };
            assert(f[j] == e[ej]);
        }
    }
    assert forall|k: u64| key_index(e, k) is Some implies f[key_index(f, k).unwrap()].1 == e[key_index(e, k).unwrap()].1 by {
        lemma_key_index(f, k);
        lemma_key_index(e, k);
        let j = key_index(f, k).unwrap();
        let ej = if j == 0 { i } else if j - 1 < i { j - 1 } else { j };
        assert(f[j] == e[ej]);
        lemma_distinct_index(e, k, ej);
    }
}

/// In distinct keys, the entry with key `k` is the one `key_index` finds.
proof fn lemma_distinct_index(e: Seq<(u64, Seq<u8>)>, k: u64, j: int)
    requires
        keys_distinct(e),
        0 <= j < e.len(),
        e[j].0 == k,
    ensures
        key_index(e, k) == Some(j),
{
    lemma_key_index(e, k);
    if let Some(m) = key_index(e, k) {
        if m != j {
            if m < j {
                assert(e[m].0 != e[j].0);
            } else {
                assert(e[j].0 != e[m].0);
            }
        }
    }
}

/// The key map of `seq![(k, v)] + rest` where `rest` lacks `k`.
proof fn lemma_front_map(rest: Seq<(u64, Seq<u8>)>, k: u64, v: Seq<u8>)
    requires
        keys_distinct(rest),
        key_index(rest, k) is None,
    ensures
        keys_distinct(seq![(k, v)] + rest),
        forall|q: u64|
            #![trigger key_index(seq![(k, v)] + rest, q)]
            key_index(seq![(k, v)] + rest, q) == (if q == k { Some(0int) } else {
                match key_index(rest, q) {
                    Some(i) => Some(i + 1),
                    None => None,
                }
            }),
{
    let f = seq![(k, v)] + rest;
    lemma_key_index(rest, k);
    assert forall|a: int, b: int| 0 <= a < b < f.len() implies f[a].0 != f[b].0 by {
        if a == 0 {
            assert(f[b] == rest[b - 1]);
        } else {
            assert(f[a] == rest[a - 1]);
            assert(f[b] == rest[b - 1]);
        }
    }
    assert forall|q: u64| #![trigger key_index(f, q)] key_index(f, q) == (if q == k { Some(0int) } else {
        match key_index(rest, q) {
            Some(i) => Some(i + 1),
            None => None,
        }
    }) by {
        assert(f.skip(1) =~= rest);
    }
}

/// The map after a push.
proof fn lemma_push_map(
    e: Seq<(u64, Seq<u8>)>,
    k: u64,
    v: Seq<u8>,
    cap: nat,
    r: Option<(u64, StatementName)>,
)
    requires
        keys_distinct(e),
        e.len() <= cap,
        cap > 0,
        names_ok(e),
        name_ok(v),
    ensures
        ({
            let f = match key_index(e, k) {
                Some(i) => seq![(k, v)] + e.remove(i),
                None => if e.len() == cap {
                    seq![(k, v)] + e.drop_last()
                } else {
                    seq![(k, v)] + e
                },
            };
            let m = Map::new(
                |q: u64| key_index(e, q) is Some,
                |q: u64| e[key_index(e, q).unwrap()].1,
            );
            let removed: Option<u64> = match key_index(e, k) {
                Some(_) => Some(k),
                None => if e.len() == cap {
                    Some(e.last().0)
                } else {
                    None
                },
            };
            &&& keys_distinct(f)
            &&& names_ok(f)
            &&& f.len() <= cap
            &&& f[0] == (k, v)
            &&& Map::new(
                |q: u64| key_index(f, q) is Some,
                |q: u64| f[key_index(f, q).unwrap()].1,
            ) == (match removed {
                Some(x) => m.remove(x),
                None => m,
            }).insert(k, v)
        }),
{
    lemma_key_index(e, k);
    let rest = match key_index(e, k) {
        Some(i) => e.remove(i),
        None => if e.len() == cap {
            e.drop_last()
        } else {
            e
        },
    };
    let removed: Option<u64> = match key_index(e, k) {
        Some(_) => Some(k),
        None => if e.len() == cap {
            Some(e.last().0)
        } else {
            None
        },
    };
    // `rest` is `e` without the removed entry, in order
    let skip_at: int = match key_index(e, k) {
        Some(i) => i,
        None => if e.len() == cap {
            e.len() - 1
        } else {
            e.len() as int
        },
    };
    assert forall|j: int| 0 <= j < rest.len() implies rest[j] == e[if j < skip_at { j } else { j + 1 }] by {}
    assert(rest.len() == e.len() - (if skip_at < e.len() { 1int } else { 0int }));
    assert(keys_distinct(rest)) by {
        assert forall|a: int, b: int| 0 <= a < b < rest.len() implies rest[a].0 != rest[b].0 by {
            let ea = if a < skip_at { a } else { a + 1 };
            let eb = if b < skip_at { b } else { b + 1 };
            assert(rest[a] == e[ea]);
            assert(rest[b] == e[eb]);
        }
    }
    assert(key_index(rest, k) is None) by {
        lemma_key_index(rest, k);
        if let Some(j) = key_index(rest, k) {
            let ej = if j < skip_at { j } else { j + 1 };
            assert(rest[j] == e[ej]);
        }
    }
    lemma_front_map(rest, k, v);
    let f = seq![(k, v)] + rest;
    assert forall|a: int| 0 <= a < f.len() implies name_ok(#[trigger] f[a].1) by {
        if a > 0 {
            let ea = if a - 1 < skip_at { a - 1 } else { a };
            assert(f[a] == rest[a - 1]);
            assert(rest[a - 1] == e[ea]);
        }
    }
    let m = Map::new(|q: u64| key_index(e, q) is Some, |q: u64| e[key_index(e, q).unwrap()].1);
    let mf = Map::new(|q: u64| key_index(f, q) is Some, |q: u64| f[key_index(f, q).unwrap()].1);
    let target = (match removed {
        Some(x) => m.remove(x),
        None => m,
    }).insert(k, v);
    assert forall|q: u64| q != k implies (key_index(rest, q) is Some <==> (key_index(e, q) is Some && removed != Some(q))) && (key_index(rest, q) is Some ==> rest[key_index(rest, q).unwrap()].1 == e[key_index(e, q).unwrap()].1) by {
        lemma_key_index(rest, q);
        lemma_key_index(e, q);
        if let Some(j) = key_index(rest, q) {
            let ej = if j < skip_at { j } else { j + 1 };
            assert(rest[j] == e[ej]);
            lemma_distinct_index(e, q, ej);
            assert(ej != skip_at);
        }
        if let Some(j) = key_index(e, q) {
            if removed != Some(q) {
                assert(j != skip_at);
                let rj = if j < skip_at { j } else { j - 1 };
                assert(rest[rj] == e[j]);
                lemma_distinct_index(rest, q, rj);
            }
        }
    }
    assert forall|q: u64| #[trigger] mf.dom().contains(q) <==> target.dom().contains(q) by {
        if q != k {
            assert(key_index(f, q) is Some <==> key_index(rest, q) is Some);
        }
    }
    assert forall|q: u64| #[trigger] mf.dom().contains(q) implies mf[q] == target[q] by {
        if q != k {
            lemma_key_index(rest, q);
            let j = key_index(rest, q).unwrap();
            assert(key_index(f, q) == Some(j + 1));
            assert(f[j + 1] == rest[j]);
        }
    }
    assert(mf =~= target);
}

} // verus!
