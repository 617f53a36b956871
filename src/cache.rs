use std::num::NonZeroUsize;

use lru::LruCache;
use vstd::prelude::*;

use crate::tenant::TenantConnection;

verus! {

#[verifier::external_type_specification]
#[verifier::external_body]
#[verifier::reject_recursive_types(K)]
#[verifier::reject_recursive_types(V)]
#[verifier::reject_recursive_types(S)]
pub struct ExLruCache<K, V, S>(lru::LruCache<K, V, S>);

#[verifier::external_type_specification]
#[verifier::external_body]
pub struct ExDefaultHasher(lru::DefaultHasher);

/// The entries of a connection cache, least recently used first.
pub uninterp spec fn lru_entries(c: LruCache<String, TenantConnection>) -> Seq<(Seq<char>, TenantConnection)>;

/// The capacity a connection cache was made with.
pub uninterp spec fn lru_capacity(c: LruCache<String, TenantConnection>) -> nat;

/// Relies on lru's LruCache::new: an empty cache of the given capacity.
#[verifier::external_body]
pub(crate) fn cache_new(cap: usize) -> (r: LruCache<String, TenantConnection>)
    requires
        cap >= 1,
    ensures
        lru_entries(r) == Seq::<(Seq<char>, TenantConnection)>::empty(),
        lru_capacity(r) == cap,
{
    LruCache::new(NonZeroUsize::new(cap).unwrap())
}

} // verus!

verus! {

/// Cache entries as pairs of tenant id and connection, least recently used first.
pub type CacheEntries = Seq<(Seq<char>, TenantConnection)>;

pub open spec fn has_key(e: CacheEntries, k: Seq<char>) -> bool {
    exists|i: int| 0 <= i < e.len() && e[i].0 == k
}

pub open spec fn keys_distinct(e: CacheEntries) -> bool {
    forall|i: int, j: int| 0 <= i < e.len() && 0 <= j < e.len() && i != j ==> e[i].0 != e[j].0
}

/// A cache holds each tenant id at most once and no more entries than its capacity.
pub open spec fn cache_wf(e: CacheEntries, cap: nat) -> bool {
    &&& keys_distinct(e)
    &&& e.len() <= cap
    &&& cap >= 1
}

pub open spec fn index_of(e: CacheEntries, k: Seq<char>) -> int {
    choose|i: int| 0 <= i < e.len() && e[i].0 == k
}

/// The connection cached under `k`.
pub open spec fn value_of(e: CacheEntries, k: Seq<char>) -> TenantConnection {
    e[index_of(e, k)].1
}

/// The entries with `k` removed.
pub open spec fn without_key(e: CacheEntries, k: Seq<char>) -> CacheEntries {
    if has_key(e, k) {
        e.remove(index_of(e, k))
    } else {
        e
    }
}

/// The entries after a lookup of `k`: a present key becomes most recently used.
pub open spec fn touched(e: CacheEntries, k: Seq<char>) -> CacheEntries {
    if has_key(e, k) {
        without_key(e, k).push(e[index_of(e, k)])
    } else {
        e
    }
}

/// The entries after storing `v` under `k`: a present key has its value
/// replaced; a new key evicts the least recently used entry when the cache
/// is full. Either way `k` becomes most recently used.
pub open spec fn put_entries(e: CacheEntries, k: Seq<char>, v: TenantConnection, cap: nat) -> CacheEntries {
    if has_key(e, k) {
        without_key(e, k).push((k, v))
    } else if e.len() < cap {
        e.push((k, v))
    } else {
        e.drop_first().push((k, v))
    }
}

/// Relies on lru's LruCache::put: it replaces the value of a present key, or
/// inserts a new one after dropping the least recently used entry of a full
/// cache; the key becomes most recently used.
#[verifier::external_body]
pub(crate) fn cache_put(c: &mut LruCache<String, TenantConnection>, k: String, v: TenantConnection)
    ensures
        lru_entries(*final(c)) == put_entries(lru_entries(*old(c)), k@, v, lru_capacity(*old(c))),
        lru_capacity(*final(c)) == lru_capacity(*old(c)),
{
    c.put(k, v);
}

/// Relies on lru's LruCache::get: it finds the value of a present key and
/// makes that key most recently used. The handle is cloned, which shares the
/// connection.
#[verifier::external_body]
pub(crate) fn cache_get(c: &mut LruCache<String, TenantConnection>, k: &str) -> (r: Option<TenantConnection>)
    ensures
        match r {
            Some(t) => has_key(lru_entries(*old(c)), k@) && t == value_of(lru_entries(*old(c)), k@),
            None => !has_key(lru_entries(*old(c)), k@),
        },
        lru_entries(*final(c)) == touched(lru_entries(*old(c)), k@),
        lru_capacity(*final(c)) == lru_capacity(*old(c)),
{
    c.get(k).cloned()
}

/// Relies on lru's LruCache::peek: it finds the value of a present key and
/// leaves the order of use as it is.
#[verifier::external_body]
pub(crate) fn cache_peek<'a>(c: &'a LruCache<String, TenantConnection>, k: &str) -> (r: Option<&'a TenantConnection>)
    ensures
        match r {
            Some(t) => has_key(lru_entries(*c), k@) && *t == value_of(lru_entries(*c), k@),
            None => !has_key(lru_entries(*c), k@),
        },
{
    c.peek(k)
}

/// Relies on lru's LruCache::pop: it removes a present key and hands back its value.
#[verifier::external_body]
pub(crate) fn cache_pop(c: &mut LruCache<String, TenantConnection>, k: &str) -> (r: Option<TenantConnection>)
    ensures
        match r {
            Some(t) => has_key(lru_entries(*old(c)), k@) && t == value_of(lru_entries(*old(c)), k@),
            None => !has_key(lru_entries(*old(c)), k@),
        },
        lru_entries(*final(c)) == without_key(lru_entries(*old(c)), k@),
        lru_capacity(*final(c)) == lru_capacity(*old(c)),
{
    c.pop(k)
}

proof fn lemma_index_of(e: CacheEntries, k: Seq<char>)
    requires
        keys_distinct(e),
        has_key(e, k),
    ensures
        0 <= index_of(e, k) < e.len(),
        e[index_of(e, k)].0 == k,
        forall|i: int| 0 <= i < e.len() && e[i].0 == k ==> i == index_of(e, k),
{
}

/// Removing a key keeps the others, with their connections, and their order.
pub proof fn lemma_without_key(e: CacheEntries, k: Seq<char>)
    requires
        keys_distinct(e),
    ensures
        keys_distinct(without_key(e, k)),
        !has_key(without_key(e, k), k),
        without_key(e, k).len() == if has_key(e, k) { e.len() - 1 } else { e.len() as int },
        forall|k2: Seq<char>| k2 != k ==> (has_key(without_key(e, k), k2) <==> has_key(e, k2)),
        forall|k2: Seq<char>| k2 != k && has_key(e, k2) ==> value_of(without_key(e, k), k2) == value_of(e, k2),
{
    if has_key(e, k) {
        lemma_index_of(e, k);
        let x = index_of(e, k);
        let w = without_key(e, k);
        assert(w == e.remove(x));
        assert forall|i: int| 0 <= i < w.len() implies w[i] == e[if i < x { i } else { i + 1 }] by {}
        assert forall|k2: Seq<char>| k2 != k && has_key(e, k2) implies has_key(w, k2) && value_of(w, k2) == value_of(e, k2) by {
            lemma_index_of(e, k2);
            let j = index_of(e, k2);
            let jw = if j < x { j } else { j - 1 };
            assert(w[jw].0 == k2);
            assert(has_key(w, k2));
            let iw = index_of(w, k2);
            assert(w[iw] == e[if iw < x { iw } else { iw + 1 }]);
        }
        assert forall|k2: Seq<char>| k2 != k && has_key(w, k2) implies has_key(e, k2) by {
            let iw = choose|i: int| 0 <= i < w.len() && w[i].0 == k2;
            assert(e[if iw < x { iw } else { iw + 1 }].0 == k2);
        }
    }
}

/// Storing a value keeps the cache well formed, and the key then maps to it
/// as the most recently used entry.
pub proof fn lemma_put_entries(e: CacheEntries, k: Seq<char>, v: TenantConnection, cap: nat)
    requires
        cache_wf(e, cap),
    ensures
        cache_wf(put_entries(e, k, v, cap), cap),
        has_key(put_entries(e, k, v, cap), k),
        value_of(put_entries(e, k, v, cap), k) == v,
        put_entries(e, k, v, cap).last() == (k, v),
        forall|k2: Seq<char>| #[trigger] has_key(put_entries(e, k, v, cap), k2) ==> k2 == k || has_key(e, k2),
{
    let p = put_entries(e, k, v, cap);
    let base = if has_key(e, k) {
        without_key(e, k)
    } else if e.len() < cap {
        e
    } else {
        e.drop_first()
    };
    lemma_without_key(e, k);
    assert(p == base.push((k, v)));
    assert(keys_distinct(base));
    assert(!has_key(base, k)) by {
        if !has_key(e, k) && e.len() >= cap {
            if has_key(base, k) {
                let i = choose|i: int| 0 <= i < base.len() && base[i].0 == k;
                assert(e[i + 1].0 == k);
            }
        }
    }
    assert(p[p.len() - 1].0 == k);
    assert(has_key(p, k));
    assert forall|i: int, j: int| 0 <= i < p.len() && 0 <= j < p.len() && i != j implies p[i].0 != p[j].0 by {
        if i == p.len() - 1 {
            assert(base[j].0 != k);
        } else if j == p.len() - 1 {
            assert(base[i].0 != k);
        }
    }
    lemma_index_of(p, k);
    assert forall|k2: Seq<char>| #[trigger] has_key(p, k2) implies k2 == k || has_key(e, k2) by {
        if k2 != k {
            let i = choose|i: int| 0 <= i < p.len() && p[i].0 == k2;
            assert(i < base.len());
            assert(base[i].0 == k2);
            if !has_key(e, k) && e.len() >= cap {
                assert(e[i + 1].0 == k2);
            }
        }
    }
}

/// A lookup keeps the cache well formed and keeps the same connection under
/// every key.
pub proof fn lemma_touched(e: CacheEntries, k: Seq<char>, cap: nat)
    requires
        cache_wf(e, cap),
    ensures
        cache_wf(touched(e, k), cap),
        forall|k2: Seq<char>| has_key(touched(e, k), k2) <==> has_key(e, k2),
        forall|k2: Seq<char>| has_key(e, k2) ==> value_of(touched(e, k), k2) == value_of(e, k2),
{
    if has_key(e, k) {
        lemma_index_of(e, k);
        let t = touched(e, k);
        let v = e[index_of(e, k)].1;
        assert(t == put_entries(e, k, v, cap));
        lemma_put_entries(e, k, v, cap);
        lemma_without_key(e, k);
        let w = without_key(e, k);
        assert(t == w.push((k, v)));
        assert forall|k2: Seq<char>| has_key(e, k2) implies has_key(t, k2) && value_of(t, k2) == value_of(e, k2) by {
            if k2 != k {
                lemma_index_of(w, k2);
                let j = index_of(w, k2);
                assert(t[j] == w[j]);
                lemma_index_of(t, k2);
            }
        }
        assert forall|k2: Seq<char>| has_key(t, k2) implies has_key(e, k2) by {
            if k2 != k {
                let i = choose|i: int| 0 <= i < t.len() && t[i].0 == k2;
                assert(i < w.len());
                assert(w[i].0 == k2);
            }
        }
    }
}

/// Looking up a cached tenant twice yields the same connection: a lookup
/// neither drops the entry nor changes what it holds.
pub proof fn lemma_lookup_keeps_connection(e: CacheEntries, k: Seq<char>, cap: nat)
    requires
        cache_wf(e, cap),
        has_key(e, k),
    ensures
        has_key(touched(e, k), k),
        value_of(touched(e, k), k) == value_of(e, k),
        touched(e, k).last() == (k, value_of(e, k)),
{
    lemma_touched(e, k, cap);
    lemma_index_of(e, k);
}

/// Storing a new key into a full cache evicts exactly the least recently
/// used entry and leaves the cache full.
pub proof fn lemma_put_evicts_least_recent(e: CacheEntries, k: Seq<char>, v: TenantConnection, cap: nat)
    requires
        cache_wf(e, cap),
        e.len() == cap,
        !has_key(e, k),
    ensures
        !has_key(put_entries(e, k, v, cap), e[0].0),
        put_entries(e, k, v, cap).len() == cap,
        forall|i: int| 1 <= i < e.len() ==> has_key(put_entries(e, k, v, cap), e[i].0),
{
    let p = put_entries(e, k, v, cap);
    assert(p == e.drop_first().push((k, v)));
    if has_key(p, e[0].0) {
        let i = choose|i: int| 0 <= i < p.len() && p[i].0 == e[0].0;
        if i < p.len() - 1 {
            assert(p[i] == e[i + 1]);
        } else {
            assert(e[0].0 == k);
        }
    }
    assert forall|i: int| 1 <= i < e.len() implies has_key(p, e[i].0) by {
        assert(p[i - 1] == e[i]);
    }
}

} // verus!
