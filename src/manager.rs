use std::path::PathBuf;

use lru::LruCache;
use rusqlite::Connection;
use vstd::prelude::*;
use vstd::string::StringExecFns;

use crate::cache::{
    cache_get, cache_new, cache_peek, cache_pop, cache_put, cache_wf, has_key,
    lemma_lookup_keeps_connection, lemma_put_entries, lemma_put_evicts_least_recent, lemma_touched,
    lemma_without_key, lru_capacity, lru_entries, put_entries, touched, value_of, without_key,
    CacheEntries,
};
use crate::config::{capacity_of, Configuration};
use crate::error::{ErrorKind, MultiTenantError};
use crate::registry::{
    count_or_zero, delete_args, delete_outcome, insert_outcome, location_spec, opt_view,
    path_from_text, path_text, registry_count, registry_lookup, registry_rows, registry_setup,
    registry_write, inserted_row, row_args, row_location, stored_location, tenant_row_args, open_memory, RegistryRow,
};
use crate::statements::SqlStatement;
use crate::tenant::{open_file, CloseError, TenantConnection};

verus! {

/// A registry of tenants, kept in a master database, and a bounded
/// least-recently-used cache of their open connections.
pub struct MultiTenantManager {
    /// The registry: the one durable record of which tenants exist and where
    /// their databases are.
    pub(crate) master_db: Connection,
    /// The open connections, by tenant id.
    pub(crate) cache: LruCache<String, TenantConnection>,
}

/// `prefix` followed by the text of `e`.
fn prefixed(prefix: &str, e: &MultiTenantError) -> (r: String)
    ensures
        r@ == prefix@ + e@.1,
{
    let mut s = String::from_str(prefix);
    s.append(e.detail().as_str());
    s
}

/// The message of the error for a cache capacity of zero.
pub open spec fn zero_capacity_text() -> Seq<char> {
    "the cache capacity must be at least 1"@
}

impl MultiTenantManager {
    /// The registry rows, by tenant id.
    pub closed spec fn registry(&self) -> Map<Seq<char>, RegistryRow> {
        registry_rows(self.master_db)
    }

    /// The cached connections, least recently used first.
    pub closed spec fn entries(&self) -> CacheEntries {
        lru_entries(self.cache)
    }

    /// The most connections the cache holds.
    pub closed spec fn capacity(&self) -> nat {
        lru_capacity(self.cache)
    }

    /// The registered tenant ids.
    pub open spec fn ids(&self) -> Set<Seq<char>> {
        self.registry().dom()
    }

    /// Whether a connection of the tenant is cached.
    pub open spec fn is_cached(&self, tenant_id: Seq<char>) -> bool {
        has_key(self.entries(), tenant_id)
    }

    /// The cache holds each tenant at most once, no more than its capacity,
    /// and only tenants that the registry holds.
    pub open spec fn wf(&self) -> bool {
        &&& cache_wf(self.entries(), self.capacity())
        &&& self.ids().finite()
        &&& forall|k: Seq<char>| #[trigger] self.is_cached(k) ==> self.ids().contains(k)
    }

    /// What `add_tenant(tenant_id, path)` does, where `has_path` says
    /// whether a path was given.
    pub open spec fn add_effect(self, tenant_id: Seq<char>, has_path: bool, after: Self, r: Result<(), MultiTenantError>) -> bool {
        &&& after.capacity() == self.capacity()
        &&& self.ids().contains(tenant_id) ==> r is Err
        &&& r is Ok ==> {
            &&& after.registry() == self.registry().insert(tenant_id, after.registry()[tenant_id])
            &&& after.registry()[tenant_id].1 == has_path
            &&& !has_path ==> after.registry()[tenant_id].0 == Some(Seq::<char>::empty())
            &&& after.entries() == self.entries() || {
                &&& after.entries() == put_entries(self.entries(), tenant_id, after.entries().last().1, self.capacity())
                &&& after.entries().last().0 == tenant_id
                &&& after.entries().last().1.in_memory@ == !has_path
            }
        }
        &&& r is Err ==> after.registry() == self.registry() && after.entries() == self.entries()
        &&& r matches Err(e) ==> (e@.0 == ErrorKind::TenantAlreadyExists ==> e@.1 == tenant_id && self.ids().contains(tenant_id))
    }

    /// What `remove_tenant(tenant_id)` does.
    pub open spec fn remove_effect(self, tenant_id: Seq<char>, after: Self, r: Result<(), MultiTenantError>) -> bool {
        &&& after.capacity() == self.capacity()
        &&& r is Ok ==> {
            &&& self.ids().contains(tenant_id)
            &&& after.registry() == self.registry().remove(tenant_id)
            &&& after.entries() == without_key(self.entries(), tenant_id)
        }
        &&& r is Err ==> after.registry() == self.registry()
        &&& r is Err ==> after.entries() == self.entries() || after.entries() == without_key(self.entries(), tenant_id)
        &&& !self.ids().contains(tenant_id) ==> {
            &&& r matches Err(e) && (e@.0 == ErrorKind::TenantNotFound || e@.0 == ErrorKind::DatabaseError)
            &&& after.entries() == self.entries()
        }
        &&& r matches Err(e) ==> (e@.0 == ErrorKind::ResourceBusy ==> {
            &&& e@.1 == tenant_id
            &&& self.is_cached(tenant_id)
            &&& after.entries() == self.entries()
        })
    }

    /// What a lookup of a cached tenant does: it hands out the cached
    /// connection, which stays cached, now as the most recently used.
    pub open spec fn cached_lookup(self, tenant_id: Seq<char>, after: Self, r: Result<Option<TenantConnection>, MultiTenantError>) -> bool {
        &&& r matches Ok(Some(c)) && c == value_of(self.entries(), tenant_id)
        &&& after.entries() == touched(self.entries(), tenant_id)
        &&& after.is_cached(tenant_id)
        &&& value_of(after.entries(), tenant_id) == value_of(self.entries(), tenant_id)
        &&& after.capacity() == self.capacity()
    }

    /// What `get_connection(tenant_id)` does. It never changes the registry.
    pub open spec fn lookup_effect(self, tenant_id: Seq<char>, after: Self, r: Result<Option<TenantConnection>, MultiTenantError>) -> bool {
        &&& after.registry() == self.registry()
        &&& after.capacity() == self.capacity()
        &&& self.is_cached(tenant_id) ==> self.cached_lookup(tenant_id, after, r)
        &&& !self.is_cached(tenant_id) ==> match r {
            Ok(Some(c)) => {
                &&& self.ids().contains(tenant_id)
                &&& after.entries() == put_entries(self.entries(), tenant_id, c, self.capacity())
                &&& c.in_memory@ == (row_location(self.registry()[tenant_id]) is None)
            },
            Ok(None) => !self.ids().contains(tenant_id) && after.entries() == self.entries(),
            Err(_) => after.entries() == self.entries(),
        }
    }

    /// Opens the registry, sets it up, and makes an empty cache. A capacity
    /// of zero, a registry that cannot be opened and one that cannot be set
    /// up are configuration errors. An in-memory registry starts empty.
    pub fn new(config: Configuration) -> (r: Result<Self, MultiTenantError>)
        ensures
            r matches Err(e) ==> e@.0 == ErrorKind::ConfigurationError,
            r matches Err(e) ==> (e@.1 == zero_capacity_text() <==> capacity_of(config) == 0),
            capacity_of(config) == 0 ==> r is Err,
            r matches Ok(m) ==> {
                &&& m.wf()
                &&& m.entries() == Seq::<(Seq<char>, TenantConnection)>::empty()
                &&& m.capacity() == capacity_of(config)
                &&& config.master_db_path is None ==> m.ids() == Set::<Seq<char>>::empty()
            },
    {
        proof {
            reveal_strlit("the cache capacity must be at least 1");
            reveal_strlit("Failed to open database: ");
            reveal_strlit("Failed to init master database: ");
        }
        let cap = config.cache_capacity();
        if cap == 0 {
            return Err(MultiTenantError::ConfigurationError(String::from_str("the cache capacity must be at least 1")));
        }
        let opened = match &config.master_db_path {
            Some(p) => open_file(p),
            None => open_memory(),
        };
        let mut master_db = match opened {
            Ok(c) => c,
            Err(e) => {
                let e = MultiTenantError::from_engine(&e);
                let s = prefixed("Failed to open database: ", &e);
                assert(s@[0] != zero_capacity_text()[0]);
                return Err(MultiTenantError::ConfigurationError(s));
            },
        };
        let ghost rows0 = registry_rows(master_db);
        match Self::init_master_db(&mut master_db) {
            Ok(()) => {},
            Err(e) => {
                let s = prefixed("Failed to init master database: ", &e);
                assert(s@[0] != zero_capacity_text()[0]);
                return Err(MultiTenantError::ConfigurationError(s));
            },
        }
        let m = MultiTenantManager { master_db, cache: cache_new(cap) };
        proof {
            assert(registry_rows(m.master_db) == rows0);
            if config.master_db_path is None {
                assert(m.ids() =~= Set::<Seq<char>>::empty());
            }
        }
        Ok(m)
    }

    /// Adds a tenant. The registry's unique index decides whether the id is
    /// new: an id it already holds fails with `TenantAlreadyExists`, and
    /// nothing changes. Otherwise the row is committed, and then the
    /// tenant's database is opened (the file at `path`, or a fresh in-memory
    /// one) and cached. Should that open fail, the tenant stays registered,
    /// uncached, and the next `get_connection` opens it again.
    pub fn add_tenant(&mut self, tenant_id: &str, path: Option<PathBuf>) -> (r: Result<(), MultiTenantError>)
        requires
            old(self).wf(),
        ensures
            final(self).wf(),
            old(self).add_effect(tenant_id@, path is Some, *final(self), r),
    {
        let ghost s0 = *self;
        let text = match &path {
            Some(p) => match path_text(p) {
                Some(t) => Some(t),
                None => {
                    return Err(MultiTenantError::DatabaseError(String::from_str("the tenant path is not valid UTF-8")));
                },
            },
            None => None,
        };
        let ghost text_v = text;
        let args = tenant_row_args(tenant_id, text);
        proof {
            reveal_strlit("1");
            reveal_strlit("0");
            assert(args@[0]@ == row_args(tenant_id@, text_v)[0]);
            assert(args@[1]@ == row_args(tenant_id@, text_v)[1]);
            assert(args@[2]@ == row_args(tenant_id@, text_v)[2]);
        }
        let written = registry_write(&mut self.master_db, SqlStatement::InsertAddTenant.as_str(), &args);
        proof {
            assert(args@.map_values(|s: String| s@) == row_args(tenant_id@, text_v));
            assert(self.cache == s0.cache);
        }
        match insert_outcome(written, tenant_id) {
            Ok(()) => {},
            Err(e) => {
                proof {
                    assert(written is Err);
                    assert(self.registry() == s0.registry());
                    lemma_wf_frame(s0, *self);
                }
                return Err(e);
            },
        }
        proof {
            assert(written is Ok);
            assert(self.registry() == s0.registry().insert(tenant_id@, inserted_row(row_args(tenant_id@, text_v))));
            assert(self.ids() == s0.ids().insert(tenant_id@));
            assert(s0.ids().subset_of(self.ids()));
            lemma_wf_frame(s0, *self);
        }
        let ghost s1 = *self;
        match TenantConnection::open_at(&path) {
            Ok(connection) => {
                proof {
                    lemma_put_entries(self.entries(), tenant_id@, connection, self.capacity());
                }
                cache_put(&mut self.cache, String::from_str(tenant_id), connection);
                proof {
                    assert(self.registry() == s1.registry());
                    assert forall|k: Seq<char>| #[trigger] self.is_cached(k) implies self.ids().contains(k) by {
                        assert(has_key(put_entries(s1.entries(), tenant_id@, connection, s1.capacity()), k));
                        if k != tenant_id@ {
                            assert(s1.is_cached(k));
                        }
                    }
                }
            },
            Err(_) => {},
        }
        proof {
            assert("0"@[0] != "1"@[0]);
            assert(self.registry() == s0.registry().insert(tenant_id@, self.registry()[tenant_id@]));
        }
        Ok(())
    }

    /// Removes a tenant: closes and drops its cached connection, then
    /// deletes its registry row. A tenant the registry does not hold fails
    /// with `TenantNotFound`. A cached connection that other holders still
    /// share fails the whole call with `ResourceBusy`, and nothing changes.
    pub fn remove_tenant(&mut self, tenant_id: &str) -> (r: Result<(), MultiTenantError>)
        requires
            old(self).wf(),
        ensures
            final(self).wf(),
            old(self).remove_effect(tenant_id@, *final(self), r),
    {
        let ghost s0 = *self;
        let busy = match cache_peek(&self.cache, tenant_id) {
            Some(t) => t.holders() > 1,
            None => false,
        };
        if busy {
            assert(self.is_cached(tenant_id@));
            return Err(MultiTenantError::ResourceBusy(String::from_str(tenant_id)));
        }
        proof {
            lemma_without_key(self.entries(), tenant_id@);
            if !s0.ids().contains(tenant_id@) {
                assert(!s0.is_cached(tenant_id@));
            }
        }
        let popped = cache_pop(&mut self.cache, tenant_id);
        proof {
            assert(self.entries() == without_key(s0.entries(), tenant_id@));
            assert forall|k: Seq<char>| #[trigger] self.is_cached(k) implies s0.is_cached(k) && k != tenant_id@ by {}
            assert forall|k: Seq<char>| #[trigger] self.is_cached(k) implies self.ids().contains(k) by {
                assert(s0.is_cached(k));
            }
            if !s0.is_cached(tenant_id@) {
                assert(self.entries() == s0.entries());
            }
        }
        let ghost s1 = *self;
        match popped {
            Some(t) => match t.close() {
                Ok(()) => {},
                Err(CloseError::Shared(_)) => {
                    let mut s = String::from_str("Failed to close connection for ");
                    s.append(tenant_id);
                    s.append(": it is still shared");
                    return Err(MultiTenantError::DatabaseError(s));
                },
                Err(CloseError::Engine(e)) => {
                    let e = MultiTenantError::from_engine(&e);
                    let mut s = String::from_str("Failed to close connection for ");
                    s.append(tenant_id);
                    s.append(": ");
                    s.append(e.detail().as_str());
                    return Err(MultiTenantError::DatabaseError(s));
                },
            },
            None => {},
        }
        let args = delete_args(tenant_id);
        let deleted = registry_write(&mut self.master_db, SqlStatement::DeleteRemoveTenant.as_str(), &args);
        proof {
            assert(args@.map_values(|s: String| s@)[0] == tenant_id@);
            assert(self.cache == s1.cache);
            if deleted is Ok {
                assert(self.registry() == s0.registry().remove(tenant_id@));
                if !s0.ids().contains(tenant_id@) {
                    assert(self.registry() =~= s0.registry());
                }
            } else {
                assert(self.registry() == s0.registry());
            }
            assert forall|k: Seq<char>| #[trigger] self.is_cached(k) implies self.ids().contains(k) by {
                assert(s1.is_cached(k));
                assert(s0.is_cached(k) && k != tenant_id@);
            }
        }
        delete_outcome(deleted, tenant_id)
    }

    /// The connection of a tenant. A cached one is handed out at once and
    /// becomes most recently used. Otherwise the registry is asked: a
    /// tenant it does not hold gives `None`, not an error; one it holds is
    /// reopened from its stored location, cached, and handed out. A tenant
    /// kept in memory has no stored location: once evicted it comes back as
    /// a new, empty database.
    pub fn get_connection(&mut self, tenant_id: &str) -> (r: Result<Option<TenantConnection>, MultiTenantError>)
        requires
            old(self).wf(),
        ensures
            final(self).wf(),
            old(self).lookup_effect(tenant_id@, *final(self), r),
    {
        let ghost s0 = *self;
        proof {
            lemma_touched(self.entries(), tenant_id@, self.capacity());
            if has_key(self.entries(), tenant_id@) {
                lemma_lookup_keeps_connection(self.entries(), tenant_id@, self.capacity());
            }
        }
        let hit = cache_get(&mut self.cache, tenant_id);
        proof {
            assert forall|k: Seq<char>| #[trigger] self.is_cached(k) implies self.ids().contains(k) by {
                assert(s0.is_cached(k));
            }
        }
        match hit {
            Some(c) => Ok(Some(c)),
            None => match Self::load_tenant_from_db(&self.master_db, tenant_id) {
                Ok(Some(c)) => {
                    proof {
                        lemma_put_entries(self.entries(), tenant_id@, c, self.capacity());
                    }
                    cache_put(&mut self.cache, String::from_str(tenant_id), c.share());
                    proof {
                        assert forall|k: Seq<char>| #[trigger] self.is_cached(k) implies self.ids().contains(k) by {
                            if k != tenant_id@ {
                                assert(s0.is_cached(k));
                            }
                        }
                    }
                    Ok(Some(c))
                },
                Ok(None) => Ok(None),
                Err(e) => Err(e),
            },
        }
    }

    /// The number of tenants the registry holds, or zero when it cannot be
    /// read. The cache is never counted: eviction makes it smaller than the
    /// registry.
    pub fn tenant_count(&self) -> (r: usize)
        requires
            self.wf(),
        ensures
            r == self.ids().len() || r == 0,
    {
        let counted = registry_count(&self.master_db, SqlStatement::SelectTenantCounts.as_str());
        count_or_zero(counted)
    }

    /// Sets the registry up: creates its table and unique index if missing,
    /// leaving its rows as they are.
    fn init_master_db(conn: &mut Connection) -> (r: Result<(), MultiTenantError>)
        ensures
            r is Ok ==> registry_rows(*final(conn)) == registry_rows(*old(conn)),
            r is Ok ==> registry_rows(*final(conn)).dom().finite(),
    {
        match registry_setup(conn, SqlStatement::CreateMasterDb.as_str()) {
            Ok(()) => Ok(()),
            Err(f) => Err(MultiTenantError::from_failure(f)),
        }
    }

    /// Reopens a tenant from its registry row, if it has one.
    fn load_tenant_from_db(master_db: &Connection, tenant_id: &str) -> (r: Result<Option<TenantConnection>, MultiTenantError>)
        ensures
            r matches Ok(None) ==> !registry_rows(*master_db).contains_key(tenant_id@),
            r matches Ok(Some(c)) ==> registry_rows(*master_db).contains_key(tenant_id@)
                && c.in_memory@ == (row_location(registry_rows(*master_db)[tenant_id@]) is None),
    {
        match registry_lookup(master_db, SqlStatement::SelectTenant.as_str(), tenant_id) {
            Ok(row) => reload_row(row),
            Err(f) => Err(MultiTenantError::from_failure(f)),
        }
    }
}

/// A manager whose cache stays as it was and whose registry only gains
/// tenants stays well formed.
proof fn lemma_wf_frame(a: MultiTenantManager, b: MultiTenantManager)
    requires
        a.wf(),
        b.entries() == a.entries(),
        b.capacity() == a.capacity(),
        a.ids().subset_of(b.ids()),
        b.ids().finite(),
    ensures
        b.wf(),
{
    assert forall|k: Seq<char>| #[trigger] b.is_cached(k) implies b.ids().contains(k) by {
        assert(a.is_cached(k));
    }
}

/// What a registry row read for a tenant comes to: no row means no tenant;
/// a row is reopened from its stored location, or in memory without one.
pub fn reload_row(row: Option<(Option<String>, bool)>) -> (r: Result<Option<TenantConnection>, MultiTenantError>)
    ensures
        row is None <==> r matches Ok(None),
        r matches Ok(Some(c)) ==> row matches Some(x) && c.in_memory@ == (location_spec(x.0, x.1) is None),
        r matches Ok(Some(c)) ==> row matches Some(x) && c.in_memory@ == (row_location((opt_view(x.0), x.1)) is None),
{
    match row {
        None => Ok(None),
        Some((path, has_path)) => {
            let location = match stored_location(path, has_path) {
                Some(t) => Some(path_from_text(t)),
                None => None,
            };
            match TenantConnection::open_at(&location) {
                Ok(c) => Ok(Some(c)),
                Err(e) => Err(MultiTenantError::from_engine(&e)),
            }
        },
    }
}

/// The net number of tenants that a run of calls registers: a successful
/// add counts one, a successful remove minus one, a failed call nothing.
pub open spec fn net_registered(is_add: Seq<bool>, rs: Seq<Result<(), MultiTenantError>>) -> int
    decreases is_add.len(),
{
    if is_add.len() == 0 || rs.len() == 0 {
        0
    } else {
        net_registered(is_add.drop_last(), rs.drop_last()) + if rs.last() is Err {
            0int
        } else if is_add.last() {
            1int
        } else {
            -1int
        }
    }
}

/// Over any run of adds and removes, the number of registered tenants
/// changes by the successful adds minus the successful removes.
pub proof fn lemma_count_tracks_calls(
    states: Seq<MultiTenantManager>,
    ids: Seq<Seq<char>>,
    is_add: Seq<bool>,
    has_path: Seq<bool>,
    rs: Seq<Result<(), MultiTenantError>>,
)
    requires
        states.len() == ids.len() + 1,
        is_add.len() == ids.len(),
        has_path.len() == ids.len(),
        rs.len() == ids.len(),
        states[0].wf(),
        forall|i: int| 0 <= i < ids.len() ==> if is_add[i] {
            states[i].add_effect(ids[i], has_path[i], states[i + 1], rs[i])
        } else {
            states[i].remove_effect(ids[i], states[i + 1], rs[i])
        },
    ensures
        states.last().ids().finite(),
        states.last().ids().len() == states[0].ids().len() + net_registered(is_add, rs),
    decreases ids.len(),
{
    if ids.len() > 0 {
        let n = ids.len() - 1;
        lemma_count_tracks_calls(states.drop_last(), ids.drop_last(), is_add.drop_last(), has_path.drop_last(), rs.drop_last());
        assert(states.drop_last().last() == states[n]);
        assert(states.last() == states[n + 1]);
        if is_add[n] {
            assert(states[n].add_effect(ids[n], has_path[n], states[n + 1], rs[n]));
            if rs[n] is Ok {
                assert(states[n + 1].ids() == states[n].ids().insert(ids[n]));
            }
        } else {
            assert(states[n].remove_effect(ids[n], states[n + 1], rs[n]));
            if rs[n] is Ok {
                assert(states[n + 1].ids() == states[n].ids().remove(ids[n]));
            }
        }
    }
}

/// Adding a tenant twice: the second add fails and changes nothing, so of
/// two adds of one new id at most one succeeds, and the registry holds the
/// id once.
pub proof fn lemma_second_add_fails(
    m0: MultiTenantManager,
    m1: MultiTenantManager,
    m2: MultiTenantManager,
    tenant_id: Seq<char>,
    has_path1: bool,
    has_path2: bool,
    r1: Result<(), MultiTenantError>,
    r2: Result<(), MultiTenantError>,
)
    requires
        m0.add_effect(tenant_id, has_path1, m1, r1),
        m1.add_effect(tenant_id, has_path2, m2, r2),
    ensures
        !(r1 is Ok && r2 is Ok),
        r1 is Ok ==> r2 is Err && m2.registry() == m1.registry() && m2.entries() == m1.entries(),
        !m0.ids().contains(tenant_id) ==> (m2.ids().contains(tenant_id) <==> (r1 is Ok || r2 is Ok)),
{
}

/// Removing a tenant that is not registered fails and changes nothing.
pub proof fn lemma_remove_unknown(m0: MultiTenantManager, m1: MultiTenantManager, tenant_id: Seq<char>, r: Result<(), MultiTenantError>)
    requires
        !m0.ids().contains(tenant_id),
        m0.remove_effect(tenant_id, m1, r),
    ensures
        r is Err,
        m1.registry() == m0.registry(),
        m1.entries() == m0.entries(),
{
}

/// Looking up a tenant that is not registered hands out no connection and
/// changes nothing: it gives `None` unless the registry cannot be read.
pub proof fn lemma_lookup_unknown(m0: MultiTenantManager, m1: MultiTenantManager, tenant_id: Seq<char>, r: Result<Option<TenantConnection>, MultiTenantError>)
    requires
        m0.wf(),
        !m0.ids().contains(tenant_id),
        m0.lookup_effect(tenant_id, m1, r),
    ensures
        !(r matches Ok(Some(_))),
        m1.entries() == m0.entries(),
        m1.registry() == m0.registry(),
{
}

/// Looking up a registered tenant that is not cached (one evicted, say)
/// reloads it from its registry row and caches it, unless it fails; it
/// never reports the tenant missing.
pub proof fn lemma_lookup_reloads(m0: MultiTenantManager, m1: MultiTenantManager, tenant_id: Seq<char>, r: Result<Option<TenantConnection>, MultiTenantError>)
    requires
        m0.wf(),
        m0.ids().contains(tenant_id),
        !m0.is_cached(tenant_id),
        m0.lookup_effect(tenant_id, m1, r),
    ensures
        !(r matches Ok(None)),
        r matches Ok(Some(c)) ==> {
            &&& m1.is_cached(tenant_id)
            &&& value_of(m1.entries(), tenant_id) == c
            &&& c.in_memory@ == (row_location(m0.registry()[tenant_id]) is None)
        },
{
    match r {
        Ok(Some(c)) => {
            lemma_put_entries(m0.entries(), tenant_id, c, m0.capacity());
        },
        _ => {},
    }
}

/// Looking a cached tenant up twice in a row hands out the same connection
/// both times.
pub proof fn lemma_repeated_lookup(
    m0: MultiTenantManager,
    m1: MultiTenantManager,
    m2: MultiTenantManager,
    tenant_id: Seq<char>,
    r1: Result<Option<TenantConnection>, MultiTenantError>,
    r2: Result<Option<TenantConnection>, MultiTenantError>,
)
    requires
        m0.is_cached(tenant_id),
        m0.lookup_effect(tenant_id, m1, r1),
        m1.lookup_effect(tenant_id, m2, r2),
    ensures
        r1 is Ok,
        r1 == r2,
{
}

/// Adding a tenant to a full cache drops the least recently used
/// connection and keeps every other one, when the new connection could be
/// opened and cached; the evicted tenant stays registered.
pub proof fn lemma_add_to_full_cache(
    before: MultiTenantManager,
    after: MultiTenantManager,
    tenant_id: Seq<char>,
    has_path: bool,
    r: Result<(), MultiTenantError>,
)
    requires
        before.wf(),
        before.entries().len() == before.capacity(),
        before.add_effect(tenant_id, has_path, after, r),
        r is Ok,
        after.is_cached(tenant_id),
    ensures
        !after.is_cached(before.entries()[0].0),
        after.ids().contains(before.entries()[0].0),
        forall|i: int| 1 <= i < before.entries().len() ==> after.is_cached(#[trigger] before.entries()[i].0),
{
    assert(before.is_cached(before.entries()[0].0));
    if after.entries() == before.entries() {
        assert(before.is_cached(tenant_id));
    } else {
        assert(!before.is_cached(tenant_id));
        let c = after.entries().last().1;
        lemma_put_evicts_least_recent(before.entries(), tenant_id, c, before.capacity());
    }
}

/// An add that fails leaves no trace of a new tenant: the registry is as it
/// was, and a later lookup hands out no connection for it.
pub proof fn lemma_failed_add_leaves_no_tenant(
    m0: MultiTenantManager,
    m1: MultiTenantManager,
    m2: MultiTenantManager,
    tenant_id: Seq<char>,
    has_path: bool,
    r: Result<(), MultiTenantError>,
    r2: Result<Option<TenantConnection>, MultiTenantError>,
)
    requires
        m0.wf(),
        !m0.ids().contains(tenant_id),
        m0.add_effect(tenant_id, has_path, m1, r),
        r is Err,
        m1.lookup_effect(tenant_id, m2, r2),
    ensures
        m1.registry() == m0.registry(),
        !m1.ids().contains(tenant_id),
        !(r2 matches Ok(Some(_))),
        m2.ids() == m0.ids(),
{
    assert(!m0.is_cached(tenant_id));
}

} // verus!
