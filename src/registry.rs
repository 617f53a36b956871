use std::path::PathBuf;

use rusqlite::{Connection, OptionalExtension};
use vstd::prelude::*;
use vstd::string::StringExecFns;

use crate::error::{engine_error, failure_of, EngineFailure, ErrorKind, MultiTenantError};
use crate::statements::{statement_text, SqlStatement};

verus! {

/// A registry row as the manager reads it: the stored path (`None` for SQL
/// NULL) and the path flag.
pub type RegistryRow = (Option<Seq<char>>, bool);

/// The rows of the registry table that a connection holds, by tenant id.
/// A database without that table holds none.
pub uninterp spec fn registry_rows(c: Connection) -> Map<Seq<char>, RegistryRow>;

/// The location a registry row reopens its tenant from: the stored path
/// when the row has the path flag, otherwise none (an in-memory database).
pub open spec fn row_location(row: RegistryRow) -> Option<Seq<char>> {
    if row.1 {
        row.0
    } else {
        None
    }
}

pub open spec fn opt_view(s: Option<String>) -> Option<Seq<char>> {
    match s {
        Some(t) => Some(t@),
        None => None,
    }
}

/// The row that the insert statement writes for its three parameters.
pub open spec fn inserted_row(args: Seq<Seq<char>>) -> RegistryRow {
    (Some(args[1]), args[2] == "1"@)
}

/// What the insert statement, run in its own transaction, does to the rows.
/// The unique index on tenant ids is what refuses an id already present.
pub open spec fn insert_effect(before: Map<Seq<char>, RegistryRow>, args: Seq<Seq<char>>, r: Result<usize, EngineFailure>, after: Map<Seq<char>, RegistryRow>) -> bool {
    &&& r is Ok ==> !before.contains_key(args[0]) && after == before.insert(args[0], inserted_row(args))
    &&& r matches Err(EngineFailure::UniqueViolation(_)) ==> before.contains_key(args[0])
}

/// What the delete statement, run in its own transaction, does to the rows:
/// it reports how many it removed.
pub open spec fn delete_effect(before: Map<Seq<char>, RegistryRow>, args: Seq<Seq<char>>, r: Result<usize, EngineFailure>, after: Map<Seq<char>, RegistryRow>) -> bool {
    r matches Ok(n) ==> after == before.remove(args[0]) && (n == 0 <==> !before.contains_key(args[0]))
}

/// Relies on rusqlite's Connection::open_in_memory: a fresh private
/// database, which has no tables and so no registry rows.
#[verifier::external_body]
pub(crate) fn open_memory() -> (r: Result<Connection, rusqlite::Error>)
    ensures
        r is Ok ==> registry_rows(r->Ok_0).dom() == Set::<Seq<char>>::empty(),
{
    Connection::open_in_memory()
}

/// Relies on rusqlite's Connection::execute_batch: runs the setup statements
/// of the registry, which create its table and unique index when missing
/// and change no row. Their exclusive locking mode keeps every lock the
/// connection takes, so from then on only this connection changes the rows.
#[verifier::external_body]
pub(crate) fn registry_setup(c: &mut Connection, sql: &str) -> (r: Result<(), EngineFailure>)
    requires
        sql@ == statement_text(SqlStatement::CreateMasterDb),
    ensures
        r is Ok ==> registry_rows(*final(c)) == registry_rows(*old(c)),
        r is Ok ==> registry_rows(*final(c)).dom().finite(),
{
    c.execute_batch(sql).map_err(|e| failure_of(&e))
}

/// Relies on rusqlite's Connection::transaction, Connection::execute (reached
/// through the transaction) and Transaction::commit: one insert or delete of
/// a registry row, with text parameters, committed atomically. A transaction
/// that fails is rolled back when dropped, so a failure changes no row.
#[verifier::external_body]
pub(crate) fn registry_write(c: &mut Connection, sql: &str, args: &Vec<String>) -> (r: Result<usize, EngineFailure>)
    requires
        (sql@ == statement_text(SqlStatement::InsertAddTenant) && args@.len() == 3
            && (args@[2]@ == "1"@ || args@[2]@ == "0"@))
        || (sql@ == statement_text(SqlStatement::DeleteRemoveTenant) && args@.len() == 1),
    ensures
        r is Err ==> registry_rows(*final(c)) == registry_rows(*old(c)),
        sql@ == statement_text(SqlStatement::InsertAddTenant) ==> insert_effect(
            registry_rows(*old(c)),
            args@.map_values(|s: String| s@),
            r,
            registry_rows(*final(c)),
        ),
        sql@ == statement_text(SqlStatement::DeleteRemoveTenant) ==> delete_effect(
            registry_rows(*old(c)),
            args@.map_values(|s: String| s@),
            r,
            registry_rows(*final(c)),
        ),
{
    let tx = c.transaction().map_err(|e| failure_of(&e))?;
    let n = tx.execute(sql, rusqlite::params_from_iter(args.iter())).map_err(|e| failure_of(&e))?;
    tx.commit().map_err(|e| failure_of(&e))?;
    Ok(n)
}

/// Relies on rusqlite's Connection::query_row, with OptionalExtension::optional
/// turning the absence of a row into `None`: reads the stored path and the
/// path flag of one tenant.
#[verifier::external_body]
pub(crate) fn registry_lookup(c: &Connection, sql: &str, tenant_id: &str) -> (r: Result<Option<(Option<String>, bool)>, EngineFailure>)
    requires
        sql@ == statement_text(SqlStatement::SelectTenant),
    ensures
        r matches Ok(None) ==> !registry_rows(*c).contains_key(tenant_id@),
        r matches Ok(Some(row)) ==> registry_rows(*c).contains_key(tenant_id@)
            && registry_rows(*c)[tenant_id@] == (opt_view(row.0), row.1),
{
    c.query_row(sql, [tenant_id], |row| Ok((row.get(0)?, row.get(1)?))).optional().map_err(|e| failure_of(&e))
}

/// Relies on rusqlite's Connection::query_row: reads the number of registry rows.
#[verifier::external_body]
pub(crate) fn registry_count(c: &Connection, sql: &str) -> (r: Result<i64, EngineFailure>)
    requires
        sql@ == statement_text(SqlStatement::SelectTenantCounts),
    ensures
        r matches Ok(n) ==> n == registry_rows(*c).dom().len(),
{
    c.query_row(sql, [], |row| row.get(0)).map_err(|e| failure_of(&e))
}

/// Relies on Path::to_str: the path as text, if it is valid UTF-8.
#[verifier::external_body]
pub(crate) fn path_text(p: &PathBuf) -> (r: Option<String>) {
    p.to_str().map(|s| s.to_string())
}

/// Relies on PathBuf::from: a path made of the given text.
#[verifier::external_body]
pub(crate) fn path_from_text(s: String) -> (r: PathBuf) {
    PathBuf::from(s)
}

/// The location a tenant is reopened from: its stored path when the row
/// says it has one, otherwise none, which means an in-memory database.
pub open spec fn location_spec(path: Option<String>, has_path: bool) -> Option<String> {
    if has_path {
        path
    } else {
        None
    }
}

/// The parameters of the registry row of a new tenant: its id, its path
/// text (empty when it has none) and the path flag.
pub open spec fn row_args(tenant_id: Seq<char>, path: Option<String>) -> Seq<Seq<char>> {
    match path {
        Some(p) => seq![tenant_id, p@, "1"@],
        None => seq![tenant_id, Seq::empty(), "0"@],
    }
}

/// What adding a registry row came to: the uniqueness constraint of the
/// registry is what reports an id that is already registered.
pub open spec fn insert_result(r: Result<usize, EngineFailure>, tenant_id: Seq<char>) -> Result<(), (ErrorKind, Seq<char>)> {
    match r {
        Ok(_) => Ok(()),
        Err(EngineFailure::UniqueViolation(_)) => Err((ErrorKind::TenantAlreadyExists, tenant_id)),
        Err(f) => Err(engine_error(f)),
    }
}

/// What deleting a registry row came to: no row deleted means no such tenant.
pub open spec fn delete_result(r: Result<usize, EngineFailure>, tenant_id: Seq<char>) -> Result<(), (ErrorKind, Seq<char>)> {
    match r {
        Ok(0) => Err((ErrorKind::TenantNotFound, tenant_id)),
        Ok(_) => Ok(()),
        Err(f) => Err(engine_error(f)),
    }
}

/// The view of a unit result of the manager.
pub open spec fn unit_view(r: Result<(), MultiTenantError>) -> Result<(), (ErrorKind, Seq<char>)> {
    match r {
        Ok(()) => Ok(()),
        Err(e) => Err(e@),
    }
}

/// The location a registry row reopens its tenant from.
pub fn stored_location(path: Option<String>, has_path: bool) -> (r: Option<String>)
    ensures
        r == location_spec(path, has_path),
{
    if has_path {
        path
    } else {
        None
    }
}

/// The statement parameters of the registry row of a new tenant.
pub fn tenant_row_args(tenant_id: &str, path: Option<String>) -> (r: Vec<String>)
    ensures
        r@.map_values(|s: String| s@) == row_args(tenant_id@, path),
        r@.len() == 3,
        forall|i: int| 0 <= i < 3 ==> #[trigger] r@[i]@ == row_args(tenant_id@, path)[i],
{
    let mut args: Vec<String> = Vec::new();
    args.push(String::from_str(tenant_id));
    match path {
        Some(p) => {
            args.push(p);
            args.push(String::from_str("1"));
        },
        None => {
            args.push(String::new());
            args.push(String::from_str("0"));
        },
    }
    proof {
        assert(args@.map_values(|s: String| s@) =~= row_args(tenant_id@, path));
    }
    args
}

/// The statement parameters of the deletion of a tenant's registry row.
pub fn delete_args(tenant_id: &str) -> (r: Vec<String>)
    ensures
        r@.map_values(|s: String| s@) == seq![tenant_id@],
        r@.len() == 1,
        r@[0]@ == tenant_id@,
{
    let args = vec![String::from_str(tenant_id)];
    proof {
        assert(args@.map_values(|s: String| s@) =~= seq![tenant_id@]);
    }
    args
}

/// Decides the result of adding a registry row from what the engine reported.
pub fn insert_outcome(r: Result<usize, EngineFailure>, tenant_id: &str) -> (out: Result<(), MultiTenantError>)
    ensures
        unit_view(out) == insert_result(r, tenant_id@),
{
    match r {
        Ok(_) => Ok(()),
        Err(EngineFailure::UniqueViolation(_)) => Err(MultiTenantError::TenantAlreadyExists(String::from_str(tenant_id))),
        Err(f) => Err(MultiTenantError::from_failure(f)),
    }
}

/// Decides the result of deleting a registry row from what the engine reported.
pub fn delete_outcome(r: Result<usize, EngineFailure>, tenant_id: &str) -> (out: Result<(), MultiTenantError>)
    ensures
        unit_view(out) == delete_result(r, tenant_id@),
{
    match r {
        Ok(0) => Err(MultiTenantError::TenantNotFound(String::from_str(tenant_id))),
        Ok(_) => Ok(()),
        Err(f) => Err(MultiTenantError::from_failure(f)),
    }
}

/// The tenant count reported for a count query: the count when it is one a
/// `usize` can hold, and zero when the query failed.
pub open spec fn count_spec(r: Result<i64, EngineFailure>) -> int {
    match r {
        Ok(n) => if 0 <= n <= usize::MAX { n as int } else { 0 },
        Err(_) => 0,
    }
}

/// The tenant count reported for what a count query gave.
pub fn count_or_zero(r: Result<i64, EngineFailure>) -> (n: usize)
    ensures
        n == count_spec(r),
{
    match r {
        Ok(n) => if 0 <= n && n as u64 <= usize::MAX as u64 { n as usize } else { 0 },
        Err(_) => 0,
    }
}

} // verus!
