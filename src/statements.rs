use vstd::prelude::*;

verus! {

/// SQL statements run against the registry (master database). Setting the
/// registry up also takes SQLite's exclusive locking mode, so that once the
/// manager has read or written it, no other connection can change it.
pub enum SqlStatement {
    CreateMasterDb,
    InsertAddTenant,
    DeleteRemoveTenant,
    SelectTenant,
    SelectTenantCounts,
}

/// The text of a registry statement.
pub open spec fn statement_text(s: SqlStatement) -> Seq<char> {
    match s {
        SqlStatement::CreateMasterDb => "PRAGMA locking_mode = EXCLUSIVE; BEGIN; CREATE TABLE IF NOT EXISTS tenants (id INTEGER PRIMARY KEY AUTOINCREMENT, tenant_id TEXT NOT NULL UNIQUE, tenant_path TEXT, tenant_has_path INTEGER NOT NULL DEFAULT 0, created_at TEXT NOT NULL DEFAULT CURRENT_TIMESTAMP); CREATE UNIQUE INDEX IF NOT EXISTS tenants_by_tenant_id ON tenants (tenant_id); COMMIT;"@,
        SqlStatement::InsertAddTenant => "INSERT INTO tenants (tenant_id, tenant_path, tenant_has_path) VALUES (?1, ?2, ?3);"@,
        SqlStatement::DeleteRemoveTenant => "DELETE FROM tenants WHERE tenant_id = ?1;"@,
        SqlStatement::SelectTenant => "SELECT tenant_path, tenant_has_path FROM tenants WHERE tenant_id = ?1;"@,
        SqlStatement::SelectTenantCounts => "SELECT COUNT(*) FROM tenants;"@,
    }
}

impl SqlStatement {
    pub fn as_str(&self) -> (r: &'static str)
        ensures
            r@ == statement_text(*self),
    {
        match self {
            SqlStatement::CreateMasterDb => "PRAGMA locking_mode = EXCLUSIVE; BEGIN; CREATE TABLE IF NOT EXISTS tenants (id INTEGER PRIMARY KEY AUTOINCREMENT, tenant_id TEXT NOT NULL UNIQUE, tenant_path TEXT, tenant_has_path INTEGER NOT NULL DEFAULT 0, created_at TEXT NOT NULL DEFAULT CURRENT_TIMESTAMP); CREATE UNIQUE INDEX IF NOT EXISTS tenants_by_tenant_id ON tenants (tenant_id); COMMIT;",
            SqlStatement::InsertAddTenant => "INSERT INTO tenants (tenant_id, tenant_path, tenant_has_path) VALUES (?1, ?2, ?3);",
            SqlStatement::DeleteRemoveTenant => "DELETE FROM tenants WHERE tenant_id = ?1;",
            SqlStatement::SelectTenant => "SELECT tenant_path, tenant_has_path FROM tenants WHERE tenant_id = ?1;",
            SqlStatement::SelectTenantCounts => "SELECT COUNT(*) FROM tenants;",
        }
    }
}

} // verus!
