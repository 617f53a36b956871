use sqlite_tenant::manager::reload_row;
use sqlite_tenant::registry::{
    count_or_zero, delete_args, delete_outcome, insert_outcome, stored_location, tenant_row_args,
};
use sqlite_tenant::statements::SqlStatement;
use sqlite_tenant::{EngineFailure, ErrorKind, LogLevel, MultiTenantError, TenantConnection};

#[test]
fn log_level_names() {
    assert_eq!(LogLevel::Info.as_str(), "info");
    assert_eq!(LogLevel::Warn.as_str(), "warn");
    assert_eq!(LogLevel::Error.as_str(), "error");
    assert_eq!(LogLevel::Trace.as_str(), "trace");
    assert_eq!(LogLevel::Debug.as_str(), "debug");
    assert_eq!(LogLevel::default(), LogLevel::Info);
}

#[test]
fn statement_texts() {
    assert!(SqlStatement::CreateMasterDb.as_str().contains("tenant_id TEXT NOT NULL UNIQUE"));
    assert!(SqlStatement::CreateMasterDb.as_str().starts_with("PRAGMA locking_mode = EXCLUSIVE;"));
    assert_eq!(
        SqlStatement::DeleteRemoveTenant.as_str(),
        "DELETE FROM tenants WHERE tenant_id = ?1;"
    );
    assert_eq!(SqlStatement::SelectTenantCounts.as_str(), "SELECT COUNT(*) FROM tenants;");
}

#[test]
fn failures_translate_to_errors() {
    assert_eq!(
        MultiTenantError::from_failure(EngineFailure::NoRows),
        MultiTenantError::TenantNotFound("No row data found.".to_string())
    );
    assert_eq!(
        MultiTenantError::from_failure(EngineFailure::Sqlite(Some("disk I/O error".to_string()))),
        MultiTenantError::DatabaseError("disk I/O error".to_string())
    );
    assert_eq!(
        MultiTenantError::from_failure(EngineFailure::Sqlite(None)),
        MultiTenantError::DatabaseError("Failed to get database error message.".to_string())
    );
    assert_eq!(
        MultiTenantError::from_failure(EngineFailure::Other),
        MultiTenantError::DatabaseError("Unknown database error".to_string())
    );
}

#[test]
fn error_messages() {
    assert_eq!(
        MultiTenantError::TenantAlreadyExists("a".to_string()).message(),
        "Tenant 'a' already exists"
    );
    assert_eq!(MultiTenantError::TenantNotFound("a".to_string()).message(), "Tenant 'a' not found");
    assert_eq!(MultiTenantError::DatabaseError("boom".to_string()).message(), "Database error: boom");
    assert_eq!(
        MultiTenantError::ConfigurationError("bad".to_string()).message(),
        "Configuration error: bad"
    );
    assert_eq!(MultiTenantError::ResourceBusy("a".to_string()).message(), "Tenant 'a' is still in use");
    assert_eq!(MultiTenantError::ResourceBusy("a".to_string()).kind(), ErrorKind::ResourceBusy);
}

#[test]
fn insert_outcomes() {
    assert_eq!(insert_outcome(Ok(1), "t"), Ok(()));
    assert_eq!(
        insert_outcome(Err(EngineFailure::UniqueViolation(None)), "t"),
        Err(MultiTenantError::TenantAlreadyExists("t".to_string()))
    );
    assert_eq!(
        insert_outcome(Err(EngineFailure::Sqlite(Some("locked".to_string()))), "t"),
        Err(MultiTenantError::DatabaseError("locked".to_string()))
    );
}

#[test]
fn delete_outcomes() {
    assert_eq!(delete_outcome(Ok(1), "t"), Ok(()));
    assert_eq!(
        delete_outcome(Ok(0), "t"),
        Err(MultiTenantError::TenantNotFound("t".to_string()))
    );
    assert_eq!(
        delete_outcome(Err(EngineFailure::Other), "t"),
        Err(MultiTenantError::DatabaseError("Unknown database error".to_string()))
    );
}

#[test]
fn delete_arguments() {
    assert_eq!(delete_args("t"), vec!["t".to_string()]);
}

#[test]
fn registry_rows_reload() {
    assert!(reload_row(None).unwrap().is_none());
    let c = reload_row(Some((Some("ignored.db".to_string()), false))).unwrap().unwrap();
    c.connection.execute("CREATE TABLE t (v INTEGER)", ()).unwrap();
    let dir = tempfile::tempdir().unwrap();
    let file = dir.path().join("kept.db");
    let text = file.to_str().unwrap().to_string();
    let c = reload_row(Some((Some(text), true))).unwrap().unwrap();
    c.connection.execute("CREATE TABLE t (v INTEGER)", ()).unwrap();
    assert!(file.exists());
}

#[test]
fn counts() {
    assert_eq!(count_or_zero(Ok(4)), 4);
    assert_eq!(count_or_zero(Ok(-1)), 0);
    assert_eq!(count_or_zero(Err(EngineFailure::Other)), 0);
}

#[test]
fn stored_locations() {
    assert_eq!(stored_location(Some("a.db".to_string()), true), Some("a.db".to_string()));
    assert_eq!(stored_location(Some("a.db".to_string()), false), None);
    assert_eq!(stored_location(None, true), None);
    assert_eq!(stored_location(Some(String::new()), true), Some(String::new()));
}

#[test]
fn row_arguments() {
    assert_eq!(
        tenant_row_args("t", Some("p.db".to_string())),
        vec!["t".to_string(), "p.db".to_string(), "1".to_string()]
    );
    assert_eq!(
        tenant_row_args("t", None),
        vec!["t".to_string(), String::new(), "0".to_string()]
    );
}

#[test]
fn connection_close_needs_the_last_holder() {
    let conn = TenantConnection::open(None).unwrap();
    let other = conn.share();
    assert_eq!(conn.holders(), 2);
    let back = match conn.close() {
        Err(sqlite_tenant::CloseError::Shared(t)) => t,
        _ => panic!("a shared connection was closed"),
    };
    drop(other);
    assert!(back.close().is_ok());
}

#[test]
fn configuration_capacity() {
    let mut config = sqlite_tenant::Configuration {
        master_db_path: None,
        log_level: Some(LogLevel::Debug),
        log_dir: None,
        lru_cache_cap: None,
    };
    assert_eq!(config.cache_capacity(), 150);
    config.lru_cache_cap = Some(2);
    assert_eq!(config.cache_capacity(), 2);
}
