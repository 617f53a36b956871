use std::path::PathBuf;

use sqlite_tenant::prelude::{Configuration, Connection, ErrorKind, MultiTenantError, MultiTenantManager};
use tempfile::tempdir;

#[derive(Debug)]
struct Person {
    id: i32,
    #[allow(dead_code)]
    name: String,
}

fn in_memory(cap: Option<usize>) -> Configuration {
    Configuration {
        master_db_path: None,
        log_level: None,
        log_dir: None,
        lru_cache_cap: cap,
    }
}

fn count_rows(conn: &Connection, table: &str) -> i64 {
    conn.query_row(&format!("SELECT COUNT(*) FROM {}", table), [], |row| row.get(0))
        .unwrap()
}

#[test]
fn test_master_db_setup() {
    let temp_dir = tempdir().expect("Failed to create temporary directory");
    let master_db_path = temp_dir.path().join("master.sqlite");
    let _ = MultiTenantManager::new(Configuration {
        master_db_path: Some(master_db_path.clone()),
        log_level: None,
        log_dir: None,
        lru_cache_cap: None,
    });
    assert!(master_db_path.exists(), "master.sqlite file does not exist");
}

#[test]
fn test_add_and_remove_tenants() {
    let mut manager = MultiTenantManager::new(Configuration {
        master_db_path: None,
        log_level: None,
        log_dir: None,
        lru_cache_cap: None,
    })
    .unwrap();

    manager.add_tenant("tenant1", None).expect("Failed to add tenant1");
    manager.add_tenant("tenant2", None).expect("Failed to add tenant2");
    manager.add_tenant("tenant3", None).expect("Failed to add tenant3");

    assert_eq!(manager.tenant_count(), 3);
}

#[test]
fn test_sql_query() {
    let temp_dir = tempdir().expect("Failed to create temporary directory");

    let mut manager = MultiTenantManager::new(Configuration {
        master_db_path: Some(temp_dir.path().join("master.sqlite")),
        log_level: None,
        log_dir: None,
        lru_cache_cap: None,
    })
    .unwrap();

    manager.add_tenant("company-1", None).unwrap();

    match manager.add_tenant("company-1", None) {
        Ok(_) => {}
        Err(err) => {
            assert_eq!(err, MultiTenantError::TenantAlreadyExists("company-1".to_string()))
        }
    }

    manager.add_tenant("company-2", None).unwrap();

    // The registry keeps one row per tenant id: the repeated add is refused.
    assert_eq!(2, manager.tenant_count());

    let sql = manager.get_connection("company-1").unwrap().unwrap().connection;

    sql.execute(
        "CREATE TABLE person (
            id   INTEGER PRIMARY KEY,
            name TEXT NOT NULL
        )",
        (),
    )
    .unwrap();

    let mut people: Vec<Person> = Vec::new();
    for i in 0..5 {
        people.push(Person {
            id: i,
            name: "test_user".to_string(),
        })
    }

    let mut stmt = sql.prepare("SELECT id, name FROM person").unwrap();
    let mut person_iter = stmt
        .query_map([], |row| {
            Ok(Person {
                id: row.get(0)?,
                name: row.get(1)?,
            })
        })
        .unwrap();

    for (index, result) in person_iter.by_ref().enumerate() {
        let person = match result {
            Ok(person) => person,
            Err(err) => {
                panic!("Error fetching person: {}", err);
            }
        };
        assert_eq!(index as i32, person.id);
    }
}

#[test]
fn count_follows_adds_and_removes() {
    let mut manager = MultiTenantManager::new(in_memory(None)).unwrap();
    assert_eq!(manager.tenant_count(), 0);
    manager.add_tenant("a", None).unwrap();
    manager.add_tenant("b", None).unwrap();
    manager.add_tenant("c", None).unwrap();
    assert_eq!(manager.tenant_count(), 3);
    manager.remove_tenant("b").unwrap();
    assert_eq!(manager.tenant_count(), 2);
    manager.add_tenant("d", None).unwrap();
    manager.remove_tenant("a").unwrap();
    manager.remove_tenant("c").unwrap();
    assert_eq!(manager.tenant_count(), 1);
    // A failed call counts for nothing.
    assert!(manager.remove_tenant("a").is_err());
    assert!(manager.add_tenant("d", None).is_err());
    assert_eq!(manager.tenant_count(), 1);
}

#[test]
fn second_add_of_an_id_is_refused() {
    let mut manager = MultiTenantManager::new(in_memory(None)).unwrap();
    manager.add_tenant("x", None).unwrap();
    let err = manager.add_tenant("x", None).unwrap_err();
    assert_eq!(err, MultiTenantError::TenantAlreadyExists("x".to_string()));
    assert_eq!(err.kind(), ErrorKind::TenantAlreadyExists);
    assert_eq!(manager.tenant_count(), 1);
}

#[test]
fn removing_an_unknown_tenant_fails() {
    let mut manager = MultiTenantManager::new(in_memory(None)).unwrap();
    manager.add_tenant("kept", None).unwrap();
    let err = manager.remove_tenant("x").unwrap_err();
    assert_eq!(err, MultiTenantError::TenantNotFound("x".to_string()));
    assert_eq!(manager.tenant_count(), 1);
    assert!(manager.get_connection("kept").unwrap().is_some());
}

#[test]
fn unknown_tenant_has_no_connection() {
    let mut manager = MultiTenantManager::new(in_memory(None)).unwrap();
    assert!(manager.get_connection("x").unwrap().is_none());
}

#[test]
fn evicted_file_tenant_is_reloaded_with_its_data() {
    let dir = tempdir().unwrap();
    let mut manager = MultiTenantManager::new(in_memory(Some(2))).unwrap();
    manager.add_tenant("a", Some(dir.path().join("a.sqlite"))).unwrap();
    {
        let a = manager.get_connection("a").unwrap().unwrap();
        a.connection.execute("CREATE TABLE t (v INTEGER)", ()).unwrap();
        a.connection.execute("INSERT INTO t (v) VALUES (7)", ()).unwrap();
    }
    manager.add_tenant("b", Some(dir.path().join("b.sqlite"))).unwrap();
    manager.add_tenant("c", Some(dir.path().join("c.sqlite"))).unwrap();
    assert_eq!(manager.tenant_count(), 3);
    let a = manager.get_connection("a").unwrap().unwrap();
    let v: i64 = a.connection.query_row("SELECT v FROM t", [], |row| row.get(0)).unwrap();
    assert_eq!(v, 7);
}

#[test]
fn evicted_memory_tenant_comes_back_empty() {
    let mut manager = MultiTenantManager::new(in_memory(Some(1))).unwrap();
    manager.add_tenant("a", None).unwrap();
    {
        let a = manager.get_connection("a").unwrap().unwrap();
        a.connection.execute("CREATE TABLE t (v INTEGER)", ()).unwrap();
    }
    manager.add_tenant("b", None).unwrap();
    let a = manager.get_connection("a").unwrap().unwrap();
    let tables = count_rows(&a.connection, "sqlite_master");
    assert_eq!(tables, 0);
}

#[test]
fn repeated_lookups_share_one_connection() {
    let mut manager = MultiTenantManager::new(in_memory(None)).unwrap();
    manager.add_tenant("x", None).unwrap();
    let first = manager.get_connection("x").unwrap().unwrap();
    let second = manager.get_connection("x").unwrap().unwrap();
    first.connection.execute("CREATE TABLE t (v INTEGER)", ()).unwrap();
    first.connection.execute("INSERT INTO t (v) VALUES (1)", ()).unwrap();
    assert_eq!(count_rows(&second.connection, "t"), 1);
}

#[test]
fn shared_connection_blocks_removal() {
    let mut manager = MultiTenantManager::new(in_memory(None)).unwrap();
    manager.add_tenant("x", None).unwrap();
    let held = manager.get_connection("x").unwrap().unwrap();
    assert_eq!(held.holders(), 2);
    let err = manager.remove_tenant("x").unwrap_err();
    assert_eq!(err, MultiTenantError::ResourceBusy("x".to_string()));
    assert_eq!(manager.tenant_count(), 1);
    drop(held);
    manager.remove_tenant("x").unwrap();
    assert_eq!(manager.tenant_count(), 0);
    assert!(manager.get_connection("x").unwrap().is_none());
}

#[test]
fn evicted_tenant_can_still_be_removed() {
    let mut manager = MultiTenantManager::new(in_memory(Some(1))).unwrap();
    manager.add_tenant("a", None).unwrap();
    manager.add_tenant("b", None).unwrap();
    manager.remove_tenant("a").unwrap();
    assert_eq!(manager.tenant_count(), 1);
    assert!(manager.get_connection("a").unwrap().is_none());
}

#[test]
fn zero_capacity_is_a_configuration_error() {
    let err = MultiTenantManager::new(in_memory(Some(0))).err().unwrap();
    assert_eq!(err.kind(), ErrorKind::ConfigurationError);
}

#[test]
fn unopenable_registry_is_a_configuration_error() {
    let dir = tempdir().unwrap();
    let config = Configuration {
        master_db_path: Some(dir.path().join("missing").join("master.sqlite")),
        log_level: None,
        log_dir: None,
        lru_cache_cap: None,
    };
    let err = MultiTenantManager::new(config).err().unwrap();
    assert_eq!(err.kind(), ErrorKind::ConfigurationError);
}

#[test]
fn registry_file_outlives_the_manager() {
    let dir = tempdir().unwrap();
    let master: PathBuf = dir.path().join("master.sqlite");
    let config = Configuration {
        master_db_path: Some(master.clone()),
        log_level: None,
        log_dir: None,
        lru_cache_cap: None,
    };
    {
        let mut manager = MultiTenantManager::new(config.clone()).unwrap();
        manager.add_tenant("a", Some(dir.path().join("a.sqlite"))).unwrap();
        manager.add_tenant("b", None).unwrap();
    }
    let mut manager = MultiTenantManager::new(config).unwrap();
    assert_eq!(manager.tenant_count(), 2);
    assert!(manager.get_connection("a").unwrap().is_some());
    assert_eq!(
        manager.add_tenant("a", None).unwrap_err(),
        MultiTenantError::TenantAlreadyExists("a".to_string())
    );
}

#[test]
fn failed_commit_leaves_no_tenant() {
    let dir = tempdir().unwrap();
    let master = dir.path().join("master.sqlite");
    let config = Configuration {
        master_db_path: Some(master.clone()),
        log_level: None,
        log_dir: None,
        lru_cache_cap: None,
    };
    // Create the registry, then reopen it: a manager that has only read it
    // shares it with readers until it writes.
    drop(MultiTenantManager::new(config.clone()).unwrap());
    let mut manager = MultiTenantManager::new(config).unwrap();
    // An open read transaction elsewhere keeps the manager from committing.
    let reader = Connection::open(&master).unwrap();
    reader.execute_batch("BEGIN; SELECT COUNT(*) FROM tenants;").unwrap();
    let err = manager.add_tenant("x", None).unwrap_err();
    assert_eq!(err.kind(), ErrorKind::DatabaseError);
    reader.execute_batch("COMMIT;").unwrap();
    drop(reader);
    assert_eq!(manager.tenant_count(), 0);
    assert!(manager.get_connection("x").unwrap().is_none());
    manager.add_tenant("x", None).unwrap();
    assert_eq!(manager.tenant_count(), 1);
}

#[test]
fn registry_is_held_by_one_manager() {
    let dir = tempdir().unwrap();
    let config = Configuration {
        master_db_path: Some(dir.path().join("master.sqlite")),
        log_level: None,
        log_dir: None,
        lru_cache_cap: None,
    };
    let mut first = MultiTenantManager::new(config.clone()).unwrap();
    first.add_tenant("x", None).unwrap();
    let err = MultiTenantManager::new(config.clone()).err().unwrap();
    assert_eq!(err.kind(), ErrorKind::ConfigurationError);
    drop(first);
    let mut second = MultiTenantManager::new(config).unwrap();
    assert_eq!(second.tenant_count(), 1);
    assert_eq!(
        second.add_tenant("x", None).unwrap_err(),
        MultiTenantError::TenantAlreadyExists("x".to_string())
    );
    assert_eq!(second.tenant_count(), 1);
}

#[test]
fn tenant_that_cannot_be_opened_stays_registered() {
    let dir = tempdir().unwrap();
    let mut manager = MultiTenantManager::new(in_memory(None)).unwrap();
    let unopenable = dir.path().join("missing").join("x.sqlite");
    manager.add_tenant("x", Some(unopenable)).unwrap();
    assert_eq!(manager.tenant_count(), 1);
    assert_eq!(manager.get_connection("x").err().unwrap().kind(), ErrorKind::DatabaseError);
    manager.remove_tenant("x").unwrap();
    assert_eq!(manager.tenant_count(), 0);
}
