use dbclient::commands::connection::{disconnect_db, register_connection};
use dbclient::db::cancel::CancellationRegistry;
use dbclient::db::handle::DriverHandle;
use dbclient::db::pool::PoolManager;
use dbclient::db::table::KeyedTable;
use dbclient::error::AppError;
use dbclient::models::connection::{ConnectionConfig, DatabaseCategory, DatabaseType};
use std::sync::Arc;
use tokio::sync::oneshot::error::TryRecvError;

fn not_found(id: &str) -> AppError {
    AppError::ConnectionNotFound(format!("Connection '{}' not found", id))
}

fn config(id: &str) -> ConnectionConfig {
    ConnectionConfig {
        id: id.to_string(),
        name: "local".to_string(),
        db_type: DatabaseType::PostgreSQL,
        host: "localhost".to_string(),
        port: 5432,
        username: "u".to_string(),
        password: "p".to_string(),
        database: "d".to_string(),
        use_ssl: false,
    }
}

#[test]
fn table_insert_get_remove() {
    let mut t: KeyedTable<u32> = KeyedTable::new();
    assert_eq!(t.len(), 0);
    assert!(!t.contains_key("a"));
    assert_eq!(t.get("a"), None);
    t.insert("a".to_string(), 1);
    t.insert("b".to_string(), 2);
    assert_eq!(t.len(), 2);
    assert_eq!(t.get("a"), Some(&1));
    assert_eq!(t.get("b"), Some(&2));
    t.insert("a".to_string(), 3);
    assert_eq!(t.len(), 2);
    assert_eq!(t.get("a"), Some(&3));
    assert_eq!(t.remove("a"), Some(3));
    assert_eq!(t.remove("a"), None);
    assert_eq!(t.len(), 1);
    assert_eq!(t.get("b"), Some(&2));
    assert!(t.contains_key("b"));
}

#[test]
fn table_keys_are_compared_by_their_characters() {
    let mut t: KeyedTable<u32> = KeyedTable::new();
    t.insert("".to_string(), 0);
    t.insert("a".to_string(), 1);
    t.insert("ab".to_string(), 2);
    t.insert("é".to_string(), 3);
    t.insert("e\u{301}".to_string(), 4);
    assert_eq!(t.len(), 5);
    assert_eq!(t.get(""), Some(&0));
    assert_eq!(t.get("a"), Some(&1));
    assert_eq!(t.get("ab"), Some(&2));
    assert_eq!(t.get("é"), Some(&3));
    assert_eq!(t.get("e\u{301}"), Some(&4));
    assert_eq!(t.get("A"), None);
    assert_eq!(t.get("abc"), None);
}

#[test]
fn get_of_an_identifier_never_added_fails() {
    let pool: PoolManager<u32> = PoolManager::new();
    assert_eq!(pool.get("db1"), Err(not_found("db1")));
    assert_eq!(pool.get(""), Err(not_found("")));
    assert_eq!(pool.len(), 0);
}

#[test]
fn remove_of_an_identifier_never_added_fails() {
    let mut pool: PoolManager<u32> = PoolManager::new();
    assert_eq!(pool.remove("db1"), Err(not_found("db1")));
    pool.add("db2".to_string(), 2);
    assert_eq!(pool.remove("db1"), Err(not_found("db1")));
    assert_eq!(pool.len(), 1);
    assert!(pool.contains("db2"));
}

#[test]
fn get_and_remove_after_removal_fail() {
    let mut pool: PoolManager<u32> = PoolManager::new();
    pool.add("db1".to_string(), 1);
    assert_eq!(pool.remove("db1"), Ok(()));
    assert_eq!(pool.get("db1"), Err(not_found("db1")));
    assert_eq!(pool.remove("db1"), Err(not_found("db1")));
    assert!(!pool.contains("db1"));
}

#[test]
fn add_then_get_gives_the_handle() {
    let mut pool: PoolManager<String> = PoolManager::new();
    pool.add("a".to_string(), "first".to_string());
    pool.add("b".to_string(), "second".to_string());
    assert_eq!(*pool.get("a").unwrap(), "first");
    assert_eq!(*pool.get("b").unwrap(), "second");
    assert_eq!(pool.len(), 2);
}

#[test]
fn add_under_a_used_identifier_replaces() {
    let mut pool: PoolManager<u32> = PoolManager::new();
    pool.add("a".to_string(), 1);
    pool.add("b".to_string(), 5);
    pool.add("a".to_string(), 2);
    assert_eq!(*pool.get("a").unwrap(), 2);
    assert_eq!(*pool.get("b").unwrap(), 5);
    assert_eq!(pool.len(), 2);
}

#[test]
fn handle_is_shared_and_outlives_its_removal() {
    let mut pool: PoolManager<String> = PoolManager::new();
    pool.add("a".to_string(), "session".to_string());
    let one = pool.get("a").unwrap();
    let two = pool.get("a").unwrap();
    assert!(Arc::ptr_eq(&one, &two));
    assert_eq!(Arc::strong_count(&one), 3);
    assert_eq!(pool.remove("a"), Ok(()));
    assert_eq!(Arc::strong_count(&one), 2);
    assert_eq!(*one, "session");
}

#[test]
fn identifiers_are_case_sensitive() {
    let mut pool: PoolManager<u32> = PoolManager::new();
    pool.add("Db".to_string(), 1);
    assert_eq!(pool.get("db"), Err(not_found("db")));
    assert_eq!(*pool.get("Db").unwrap(), 1);
}

#[test]
fn connect_registers_under_the_configured_identifier() {
    let mut pool: PoolManager<u32> = PoolManager::new();
    let id = register_connection(&mut pool, &config("conn-1"), 11);
    assert_eq!(id, "conn-1");
    assert_eq!(*pool.get("conn-1").unwrap(), 11);
    let id = register_connection(&mut pool, &config("conn-1"), 12);
    assert_eq!(id, "conn-1");
    assert_eq!(*pool.get("conn-1").unwrap(), 12);
    assert_eq!(pool.len(), 1);
}

#[test]
fn disconnect_then_lookup_fails() {
    let mut pool: PoolManager<u32> = PoolManager::new();
    let id = register_connection(&mut pool, &config("c"), 1);
    assert_eq!(*pool.get(&id).unwrap(), 1);
    assert_eq!(disconnect_db(&id, &mut pool), Ok(()));
    assert_eq!(pool.get(&id), Err(not_found("c")));
    assert_eq!(disconnect_db(&id, &mut pool), Err(not_found("c")));
    assert_eq!(disconnect_db("never", &mut pool), Err(not_found("never")));
}

#[test]
fn cancel_of_a_token_never_registered_is_false() {
    let mut reg = CancellationRegistry::new();
    assert!(!reg.cancel("q1"));
    assert!(!reg.cancel(""));
    assert!(!reg.is_registered("q1"));
}

#[test]
fn cancel_of_a_fresh_token_is_true_exactly_once() {
    let mut reg = CancellationRegistry::new();
    let mut rx = reg.register("q1".to_string());
    assert!(reg.is_registered("q1"));
    assert_eq!(rx.try_recv(), Err(TryRecvError::Empty));
    assert!(reg.cancel("q1"));
    assert_eq!(rx.try_recv(), Ok(()));
    assert!(!reg.cancel("q1"));
    assert!(!reg.is_registered("q1"));
}

#[test]
fn cancel_after_remove_is_false_and_nothing_is_fired() {
    let mut reg = CancellationRegistry::new();
    let mut rx = reg.register("q1".to_string());
    reg.remove("q1");
    assert_eq!(rx.try_recv(), Err(TryRecvError::Closed));
    assert!(!reg.cancel("q1"));
}

#[test]
fn remove_twice_is_a_no_op() {
    let mut reg = CancellationRegistry::new();
    reg.remove("q1");
    let _rx = reg.register("q1".to_string());
    reg.remove("q1");
    reg.remove("q1");
    assert!(!reg.is_registered("q1"));
}

#[test]
fn token_can_be_used_again_after_removal() {
    let mut reg = CancellationRegistry::new();
    let _first = reg.register("q1".to_string());
    assert!(reg.cancel("q1"));
    let mut second = reg.register("q1".to_string());
    assert!(reg.cancel("q1"));
    assert_eq!(second.try_recv(), Ok(()));
    assert!(!reg.cancel("q1"));
}

#[test]
fn second_registration_discards_the_first_unfired() {
    let mut reg = CancellationRegistry::new();
    let mut first = reg.register("q1".to_string());
    let mut second = reg.register("q1".to_string());
    assert_eq!(first.try_recv(), Err(TryRecvError::Closed));
    assert_eq!(second.try_recv(), Err(TryRecvError::Empty));
    assert!(reg.cancel("q1"));
    assert_eq!(second.try_recv(), Ok(()));
    assert_eq!(first.try_recv(), Err(TryRecvError::Closed));
    assert!(!reg.cancel("q1"));
}

#[test]
fn tokens_are_independent() {
    let mut reg = CancellationRegistry::new();
    let mut a = reg.register("a".to_string());
    let mut b = reg.register("b".to_string());
    assert!(reg.cancel("a"));
    assert_eq!(a.try_recv(), Ok(()));
    assert_eq!(b.try_recv(), Err(TryRecvError::Empty));
    assert!(reg.is_registered("b"));
    reg.remove("b");
    assert_eq!(b.try_recv(), Err(TryRecvError::Closed));
}

#[test]
fn cancel_after_the_receiver_is_gone_still_finds_the_token() {
    let mut reg = CancellationRegistry::new();
    let rx = reg.register("q".to_string());
    drop(rx);
    assert!(reg.cancel("q"));
    assert!(!reg.cancel("q"));
}

#[test]
fn narrowing_succeeds_on_a_relational_handle() {
    let h: DriverHandle<&str, &str> = DriverHandle::relational("base", "sql");
    assert_eq!(h.category(), DatabaseCategory::Relational);
    assert_eq!(*h.base(), "base");
    assert_eq!(h.as_sql(), Ok(&"sql"));
}

#[test]
fn narrowing_fails_explicitly_on_a_generic_handle() {
    let h: DriverHandle<&str, &str> = DriverHandle::generic("base");
    assert_eq!(h.category(), DatabaseCategory::Generic);
    assert_eq!(*h.base(), "base");
    assert_eq!(h.as_sql(), Err(AppError::UnsupportedCapability));
}

#[test]
fn entry_count_follows_add_and_remove() {
    let mut pool: PoolManager<u32> = PoolManager::new();
    pool.add("a".to_string(), 1);
    pool.add("b".to_string(), 2);
    let before = pool.len();
    pool.add("c".to_string(), 3);
    assert_eq!(pool.len(), before + 1);
    pool.add("a".to_string(), 9);
    assert_eq!(pool.len(), before + 1);
    assert_eq!(pool.remove("b"), Ok(()));
    assert_eq!(pool.len(), before);
    assert!(pool.remove("b").is_err());
    assert_eq!(pool.len(), before);
}
