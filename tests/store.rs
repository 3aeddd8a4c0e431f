use origin_monitor::store::{enable_foreign_keys, initialize_on, insert_cluster_on, insert_origin_on};
use origin_monitor::{ConnectionPool, OriginMonitor, OriginMonitorError};
use rusqlite::Connection;

fn uri(name: &str) -> String {
    format!("file:{}?mode=memory&cache=shared", name)
}

/// Opens a side connection that keeps the in-memory database alive and lets
/// the test look at it directly.
fn fresh(name: &str) -> (Connection, OriginMonitor) {
    let side = Connection::open(uri(name)).unwrap();
    let pool = ConnectionPool::open(&uri(name)).unwrap();
    let store = OriginMonitor::new(pool).unwrap();
    (side, store)
}

fn extended_code(e: &OriginMonitorError) -> i32 {
    match e {
        OriginMonitorError::DatabaseError(inner) => inner.sqlite_error().unwrap().extended_code,
        other => panic!("expected a database error, got {:?}", other),
    }
}

fn names(side: &Connection, kind: &str) -> Vec<String> {
    let mut stmt = side
        .prepare("SELECT name FROM sqlite_master WHERE type = ?1 AND name NOT LIKE 'sqlite_%' ORDER BY name")
        .unwrap();
    let rows = stmt.query_map([kind], |row| row.get::<_, String>(0)).unwrap();
    rows.map(|r| r.unwrap()).collect()
}

#[test]
fn fresh_store_has_three_tables_and_their_indexes() {
    let (side, _store) = fresh("schema_fresh");
    assert_eq!(names(&side, "table"), vec!["clusters", "origins", "waves"]);
    let indexes = names(&side, "index");
    for wanted in ["idx_clusters_origin_id", "idx_waves_cluster_id", "idx_waves_content"] {
        assert!(indexes.contains(&wanted.to_string()), "missing index {}", wanted);
    }
}

#[test]
fn initializing_twice_keeps_schema_and_data() {
    let (side, mut store) = fresh("schema_twice");
    let before_tables = names(&side, "table");
    let before_indexes = names(&side, "index");
    assert_eq!(store.create_origin("kept").unwrap(), 1);
    let again = OriginMonitor::new(store.pool.clone());
    assert!(again.is_ok());
    assert_eq!(names(&side, "table"), before_tables);
    assert_eq!(names(&side, "index"), before_indexes);
    let mut again = again.unwrap();
    assert_eq!(again.create_origin("kept2").unwrap(), 2);
    assert!(again.create_origin("kept").is_err());
}

#[test]
fn duplicate_origin_name_is_rejected() {
    let (_side, mut store) = fresh("alpha_beta");
    let alpha = store.create_origin("alpha").unwrap();
    let dup = store.create_origin("alpha").unwrap_err();
    assert_eq!(extended_code(&dup), rusqlite::ffi::SQLITE_CONSTRAINT_UNIQUE);
    let beta = store.create_origin("beta").unwrap();
    assert_ne!(alpha, beta);
}

#[test]
fn origin_ids_increase_in_call_order() {
    let (_side, mut store) = fresh("monotonic");
    let mut last = 0i64;
    for i in 0..20 {
        let id = store.create_origin(&format!("origin-{}", i)).unwrap();
        assert!(id > last);
        last = id;
    }
    // a failed insert does not disturb the order
    assert!(store.create_origin("origin-3").is_err());
    let next = store.create_origin("origin-final").unwrap();
    assert!(next > last);
}

#[test]
fn distinct_names_get_distinct_ids() {
    let (_side, mut store) = fresh("distinct");
    let mut ids = Vec::new();
    for i in 0..10 {
        ids.push(store.create_origin(&format!("n{}", i)).unwrap());
    }
    let mut sorted = ids.clone();
    sorted.sort();
    sorted.dedup();
    assert_eq!(sorted.len(), ids.len());
}

#[test]
fn empty_origin_name_is_accepted() {
    let (_side, mut store) = fresh("empty_name");
    assert_eq!(store.create_origin("").unwrap(), 1);
    assert!(store.create_origin("").is_err());
}

#[test]
fn news_then_duplicate_then_blogs() {
    let (_side, mut store) = fresh("news_blogs");
    assert_eq!(store.create_origin("news").unwrap(), 1);
    let dup = store.create_origin("news").unwrap_err();
    assert_eq!(extended_code(&dup), rusqlite::ffi::SQLITE_CONSTRAINT_UNIQUE);
    assert_eq!(store.create_origin("blogs").unwrap(), 2);
}

#[test]
fn cluster_needs_an_existing_origin() {
    let (_side, mut store) = fresh("cluster_fk");
    let missing = store.create_cluster("topic", 42).unwrap_err();
    assert_eq!(extended_code(&missing), rusqlite::ffi::SQLITE_CONSTRAINT_FOREIGNKEY);
    let origin = store.create_origin("src").unwrap();
    assert_eq!(store.create_cluster("topic", origin).unwrap(), 1);
}

#[test]
fn cluster_names_are_unique_per_origin() {
    let (_side, mut store) = fresh("cluster_unique");
    let a = store.create_origin("a").unwrap();
    let b = store.create_origin("b").unwrap();
    let under_a = store.create_cluster("shared", a).unwrap();
    let under_b = store.create_cluster("shared", b).unwrap();
    assert_ne!(under_a, under_b);
    let dup = store.create_cluster("shared", a).unwrap_err();
    assert_eq!(extended_code(&dup), rusqlite::ffi::SQLITE_CONSTRAINT_UNIQUE);
}

#[test]
fn schema_failure_is_an_init_error() {
    let side = Connection::open(uri("init_failure")).unwrap();
    side.execute_batch("CREATE TABLE waves (x INTEGER);").unwrap();
    let pool = ConnectionPool::open(&uri("init_failure")).unwrap();
    match OriginMonitor::new(pool) {
        Err(OriginMonitorError::InitError(msg)) => {
            assert!(msg.starts_with("Failed to initialize database: "));
            assert!(msg.len() > "Failed to initialize database: ".len());
        }
        Err(other) => panic!("expected an init error, got {:?}", other),
        Ok(_) => panic!("expected an init error"),
    }
    // the tables created before the failing index were rolled back
    assert_eq!(names(&side, "table"), vec!["waves"]);
    assert!(names(&side, "index").is_empty());
}

#[test]
fn inserts_on_one_connection_share_its_session() {
    let (_side, store) = fresh("one_connection");
    let mut conn = store.pool.checkout().unwrap();
    enable_foreign_keys(&mut conn).unwrap();
    let origin = insert_origin_on(&mut conn, "o").unwrap();
    assert_eq!(origin, 1);
    assert_eq!(insert_cluster_on(&mut conn, "c", origin).unwrap(), 1);
    let missing = insert_cluster_on(&mut conn, "c", origin + 100).unwrap_err();
    assert_eq!(extended_code(&missing), rusqlite::ffi::SQLITE_CONSTRAINT_FOREIGNKEY);
    let dup = insert_origin_on(&mut conn, "o").unwrap_err();
    assert_eq!(extended_code(&dup), rusqlite::ffi::SQLITE_CONSTRAINT_UNIQUE);
    assert_eq!(insert_origin_on(&mut conn, "p").unwrap(), 2);
}

#[test]
fn initialize_on_is_idempotent_on_one_connection() {
    let (side, store) = fresh("init_on_twice");
    let mut conn = store.pool.checkout().unwrap();
    assert!(initialize_on(&mut conn).is_ok());
    assert!(initialize_on(&mut conn).is_ok());
    assert_eq!(names(&side, "table"), vec!["clusters", "origins", "waves"]);
}
