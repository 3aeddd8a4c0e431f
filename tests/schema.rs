use origin_monitor::error::init_failure_text;
use origin_monitor::schema::{
    create_index_statement, create_table_statement, schema_script, transaction_script,
};

#[test]
fn table_statement_creates_only_where_absent() {
    assert_eq!(
        create_table_statement("t", "a INTEGER"),
        "CREATE TABLE IF NOT EXISTS t (\na INTEGER\n);"
    );
}

#[test]
fn index_statement_creates_only_where_absent() {
    assert_eq!(
        create_index_statement("idx_t_a", "t(a)"),
        "CREATE INDEX IF NOT EXISTS idx_t_a ON t(a);"
    );
}

#[test]
fn transaction_script_wraps_statements_in_order() {
    let stmts = vec!["S1;".to_string(), "S2;".to_string()];
    assert_eq!(transaction_script(&stmts), "BEGIN TRANSACTION;\nS1;\nS2;\nCOMMIT;\n");
    assert_eq!(transaction_script(&Vec::new()), "BEGIN TRANSACTION;\nCOMMIT;\n");
}

#[test]
fn schema_script_is_one_transaction_over_all_objects() {
    let script = schema_script();
    assert!(script.starts_with("BEGIN TRANSACTION;\nCREATE TABLE IF NOT EXISTS origins (\n"));
    assert!(script.ends_with("COMMIT;\n"));
    let order = [
        "CREATE TABLE IF NOT EXISTS origins (",
        "CREATE TABLE IF NOT EXISTS clusters (",
        "CREATE TABLE IF NOT EXISTS waves (",
        "CREATE INDEX IF NOT EXISTS idx_clusters_origin_id ON clusters(origin_id);",
        "CREATE INDEX IF NOT EXISTS idx_waves_cluster_id ON waves(cluster_id);",
        "CREATE INDEX IF NOT EXISTS idx_waves_content ON waves((json_extract(content, '$.text')));",
    ];
    let mut from = 0;
    for part in order {
        let at = script[from..].find(part).expect(part);
        from += at + part.len();
    }
    assert_eq!(script.matches("CREATE TABLE").count(), 3);
    assert_eq!(script.matches("CREATE INDEX").count(), 3);
}

#[test]
fn init_failure_text_names_the_cause() {
    assert_eq!(init_failure_text("disk full"), "Failed to initialize database: disk full");
    assert_eq!(init_failure_text(""), "Failed to initialize database: ");
}
