use lancedb_ffi::chrono_now_ms;
use lancedb_ffi::clock::millis_to_timestamp;
use lancedb_ffi::predicate::{escape_quotes, key_predicate, prefix_predicate};
use lancedb_ffi::table::{
    clear_target, default_table_name, finish_clear, finish_delete, finish_query, finish_write,
    has_table, WritePlan,
};
use lancedb_ffi::{LanceDBHandle, LanceError};

#[test]
fn escape_doubles_quotes() {
    assert_eq!(escape_quotes("it's"), "it''s");
    assert_eq!(escape_quotes("''"), "''''");
    assert_eq!(escape_quotes(""), "");
    assert_eq!(escape_quotes("plain"), "plain");
}

#[test]
fn key_predicate_quotes_key() {
    assert_eq!(key_predicate("k1"), "key = 'k1'");
    assert_eq!(key_predicate("o'brien"), "key = 'o''brien'");
}

#[test]
fn prefix_predicate_quotes_prefix() {
    assert_eq!(prefix_predicate("proj:"), "starts_with(key, 'proj:')");
    assert_eq!(prefix_predicate("a'b"), "starts_with(key, 'a''b')");
}

#[test]
fn open_rejects_non_positive_dimension() {
    assert!(matches!(
        LanceDBHandle::new("/tmp/db".to_string(), 0),
        Err(LanceError::SchemaError { .. })
    ));
    assert!(matches!(
        LanceDBHandle::new("/tmp/db".to_string(), -3),
        Err(LanceError::SchemaError { .. })
    ));
    let h = LanceDBHandle::new("/tmp/db".to_string(), 4).unwrap();
    assert_eq!(h.embedding_dim(), 4);
    assert_eq!(h.db_path(), "/tmp/db");
}

#[test]
fn embedding_length_must_match() {
    let h = LanceDBHandle::new("/tmp/db".to_string(), 4).unwrap();
    assert!(h.check_embedding(4).is_ok());
    assert!(matches!(h.check_embedding(3), Err(LanceError::InsertError { .. })));
    assert!(matches!(h.check_embedding(5), Err(LanceError::InsertError { .. })));
}

#[test]
fn query_length_must_match() {
    let h = LanceDBHandle::new("/tmp/db".to_string(), 4).unwrap();
    assert!(h.check_query(4).is_ok());
    assert!(matches!(h.check_query(0), Err(LanceError::QueryError { .. })));
    assert!(matches!(h.check_query(8), Err(LanceError::QueryError { .. })));
}

#[test]
fn write_failures_by_plan() {
    assert!(finish_write(WritePlan::AppendToTable, Ok(())).is_ok());
    assert!(matches!(
        finish_write(WritePlan::AppendToTable, Err("disk".to_string())),
        Err(LanceError::InsertError { .. })
    ));
    assert!(matches!(
        finish_write(WritePlan::CreateTable, Err("disk".to_string())),
        Err(LanceError::TableError { .. })
    ));
    assert!(matches!(
        finish_write(WritePlan::RecreateTable, Err("disk".to_string())),
        Err(LanceError::TableError { .. })
    ));
}

#[test]
fn delete_and_clear_on_absent_table_succeed() {
    assert!(finish_delete(false, Err("unused".to_string())).is_ok());
    assert!(finish_clear(false, Err("unused".to_string())).is_ok());
    assert!(finish_delete(true, Ok(())).is_ok());
    assert!(finish_clear(true, Ok(())).is_ok());
    assert!(matches!(
        finish_delete(true, Err("bad".to_string())),
        Err(LanceError::DeleteError { .. })
    ));
    assert!(matches!(
        finish_clear(true, Err("bad".to_string())),
        Err(LanceError::TableError { .. })
    ));
}

#[test]
fn query_failure_is_query_error() {
    assert_eq!(finish_query(Ok::<u32, String>(7)).unwrap(), 7);
    let e = finish_query::<u32>(Err("boom".to_string())).unwrap_err();
    assert!(matches!(e, LanceError::QueryError { .. }));
    assert_eq!(e.message(), "boom");
    assert_eq!(e.describe(), "QueryError: boom");
}

#[test]
fn table_names_lookup() {
    let names = vec!["other".to_string(), "memories".to_string()];
    assert!(has_table(&names, "memories"));
    assert!(!has_table(&names, "memory"));
    assert!(!has_table(&Vec::new(), "memories"));
}

#[test]
fn clear_defaults_to_memories() {
    assert_eq!(default_table_name(), "memories");
    assert_eq!(clear_target(None), "memories");
    assert_eq!(clear_target(Some("notes".to_string())), "notes");
}

#[test]
fn describe_names_the_kind() {
    let e = LanceError::ConnectionFailed { message: "no dir".to_string() };
    assert_eq!(e.describe(), "ConnectionFailed: no dir");
    let e = LanceError::SchemaError { message: "dim".to_string() };
    assert_eq!(e.describe(), "SchemaError: dim");
}

#[test]
fn timestamps_are_milliseconds() {
    assert_eq!(millis_to_timestamp(1_700_000_000_123), 1_700_000_000_123);
    assert_eq!(millis_to_timestamp(u128::MAX), i64::MAX);
    let now = chrono_now_ms();
    assert!(now > 1_600_000_000_000);
}
