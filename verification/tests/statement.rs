use turso_pg::error::PgError;
use turso_pg::statement::{
    check_statement_text, choose_statements, query_sql, reject_catalog_dml,
    reject_sqlite_catalog_access, DmlTarget, StatementQueue,
};

#[test]
fn query_sql_trims_and_skips_blank() {
    assert_eq!(query_sql("  SELECT 1  "), Some("SELECT 1".to_string()));
    assert_eq!(query_sql(" \t\n "), None);
    assert_eq!(query_sql(""), None);
}

#[test]
fn sqlite_catalog_is_refused_in_any_case() {
    assert_eq!(
        reject_sqlite_catalog_access("SELECT * FROM SQLITE_MASTER"),
        Err(PgError::ParseError("no such table: sqlite_master".to_string()))
    );
    assert_eq!(
        reject_sqlite_catalog_access("select name from Sqlite_Schema"),
        Err(PgError::ParseError("no such table: sqlite_schema".to_string()))
    );
    assert_eq!(reject_sqlite_catalog_access("SELECT * FROM pg_class"), Ok(()));
}

#[test]
fn sqlite_catalog_master_named_first() {
    assert_eq!(
        reject_sqlite_catalog_access("sqlite_schema sqlite_master"),
        Err(PgError::ParseError("no such table: sqlite_master".to_string()))
    );
}

#[test]
fn check_statement_text_rejects_empty() {
    assert_eq!(
        check_statement_text("   "),
        Err(PgError::InvalidArgument(
            "The supplied SQL string contains no statements".to_string()
        ))
    );
    assert_eq!(check_statement_text(" SELECT 1 "), Ok("SELECT 1".to_string()));
    assert!(check_statement_text("SELECT * FROM sqlite_master").is_err());
}

#[test]
fn choose_statements_falls_back_to_whole_text() {
    assert_eq!(choose_statements(" SELECT 1; ", None), vec!["SELECT 1;".to_string()]);
    assert_eq!(choose_statements(" x ", Some(vec![])), vec!["x".to_string()]);
    assert_eq!(choose_statements("   ", Some(vec![])), Vec::<String>::new());
    let split = vec!["SELECT 1".to_string(), "SELECT 2".to_string()];
    assert_eq!(choose_statements("SELECT 1; SELECT 2", Some(split.clone())), split);
}

#[test]
fn statement_queue_skips_blank_statements() {
    let mut q = StatementQueue::new(vec![
        "SELECT 1".to_string(),
        "  ".to_string(),
        "SELECT 2".to_string(),
        String::new(),
    ]);
    assert_eq!(q.next_statement(), Some("SELECT 1".to_string()));
    assert_eq!(q.next_statement(), Some("SELECT 2".to_string()));
    assert_eq!(q.next_statement(), None);
    assert_eq!(q.next_statement(), None);
}

#[test]
fn catalog_dml_is_refused() {
    assert_eq!(
        reject_catalog_dml(&DmlTarget::Insert("pg_class".to_string()), true),
        Err(PgError::ParseError(
            "cannot insert into pg_catalog table \"pg_class\"".to_string()
        ))
    );
    assert_eq!(
        reject_catalog_dml(&DmlTarget::Delete("pg_type".to_string()), true),
        Err(PgError::ParseError("cannot delete from pg_catalog table \"pg_type\"".to_string()))
    );
    assert_eq!(
        reject_catalog_dml(&DmlTarget::Update("pg_namespace".to_string()), true),
        Err(PgError::ParseError("cannot update pg_catalog table \"pg_namespace\"".to_string()))
    );
    assert_eq!(reject_catalog_dml(&DmlTarget::Insert("t".to_string()), false), Ok(()));
    assert_eq!(reject_catalog_dml(&DmlTarget::Other, true), Ok(()));
}
