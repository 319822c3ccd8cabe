use turso_pg::literal::{literal_to_value, LiteralValue};
use turso_pg::session_state::SessionState;
use turso_pg::settings::SetValue;
use turso_pg::statement::check_statement_text;

#[test]
fn string_literal_reads_back() {
    for s in ["it's", "", "''", "a\"b", " padded "] {
        let sql = SetValue::StringLiteral(s.to_string()).to_sql_string();
        assert_eq!(literal_to_value(&sql), LiteralValue::Text(s.to_string()));
    }
}

#[test]
fn checked_statement_checks_again_unchanged() {
    let once = check_statement_text("\n  SELECT 1 \t").unwrap();
    assert_eq!(check_statement_text(&once), Ok(once.clone()));
}

#[test]
fn search_path_and_statements_do_not_interfere() {
    let mut s = SessionState::new();
    s.prepare("q".to_string(), "SELECT 1".to_string());
    s.set_search_path(vec!["app".to_string()]);
    assert_eq!(s.lookup_prepared("q"), Ok("SELECT 1".to_string()));
    s.deallocate(None);
    assert_eq!(s.search_path_option(), Some(vec!["app".to_string()]));
}

#[test]
fn prepare_of_one_name_keeps_others() {
    let mut s = SessionState::new();
    s.prepare("a".to_string(), "SELECT 1".to_string());
    s.prepare("b".to_string(), "SELECT 2".to_string());
    s.prepare("a".to_string(), "SELECT 3".to_string());
    assert_eq!(s.lookup_prepared("b"), Ok("SELECT 2".to_string()));
    assert_eq!(s.lookup_prepared("a"), Ok("SELECT 3".to_string()));
}
