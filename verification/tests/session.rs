use turso_pg::error::PgError;
use turso_pg::session_state::SessionState;

fn missing(name: &str) -> PgError {
    PgError::ParseError(format!("prepared statement \"{name}\" does not exist"))
}

#[test]
fn session_prepare_then_lookup() {
    let mut s = SessionState::new();
    s.prepare("q".to_string(), "SELECT name FROM t WHERE id = $1".to_string());
    assert_eq!(
        s.lookup_prepared("q"),
        Ok("SELECT name FROM t WHERE id = $1".to_string())
    );
}

#[test]
fn session_prepare_replaces_query() {
    let mut s = SessionState::new();
    s.prepare("q".to_string(), "SELECT 1".to_string());
    s.prepare("q".to_string(), "SELECT 2".to_string());
    assert_eq!(s.lookup_prepared("q"), Ok("SELECT 2".to_string()));
}

#[test]
fn session_lookup_unknown_name_fails() {
    let s = SessionState::new();
    let err = s.lookup_prepared("nope").unwrap_err();
    assert_eq!(err, missing("nope"));
    assert!(err.message().contains("does not exist"));
}

#[test]
fn session_deallocate_forgets_one_name() {
    let mut s = SessionState::new();
    s.prepare("a".to_string(), "SELECT 1".to_string());
    s.prepare("b".to_string(), "SELECT 2".to_string());
    s.deallocate(Some("a"));
    assert_eq!(s.lookup_prepared("a"), Err(missing("a")));
    assert_eq!(s.lookup_prepared("b"), Ok("SELECT 2".to_string()));
    // Deallocating an unknown name changes nothing.
    s.deallocate(Some("zzz"));
    assert_eq!(s.lookup_prepared("b"), Ok("SELECT 2".to_string()));
}

#[test]
fn session_deallocate_all() {
    let mut s = SessionState::new();
    s.prepare("a".to_string(), "SELECT 1".to_string());
    s.prepare("b".to_string(), "SELECT 2".to_string());
    s.deallocate(None);
    assert_eq!(s.lookup_prepared("a"), Err(missing("a")));
    assert_eq!(s.lookup_prepared("b"), Err(missing("b")));
}

#[test]
fn session_search_path_option() {
    let mut s = SessionState::new();
    assert_eq!(s.search_path_option(), None);
    s.set_search_path(vec!["app".to_string(), "public".to_string()]);
    assert_eq!(
        s.search_path_option(),
        Some(vec!["app".to_string(), "public".to_string()])
    );
    s.set_search_path(vec![]);
    assert_eq!(s.search_path_option(), None);
}
