use turso_pg::error::PgError;
use turso_pg::literal::LiteralValue;
use turso_pg::session_state::SessionState;
use turso_pg::settings::SetValue;
use turso_pg::special::{special_action, ExplainKind, SpecialAction, SpecialStmt};

#[test]
fn special_prepare_execute_deallocate() {
    let mut s = SessionState::new();
    let r = special_action(
        &mut s,
        SpecialStmt::Prepare {
            name: "q".to_string(),
            query: "SELECT name FROM t WHERE id = $1".to_string(),
        },
    );
    assert_eq!(r, Ok(SpecialAction::Noop));
    let r = special_action(
        &mut s,
        SpecialStmt::Execute { name: "q".to_string(), params: vec!["1".to_string()] },
    )
    .unwrap();
    match r {
        SpecialAction::Execute { query, bindings } => {
            assert_eq!(query, "SELECT name FROM t WHERE id = $1");
            assert_eq!(bindings.len(), 1);
            assert_eq!(bindings[0].value, LiteralValue::Integer(1));
        }
        other => panic!("unexpected {other:?}"),
    }
    let r = special_action(&mut s, SpecialStmt::Deallocate { name: Some("q".to_string()) });
    assert_eq!(r, Ok(SpecialAction::Noop));
    let err = special_action(
        &mut s,
        SpecialStmt::Execute { name: "q".to_string(), params: vec![] },
    )
    .unwrap_err();
    assert!(err.message().contains("does not exist"));
}

#[test]
fn special_deallocate_all() {
    let mut s = SessionState::new();
    special_action(&mut s, SpecialStmt::Prepare { name: "a".to_string(), query: "SELECT 1".to_string() }).unwrap();
    special_action(&mut s, SpecialStmt::Prepare { name: "b".to_string(), query: "SELECT 2".to_string() }).unwrap();
    special_action(&mut s, SpecialStmt::Deallocate { name: None }).unwrap();
    let err = special_action(&mut s, SpecialStmt::Execute { name: "a".to_string(), params: vec![] }).unwrap_err();
    assert!(err.message().contains("does not exist"));
}

#[test]
fn special_set_search_path_updates_session() {
    let mut s = SessionState::new();
    let r = special_action(
        &mut s,
        SpecialStmt::SetParameter {
            name: "search_path".to_string(),
            values: vec![SetValue::Identifier("app".to_string())],
        },
    );
    assert_eq!(r, Ok(SpecialAction::Noop));
    assert_eq!(s.search_path_option(), Some(vec!["app".to_string()]));
}

#[test]
fn special_set_and_show_become_pragmas() {
    let mut s = SessionState::new();
    assert_eq!(
        special_action(
            &mut s,
            SpecialStmt::SetParameter {
                name: "cache_size".to_string(),
                values: vec![SetValue::Number("10".to_string())],
            },
        ),
        Ok(SpecialAction::Pragma("PRAGMA cache_size = 10".to_string()))
    );
    assert_eq!(
        special_action(&mut s, SpecialStmt::ShowParameter { name: "cache_size".to_string() }),
        Ok(SpecialAction::Pragma("PRAGMA cache_size".to_string()))
    );
}

#[test]
fn special_schema_names_are_lowered() {
    let mut s = SessionState::new();
    assert_eq!(
        special_action(
            &mut s,
            SpecialStmt::CreateSchema { name: "App".to_string(), if_not_exists: true },
        ),
        Ok(SpecialAction::CreateSchema { name: "app".to_string(), if_not_exists: true })
    );
    assert_eq!(
        special_action(
            &mut s,
            SpecialStmt::DropSchema { name: "App".to_string(), if_exists: false, cascade: true },
        ),
        Ok(SpecialAction::DropSchema { name: "app".to_string(), if_exists: false, cascade: true })
    );
}

#[test]
fn special_explain_modes() {
    let mut s = SessionState::new();
    assert_eq!(
        special_action(
            &mut s,
            SpecialStmt::Explain { query: " INSERT INTO t VALUES (5) ".to_string(), analyze: true },
        ),
        Ok(SpecialAction::Explain {
            query: "INSERT INTO t VALUES (5)".to_string(),
            kind: ExplainKind::QueryPlan,
        })
    );
    assert_eq!(
        special_action(&mut s, SpecialStmt::Explain { query: "SELECT 1".to_string(), analyze: false }),
        Ok(SpecialAction::Explain { query: "SELECT 1".to_string(), kind: ExplainKind::Explain })
    );
    assert_eq!(
        special_action(
            &mut s,
            SpecialStmt::Explain { query: "SELECT * FROM sqlite_master".to_string(), analyze: false },
        ),
        Err(PgError::ParseError("no such table: sqlite_master".to_string()))
    );
}

#[test]
fn special_noops() {
    let mut s = SessionState::new();
    assert_eq!(special_action(&mut s, SpecialStmt::RefreshMaterializedView), Ok(SpecialAction::Noop));
    assert_eq!(special_action(&mut s, SpecialStmt::CommentOn), Ok(SpecialAction::Noop));
}
