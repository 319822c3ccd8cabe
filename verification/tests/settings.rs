use turso_pg::error::PgError;
use turso_pg::settings::{plan_set, pragma_assignment_sql, show_pragma_sql, SetAction, SetValue};

#[test]
fn set_search_path_collects_names() {
    let values = vec![
        SetValue::Identifier("app".to_string()),
        SetValue::StringLiteral("public".to_string()),
    ];
    assert_eq!(
        plan_set("search_path", &values),
        Ok(SetAction::SearchPath(vec!["app".to_string(), "public".to_string()]))
    );
}

#[test]
fn set_search_path_rejects_non_names() {
    let values = vec![SetValue::Identifier("app".to_string()), SetValue::Number("1".to_string())];
    assert_eq!(
        plan_set("search_path", &values),
        Err(PgError::ParseError("incorrect format".to_string()))
    );
}

#[test]
fn set_other_setting_becomes_pragma() {
    assert_eq!(
        plan_set("cache_size", &vec![SetValue::Number("100".to_string())]),
        Ok(SetAction::Pragma("PRAGMA cache_size = 100".to_string()))
    );
    assert_eq!(
        plan_set("x", &vec![SetValue::StringLiteral("it's".to_string())]),
        Ok(SetAction::Pragma("PRAGMA x = 'it''s'".to_string()))
    );
    assert_eq!(
        plan_set("flag", &vec![SetValue::Bool(true), SetValue::Bool(false)]),
        Ok(SetAction::Pragma("PRAGMA flag = 1".to_string()))
    );
    assert_eq!(
        plan_set("v", &vec![SetValue::Null]),
        Ok(SetAction::Pragma("PRAGMA v = NULL".to_string()))
    );
}

#[test]
fn set_without_value_is_refused() {
    assert_eq!(
        plan_set("cache_size", &vec![]),
        Err(PgError::ParseError("SET cache_size: no value provided".to_string()))
    );
}

#[test]
fn set_value_sql_text() {
    assert_eq!(SetValue::Bool(false).to_sql_string(), "0");
    assert_eq!(SetValue::RawSql("1 + 2".to_string()).to_sql_string(), "1 + 2");
    assert_eq!(SetValue::Number("2.5".to_string()).as_search_path_name(), None);
    assert_eq!(
        SetValue::Identifier("s".to_string()).as_search_path_name(),
        Some("s".to_string())
    );
}

#[test]
fn show_and_pragma_text() {
    assert_eq!(show_pragma_sql("cache_size"), "PRAGMA cache_size");
    assert_eq!(pragma_assignment_sql("journal_mode", "WAL"), "PRAGMA journal_mode = WAL");
}
