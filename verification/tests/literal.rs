use turso_pg::literal::{bind_plan, literal_to_value, LiteralValue};

fn text(s: &str) -> LiteralValue {
    LiteralValue::Text(s.to_string())
}

#[test]
fn literal_null_in_any_case() {
    assert_eq!(literal_to_value("NULL"), LiteralValue::Null);
    assert_eq!(literal_to_value("  null "), LiteralValue::Null);
    assert_eq!(literal_to_value("NuLl"), LiteralValue::Null);
}

#[test]
fn literal_booleans_are_integers() {
    assert_eq!(literal_to_value("true"), LiteralValue::Integer(1));
    assert_eq!(literal_to_value("TRUE"), LiteralValue::Integer(1));
    assert_eq!(literal_to_value("False"), LiteralValue::Integer(0));
}

#[test]
fn literal_quoted_string_undoubles_quotes() {
    assert_eq!(literal_to_value("'alice'"), text("alice"));
    assert_eq!(literal_to_value("'O''Reilly'"), text("O'Reilly"));
    assert_eq!(literal_to_value("''"), text(""));
    assert_eq!(literal_to_value("''''"), text("'"));
    assert_eq!(literal_to_value(" 'a b' "), text("a b"));
}

#[test]
fn literal_single_quote_alone_is_unparsed() {
    assert_eq!(literal_to_value("'"), LiteralValue::Unparsed("'".to_string()));
}

#[test]
fn literal_integers() {
    assert_eq!(literal_to_value("1"), LiteralValue::Integer(1));
    assert_eq!(literal_to_value("-42"), LiteralValue::Integer(-42));
    assert_eq!(literal_to_value("+7"), LiteralValue::Integer(7));
    assert_eq!(literal_to_value("007"), LiteralValue::Integer(7));
    assert_eq!(
        literal_to_value("9223372036854775807"),
        LiteralValue::Integer(i64::MAX)
    );
    assert_eq!(
        literal_to_value("-9223372036854775808"),
        LiteralValue::Integer(i64::MIN)
    );
}

#[test]
fn literal_out_of_range_integer_is_unparsed() {
    assert_eq!(
        literal_to_value("9223372036854775808"),
        LiteralValue::Unparsed("9223372036854775808".to_string())
    );
    assert_eq!(
        literal_to_value("-9223372036854775809"),
        LiteralValue::Unparsed("-9223372036854775809".to_string())
    );
}

#[test]
fn literal_other_text_is_unparsed_and_trimmed() {
    assert_eq!(literal_to_value(" 1.5 "), LiteralValue::Unparsed("1.5".to_string()));
    assert_eq!(literal_to_value("abc"), LiteralValue::Unparsed("abc".to_string()));
    assert_eq!(literal_to_value("-"), LiteralValue::Unparsed("-".to_string()));
    assert_eq!(literal_to_value(""), LiteralValue::Unparsed(String::new()));
    assert_eq!(literal_to_value("1 + 1"), LiteralValue::Unparsed("1 + 1".to_string()));
}

#[test]
fn bind_plan_numbers_parameters_from_one() {
    let params = vec!["1".to_string(), "'bob'".to_string()];
    let plan = bind_plan(&params);
    assert_eq!(plan.len(), 2);
    assert_eq!(plan[0].name, "$1");
    assert_eq!(plan[0].position, 1);
    assert_eq!(plan[0].value, LiteralValue::Integer(1));
    assert_eq!(plan[1].name, "$2");
    assert_eq!(plan[1].position, 2);
    assert_eq!(plan[1].value, text("bob"));
}

#[test]
fn bind_plan_fewer_arguments_than_parameters() {
    // `EXECUTE q(1)` on `PREPARE q AS SELECT $1, $2`: only `$1` is bound.
    let plan = bind_plan(&vec!["1".to_string()]);
    assert_eq!(plan.len(), 1);
    assert_eq!(plan[0].name, "$1");
}

#[test]
fn bind_plan_many_parameters() {
    let params: Vec<String> = (0..12).map(|i| i.to_string()).collect();
    let plan = bind_plan(&params);
    assert_eq!(plan[9].name, "$10");
    assert_eq!(plan[11].name, "$12");
    assert_eq!(plan[11].value, LiteralValue::Integer(11));
}
