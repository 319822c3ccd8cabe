use turso_pg::srf::{rewrite_stmt, tvf_first_column, TableColumn};

type SqlStmt = turso_pg::srf::SqlStmt<String, String, String>;
type Query = turso_pg::srf::Query<String, String, String>;
type SelectCore = turso_pg::srf::SelectCore<String, String, String>;
type ResultCol = turso_pg::srf::ResultCol<String, String, String>;
type FromItems = turso_pg::srf::FromItems<String, String, String>;
type Source = turso_pg::srf::Source<String, String, String>;
type SqlExpr = turso_pg::srf::SqlExpr<String, String, String>;

fn arg_list(n: usize) -> Vec<String> {
    (1..=n).map(|i| i.to_string()).collect()
}

fn series_columns() -> Vec<TableColumn> {
    vec![
        TableColumn { hidden: false, name: Some("value".to_string()) },
        TableColumn { hidden: true, name: Some("start".to_string()) },
        TableColumn { hidden: true, name: Some("stop".to_string()) },
    ]
}

fn call(name: &str, args: usize, table: Option<Vec<TableColumn>>) -> ResultCol {
    ResultCol::Call { name: name.to_string(), args: arg_list(args), alias: None, table }
}

fn select(columns: Vec<ResultCol>, from: Option<FromItems>) -> Query {
    Query {
        first: SelectCore::Select { columns, from, where_clause: None },
        compounds: vec![],
    }
}

fn rewritten_core(name: &str, args: usize, col: &str) -> SelectCore {
    SelectCore::Select {
        columns: vec![ResultCol::Column { name: col.to_string(), alias: None }],
        from: Some(FromItems {
            first: Source::TableCall { name: name.to_string(), args: arg_list(args), alias: None },
            joins: vec![],
        }),
        where_clause: None,
    }
}

#[test]
fn tvf_first_column_picks_first_visible() {
    let cols = series_columns();
    assert_eq!(tvf_first_column(&cols, 2), Some("value".to_string()));
    assert_eq!(tvf_first_column(&cols, 0), Some("value".to_string()));
    assert_eq!(tvf_first_column(&cols, 3), None);
    let no_hidden = vec![TableColumn { hidden: false, name: Some("x".to_string()) }];
    assert_eq!(tvf_first_column(&no_hidden, 0), None);
    let all_hidden = vec![TableColumn { hidden: true, name: Some("x".to_string()) }];
    assert_eq!(tvf_first_column(&all_hidden, 1), None);
}

#[test]
fn rewrite_turns_call_into_table_call() {
    let stmt = SqlStmt::Select(select(vec![call("generate_series", 2, Some(series_columns()))], None));
    let expected = SqlStmt::Select(Query {
        first: rewritten_core("generate_series", 2, "value"),
        compounds: vec![],
    });
    assert_eq!(rewrite_stmt(stmt), expected);
}

#[test]
fn rewrite_leaves_plain_functions() {
    let stmt = SqlStmt::Select(select(vec![call("version", 0, None)], None));
    let same = SqlStmt::Select(select(vec![call("version", 0, None)], None));
    assert_eq!(rewrite_stmt(stmt), same);
}

#[test]
fn rewrite_leaves_selects_with_from_or_more_columns() {
    let from = FromItems { first: Source::Other, joins: vec![] };
    let with_from = || {
        SqlStmt::Select(select(
            vec![call("generate_series", 2, Some(series_columns()))],
            Some(FromItems { first: Source::Other, joins: vec![] }),
        ))
    };
    assert_eq!(rewrite_stmt(with_from()), with_from());
    let _ = from;
    let two = || {
        SqlStmt::Select(select(
            vec![call("generate_series", 2, Some(series_columns())), ResultCol::Other],
            None,
        ))
    };
    assert_eq!(rewrite_stmt(two()), two());
}

#[test]
fn rewrite_reaches_subqueries_in_where() {
    let inner = select(vec![call("generate_series", 1, Some(series_columns()))], None);
    let stmt = SqlStmt::Delete(Some(Box::new(SqlExpr::InSelect(
        Box::new(SqlExpr::Other),
        Box::new(inner),
    ))));
    let expected = SqlStmt::Delete(Some(Box::new(SqlExpr::InSelect(
        Box::new(SqlExpr::Other),
        Box::new(Query { first: rewritten_core("generate_series", 1, "value"), compounds: vec![] }),
    ))));
    assert_eq!(rewrite_stmt(stmt), expected);
}

#[test]
fn rewrite_reaches_compounds_and_from_subqueries() {
    let q = Query {
        first: SelectCore::Values,
        compounds: vec![SelectCore::Select {
            columns: vec![call("generate_series", 2, Some(series_columns()))],
            from: None,
            where_clause: None,
        }],
    };
    let outer = select(
        vec![ResultCol::Other],
        Some(FromItems { first: Source::Query(Box::new(q)), joins: vec![Source::Other] }),
    );
    let expected_inner = Query {
        first: SelectCore::Values,
        compounds: vec![rewritten_core("generate_series", 2, "value")],
    };
    let expected = select(
        vec![ResultCol::Other],
        Some(FromItems {
            first: Source::Query(Box::new(expected_inner)),
            joins: vec![Source::Other],
        }),
    );
    assert_eq!(rewrite_stmt(SqlStmt::Select(outer)), SqlStmt::Select(expected));
}

#[test]
fn rewrite_twice_changes_nothing_more() {
    let stmt = SqlStmt::Insert(Some(select(vec![call("generate_series", 2, Some(series_columns()))], None)));
    let once = rewrite_stmt(stmt);
    let expected = SqlStmt::Insert(Some(Query {
        first: rewritten_core("generate_series", 2, "value"),
        compounds: vec![],
    }));
    assert_eq!(once, expected);
    let again = rewrite_stmt(once);
    assert_eq!(again, expected);
    assert_eq!(rewrite_stmt(SqlStmt::Other), SqlStmt::Other);
}

#[test]
fn rewrite_keeps_alias_and_moves_arguments() {
    let aliased = ResultCol::Call {
        name: "generate_series".to_string(),
        args: vec!["10".to_string(), "20".to_string()],
        alias: Some("n".to_string()),
        table: Some(series_columns()),
    };
    let stmt = SqlStmt::Select(select(vec![aliased], None));
    let expected = SqlStmt::Select(select(
        vec![ResultCol::Column { name: "value".to_string(), alias: Some("n".to_string()) }],
        Some(FromItems {
            first: Source::TableCall {
                name: "generate_series".to_string(),
                args: vec!["10".to_string(), "20".to_string()],
                alias: None,
            },
            joins: vec![],
        }),
    ));
    assert_eq!(rewrite_stmt(stmt), expected);
}
