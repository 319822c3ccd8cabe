use turso_pg::copy_from::{copy_target_sql, plan_copy_from, without_header, CopyFromSpec};
use turso_pg::error::PgError;

fn spec(columns: Option<Vec<&str>>) -> CopyFromSpec {
    CopyFromSpec {
        table_name: "t".to_string(),
        schema_name: None,
        columns: columns.map(|c| c.into_iter().map(|s| s.to_string()).collect()),
        filename: "/tmp/data.tsv".to_string(),
        delimiter: None,
        null_string: None,
        header: false,
    }
}

#[test]
fn copy_plan_fills_all_columns() {
    let cols = vec!["id".to_string(), "name".to_string(), "age".to_string()];
    let plan = plan_copy_from(&spec(None), &cols).unwrap();
    assert_eq!(plan.insert_sql, "INSERT INTO \"t\" VALUES (?, ?, ?)");
    assert_eq!(plan.num_columns, 3);
    assert_eq!(plan.delimiter, '\t');
    assert_eq!(plan.null_string, "\\N");
}

#[test]
fn copy_plan_named_columns() {
    let cols = vec!["id".to_string(), "name".to_string(), "age".to_string()];
    let plan = plan_copy_from(&spec(Some(vec!["id", "name"])), &cols).unwrap();
    assert_eq!(plan.insert_sql, "INSERT INTO \"t\" (\"id\", \"name\") VALUES (?, ?)");
    assert_eq!(plan.num_columns, 2);
}

#[test]
fn copy_plan_schema_delimiter_and_null() {
    let mut s = spec(None);
    s.schema_name = Some("app".to_string());
    s.delimiter = Some(",;".to_string());
    s.null_string = Some("NULL".to_string());
    let plan = plan_copy_from(&s, &vec!["a".to_string()]).unwrap();
    assert_eq!(plan.insert_sql, "INSERT INTO \"app\".\"t\" VALUES (?)");
    assert_eq!(plan.delimiter, ',');
    assert_eq!(plan.null_string, "NULL");
}

#[test]
fn copy_plan_missing_table() {
    assert_eq!(
        plan_copy_from(&spec(None), &vec![]),
        Err(PgError::ParseError(
            "COPY FROM: table 't' not found or has no columns".to_string()
        ))
    );
}

#[test]
fn copy_target_quotes_names() {
    assert_eq!(copy_target_sql("t", Some("s")), "\"s\".\"t\"");
    assert_eq!(copy_target_sql("t", None), "\"t\"");
}

#[test]
fn copy_header_row_is_dropped() {
    assert_eq!(without_header(vec![1, 2, 3], true), vec![2, 3]);
    assert_eq!(without_header(vec![1, 2, 3], false), vec![1, 2, 3]);
    assert_eq!(without_header(Vec::<i32>::new(), true), Vec::<i32>::new());
}
