use turso_pg::error::PgError;
use turso_pg::schema::{
    attach_sql, collect_text_cells, create_schema_step, detach_sql, drop_public_schema,
    drop_schema_step, drop_tables_sql, list_user_tables_sql, schema_exists_sql,
    schema_file_path, schema_name, table_info_sql, SchemaStep,
};

#[test]
fn schema_names_are_lowered() {
    assert_eq!(schema_name("MySchema"), "myschema");
    assert_eq!(schema_name("ÉCOLE"), "école");
    assert_eq!(schema_name("PUBLIC"), "public");
}

#[test]
fn schema_sql_text() {
    assert_eq!(
        schema_exists_sql("o'k"),
        "SELECT 1 FROM pragma_database_list WHERE name = 'o''k'"
    );
    assert_eq!(
        list_user_tables_sql(None),
        "SELECT name FROM sqlite_schema WHERE type='table' AND name NOT LIKE 'sqlite_%' AND name NOT LIKE '__turso_internal_%'"
    );
    assert_eq!(
        list_user_tables_sql(Some("app")),
        "SELECT name FROM \"app\".sqlite_schema WHERE type='table' AND name NOT LIKE 'sqlite_%' AND name NOT LIKE '__turso_internal_%'"
    );
    assert_eq!(table_info_sql("t", None), "PRAGMA table_info('t')");
    assert_eq!(table_info_sql("t", Some("app")), "PRAGMA \"app\".table_info('t')");
    assert_eq!(attach_sql("/tmp/a'b.db", "app"), "ATTACH '/tmp/a''b.db' AS \"app\"");
    assert_eq!(detach_sql("app"), "DETACH \"app\"");
}

#[test]
fn schema_drop_tables_sql() {
    let tables = vec!["a".to_string(), "b".to_string()];
    assert_eq!(
        drop_tables_sql(None, &tables),
        vec!["DROP TABLE \"a\"".to_string(), "DROP TABLE \"b\"".to_string()]
    );
    assert_eq!(
        drop_tables_sql(Some("s"), &tables),
        vec!["DROP TABLE \"s\".\"a\"".to_string(), "DROP TABLE \"s\".\"b\"".to_string()]
    );
}

#[test]
fn schema_text_cells() {
    let cells = vec![Some("a".to_string()), None, Some("b".to_string())];
    assert_eq!(collect_text_cells(cells), vec!["a".to_string(), "b".to_string()]);
}

#[test]
fn schema_file_locations() {
    assert_eq!(
        schema_file_path("app", None, ":memory:"),
        "turso-postgres-schema-app.db"
    );
    assert_eq!(
        schema_file_path("app", Some("/data"), "/x/main.db"),
        "/data/turso-postgres-schema-app.db"
    );
    assert_eq!(
        schema_file_path("app", None, "/x/main.db"),
        "/x/turso-postgres-schema-app.db"
    );
    assert_eq!(
        schema_file_path("app", None, "main.db"),
        "turso-postgres-schema-app.db"
    );
}

#[test]
fn create_schema_steps() {
    assert_eq!(create_schema_step("public", true, None), SchemaStep::Done);
    assert_eq!(
        create_schema_step("public", false, None),
        SchemaStep::Failed(PgError::ParseError("schema \"public\" already exists".to_string()))
    );
    assert_eq!(
        create_schema_step("app", false, None),
        SchemaStep::CheckExists(
            "SELECT 1 FROM pragma_database_list WHERE name = 'app'".to_string()
        )
    );
    assert_eq!(create_schema_step("app", true, Some(true)), SchemaStep::Done);
    assert_eq!(
        create_schema_step("app", false, Some(true)),
        SchemaStep::Failed(PgError::ParseError("schema \"app\" already exists".to_string()))
    );
    assert_eq!(create_schema_step("app", false, Some(false)), SchemaStep::Create);
}

#[test]
fn drop_schema_steps() {
    assert_eq!(
        drop_schema_step("public", false, true, None),
        SchemaStep::DropPublic { cascade: true }
    );
    assert!(matches!(drop_schema_step("app", false, false, None), SchemaStep::CheckExists(_)));
    assert_eq!(drop_schema_step("app", true, false, Some(false)), SchemaStep::Done);
    assert_eq!(
        drop_schema_step("app", false, false, Some(false)),
        SchemaStep::Failed(PgError::ParseError("schema \"app\" does not exist".to_string()))
    );
    assert_eq!(
        drop_schema_step("app", false, true, Some(true)),
        SchemaStep::Drop { cascade: true }
    );
}

#[test]
fn drop_public_schema_needs_cascade_when_tables_exist() {
    let tables = vec!["t".to_string()];
    assert_eq!(
        drop_public_schema(false, &tables),
        Err(PgError::ParseError(
            "cannot drop schema \"public\" because other objects depend on it".to_string()
        ))
    );
    assert_eq!(drop_public_schema(true, &tables), Ok(vec!["DROP TABLE \"t\"".to_string()]));
    assert_eq!(drop_public_schema(false, &vec![]), Ok(vec![]));
}
