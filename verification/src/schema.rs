//! `CREATE SCHEMA` and `DROP SCHEMA`: a schema other than `public` is a
//! database file attached under the schema's name. This module decides the
//! steps and writes the SQL that the engine runs for them.
use vstd::prelude::*;
use crate::error::{PgError, PgErrorView};
use crate::text::{all_ascii, ascii_lowercase, concat2, concat3, concat5, double_quotes, escape_single_quotes, owned, str_eq, texts};

verus! {

/// The lower-case form of `s` as `str::to_lowercase` gives it (full Unicode
/// case mapping).
pub uninterp spec fn unicode_lowercase(s: Seq<char>) -> Seq<char>;

/// `str::to_lowercase`. Its result is named; on ASCII text, where Unicode's
/// lower-case mapping lowers `A` to `Z` and keeps every other character, the
/// result is also stated.
#[verifier::external_body]
fn to_lowercase(s: &str) -> (r: String)
    ensures
        r@ == unicode_lowercase(s@),
        all_ascii(s@) ==> r@ == ascii_lowercase(s@),
{
    s.to_lowercase()
}

/// The path that `std::path::Path::join` makes of `dir` and `file`, with the
/// path separator of the platform the library is built for.
pub uninterp spec fn joined_path(dir: Seq<char>, file: Seq<char>) -> Seq<char>;

/// `Path::join`, on paths given as text.
#[verifier::external_body]
fn path_join(dir: &str, file: &str) -> (r: String)
    ensures
        r@ == joined_path(dir@, file@),
{
    std::path::Path::new(dir).join(file).to_string_lossy().to_string()
}

/// The parent that `std::path::Path::parent` finds of `p`, if any.
pub uninterp spec fn parent_path(p: Seq<char>) -> Option<Seq<char>>;

/// `Path::parent`, on a path given as text.
#[verifier::external_body]
fn path_parent(p: &str) -> (r: Option<String>)
    ensures
        match r {
            Some(q) => parent_path(p@) == Some(q@),
            None => parent_path(p@) is None,
        },
{
    std::path::Path::new(p).parent().map(|q| q.to_string_lossy().to_string())
}

/// The name under which a schema is kept: the name as written, lowered.
pub fn schema_name(raw: &str) -> (r: String)
    ensures
        r@ == unicode_lowercase(raw@),
        all_ascii(raw@) ==> r@ == ascii_lowercase(raw@),
{
    to_lowercase(raw)
}

// ---------------------------------------------------------------------------
// SQL for the engine
// ---------------------------------------------------------------------------

/// The query that finds whether a schema called `name` is attached.
pub open spec fn schema_exists_query(name: Seq<char>) -> Seq<char> {
    "SELECT 1 FROM pragma_database_list WHERE name = '"@ + double_quotes(name) + "'"@
}

/// The query that finds whether a schema called `name` is attached.
pub fn schema_exists_sql(name: &str) -> (r: String)
    ensures
        r@ == schema_exists_query(name@),
{
    let escaped = escape_single_quotes(name);
    concat3("SELECT 1 FROM pragma_database_list WHERE name = '", escaped.as_str(), "'")
}

/// The condition that picks the user's tables out of a schema table.
pub open spec fn user_table_filter() -> Seq<char> {
    "type='table' AND name NOT LIKE 'sqlite_%' AND name NOT LIKE '__turso_internal_%'"@
}

/// The query that lists the user's tables of the schema `schema`, or of
/// the main database for `None`.
pub open spec fn user_tables_query(schema: Option<Seq<char>>) -> Seq<char> {
    match schema {
        Some(n) => "SELECT name FROM \""@ + n + "\".sqlite_schema WHERE "@ + user_table_filter(),
        None => "SELECT name FROM sqlite_schema WHERE "@ + user_table_filter(),
    }
}

/// The query that lists the user's tables of a schema.
pub fn list_user_tables_sql(schema: Option<&str>) -> (r: String)
    ensures
        r@ == user_tables_query(
            match schema {
                Some(n) => Some(n@),
                None => None,
            },
        ),
{
    let filter = "type='table' AND name NOT LIKE 'sqlite_%' AND name NOT LIKE '__turso_internal_%'";
    match schema {
        Some(n) => {
            let head = concat3("SELECT name FROM \"", n, "\".sqlite_schema WHERE ");
            concat2(head.as_str(), filter)
        },
        None => concat2("SELECT name FROM sqlite_schema WHERE ", filter),
    }
}

/// The query that describes the columns of `table`, in `schema` or in the
/// main database for `None`.
pub open spec fn table_info_query(table: Seq<char>, schema: Option<Seq<char>>) -> Seq<char> {
    match schema {
        Some(s) => "PRAGMA \""@ + s + "\".table_info('"@ + table + "')"@,
        None => "PRAGMA table_info('"@ + table + "')"@,
    }
}

/// The query that describes the columns of a table.
pub fn table_info_sql(table: &str, schema: Option<&str>) -> (r: String)
    ensures
        r@ == table_info_query(
            table@,
            match schema {
                Some(s) => Some(s@),
                None => None,
            },
        ),
{
    match schema {
        Some(s) => concat5("PRAGMA \"", s, "\".table_info('", table, "')"),
        None => concat3("PRAGMA table_info('", table, "')"),
    }
}

/// The texts among `cells`, in order: the rows of a catalog query whose
/// cell is text.
pub open spec fn text_cells(cells: Seq<Option<String>>) -> Seq<Seq<char>>
    decreases cells.len(),
{
    if cells.len() == 0 {
        Seq::empty()
    } else {
        match cells.last() {
            Some(t) => text_cells(cells.drop_last()).push(t@),
            None => text_cells(cells.drop_last()),
        }
    }
}

/// The texts among `cells`, in order.
pub fn collect_text_cells(cells: Vec<Option<String>>) -> (r: Vec<String>)
    ensures
        texts(r@) == text_cells(cells@),
{
    let mut r: Vec<String> = Vec::new();
    for i in 0..cells.len()
        invariant
            texts(r@) == text_cells(cells@.take(i as int)),
    {
        assert(cells@.take(i + 1).drop_last() == cells@.take(i as int));
        match &cells[i] {
            Some(t) => {
                r.push(t.clone());
                assert(texts(r@) == texts(r@).drop_last().push(t@));
            },
            None => {},
        }
    }
    assert(cells@.take(cells.len() as int) == cells@);
    r
}

/// The statement that attaches the database file `path` as the schema `name`.
pub open spec fn attach_statement(path: Seq<char>, name: Seq<char>) -> Seq<char> {
    "ATTACH '"@ + double_quotes(path) + "' AS \""@ + name + "\""@
}

/// The statement that attaches the database file `path` as the schema `name`.
pub fn attach_sql(path: &str, name: &str) -> (r: String)
    ensures
        r@ == attach_statement(path@, name@),
{
    let escaped = escape_single_quotes(path);
    concat5("ATTACH '", escaped.as_str(), "' AS \"", name, "\"")
}

/// The statement that detaches the schema `name`.
pub open spec fn detach_statement(name: Seq<char>) -> Seq<char> {
    "DETACH \""@ + name + "\""@
}

/// The statement that detaches the schema `name`.
pub fn detach_sql(name: &str) -> (r: String)
    ensures
        r@ == detach_statement(name@),
{
    concat3("DETACH \"", name, "\"")
}

/// The statement that drops the table `table` of the main database, or of
/// the schema `schema`.
pub open spec fn drop_table_statement(schema: Option<Seq<char>>, table: Seq<char>) -> Seq<char> {
    match schema {
        Some(s) => "DROP TABLE \""@ + s + "\".\""@ + table + "\""@,
        None => "DROP TABLE \""@ + table + "\""@,
    }
}

/// The statements that drop each of `tables`, in order.
pub open spec fn drop_tables_statements(schema: Option<Seq<char>>, tables: Seq<Seq<char>>) -> Seq<
    Seq<char>,
> {
    tables.map_values(|t: Seq<char>| drop_table_statement(schema, t))
}

/// The statements that drop each of `tables`, in order, from the schema
/// `schema` or from the main database.
pub fn drop_tables_sql(schema: Option<&str>, tables: &Vec<String>) -> (r: Vec<String>)
    ensures
        texts(r@) == drop_tables_statements(
            match schema {
                Some(s) => Some(s@),
                None => None,
            },
            texts(tables@),
        ),
{
    let ghost sch = match schema {
        Some(s) => Some(s@),
        None => None,
    };
    let mut r: Vec<String> = Vec::new();
    for i in 0..tables.len()
        invariant
            sch == (match schema {
                Some(s) => Some(s@),
                None => None::<Seq<char>>,
            }),
            r.len() == i,
            forall|j: int|
                0 <= j < i ==> (#[trigger] r@[j])@ == drop_table_statement(sch, tables@[j]@),
    {
        let t = tables[i].as_str();
        let s = match schema {
            Some(s) => concat5("DROP TABLE \"", s, "\".\"", t, "\""),
            None => concat3("DROP TABLE \"", t, "\""),
        };
        r.push(s);
    }
    assert(texts(r@) == drop_tables_statements(sch, texts(tables@)));
    r
}

// ---------------------------------------------------------------------------
// Where a schema's database file lives
// ---------------------------------------------------------------------------

/// The name of the database file of the schema `name`.
pub open spec fn schema_file_name_spec(name: Seq<char>) -> Seq<char> {
    "turso-postgres-schema-"@ + name + ".db"@
}

/// Where the database file of the schema `name` lives: in the configured
/// schema directory; else, for an in-memory main database, under its bare
/// name; else beside the main database file (in `.` when that has no
/// parent).
pub open spec fn schema_file_location(
    name: Seq<char>,
    dir: Option<Seq<char>>,
    main_path: Seq<char>,
) -> Seq<char> {
    let file = schema_file_name_spec(name);
    match dir {
        Some(d) => joined_path(d, file),
        None => if main_path == ":memory:"@ {
            file
        } else {
            joined_path(
                match parent_path(main_path) {
                    Some(p) => p,
                    None => "."@,
                },
                file,
            )
        },
    }
}

/// The path of the database file of the schema `name`.
pub fn schema_file_path(name: &str, dir: Option<&str>, main_path: &str) -> (r: String)
    ensures
        r@ == schema_file_location(
            name@,
            match dir {
                Some(d) => Some(d@),
                None => None,
            },
            main_path@,
        ),
{
    let file = concat3("turso-postgres-schema-", name, ".db");
    match dir {
        Some(d) => path_join(d, file.as_str()),
        None => {
            if str_eq(main_path, ":memory:") {
                file
            } else {
                let parent = match path_parent(main_path) {
                    Some(p) => p,
                    None => owned("."),
                };
                path_join(parent.as_str(), file.as_str())
            }
        },
    }
}

// ---------------------------------------------------------------------------
// The steps of CREATE SCHEMA and DROP SCHEMA
// ---------------------------------------------------------------------------

/// The next step of a `CREATE SCHEMA` or `DROP SCHEMA`.
#[derive(Debug, PartialEq, Eq)]
pub enum SchemaStep {
    /// Nothing (more) to do.
    Done,
    /// The statement fails with this error.
    Failed(PgError),
    /// Run this query to learn whether the schema is attached, then decide again.
    CheckExists(String),
    /// Create the schema's database and attach it.
    Create,
    /// Drop the tables of the main database (`DROP SCHEMA public`).
    DropPublic { cascade: bool },
    /// Detach the schema, dropping its tables first when `cascade` holds.
    Drop { cascade: bool },
}

/// What a [`SchemaStep`] holds.
pub enum SchemaStepSpec {
    Done,
    Failed(PgErrorView),
    CheckExists(Seq<char>),
    Create,
    DropPublic { cascade: bool },
    Drop { cascade: bool },
}

impl View for SchemaStep {
    type V = SchemaStepSpec;

    open spec fn view(&self) -> SchemaStepSpec {
        match self {
            SchemaStep::Done => SchemaStepSpec::Done,
            SchemaStep::Failed(e) => SchemaStepSpec::Failed(e@),
            SchemaStep::CheckExists(q) => SchemaStepSpec::CheckExists(q@),
            SchemaStep::Create => SchemaStepSpec::Create,
            SchemaStep::DropPublic { cascade } => SchemaStepSpec::DropPublic { cascade: *cascade },
            SchemaStep::Drop { cascade } => SchemaStepSpec::Drop { cascade: *cascade },
        }
    }
}

/// The message of the error for a schema that already exists.
pub open spec fn schema_exists_message(name: Seq<char>) -> Seq<char> {
    "schema \""@ + name + "\" already exists"@
}

/// The message of the error for a schema that does not exist.
pub open spec fn schema_missing_message(name: Seq<char>) -> Seq<char> {
    "schema \""@ + name + "\" does not exist"@
}

/// The next step of `CREATE SCHEMA [IF NOT EXISTS] name`, given whether the
/// schema is known to be attached (`None` while that is not yet known).
/// `public` always exists; an existing schema is an error unless `IF NOT
/// EXISTS` is given, in which case there is nothing to do.
pub open spec fn create_schema_plan(
    name: Seq<char>,
    if_not_exists: bool,
    exists: Option<bool>,
) -> SchemaStepSpec {
    if name == "public"@ {
        if if_not_exists {
            SchemaStepSpec::Done
        } else {
            SchemaStepSpec::Failed(PgErrorView::ParseError(schema_exists_message(name)))
        }
    } else {
        match exists {
            None => SchemaStepSpec::CheckExists(schema_exists_query(name)),
            Some(true) => if if_not_exists {
                SchemaStepSpec::Done
            } else {
                SchemaStepSpec::Failed(PgErrorView::ParseError(schema_exists_message(name)))
            },
            Some(false) => SchemaStepSpec::Create,
        }
    }
}

/// The next step of `CREATE SCHEMA` for the (lowered) schema name `name`.
pub fn create_schema_step(name: &str, if_not_exists: bool, exists: Option<bool>) -> (r: SchemaStep)
    ensures
        r@ == create_schema_plan(name@, if_not_exists, exists),
{
    if str_eq(name, "public") || exists == Some(true) {
        if if_not_exists {
            return SchemaStep::Done;
        }
        return SchemaStep::Failed(
            PgError::ParseError(concat3("schema \"", name, "\" already exists")),
        );
    }
    match exists {
        None => SchemaStep::CheckExists(schema_exists_sql(name)),
        Some(_) => SchemaStep::Create,
    }
}

/// The next step of `DROP SCHEMA [IF EXISTS] name [CASCADE]`, given whether
/// the schema is known to be attached (`None` while that is not yet known).
/// `public` is the main database: its tables are dropped. A missing schema
/// is an error unless `IF EXISTS` is given.
pub open spec fn drop_schema_plan(
    name: Seq<char>,
    if_exists: bool,
    cascade: bool,
    exists: Option<bool>,
) -> SchemaStepSpec {
    if name == "public"@ {
        SchemaStepSpec::DropPublic { cascade }
    } else {
        match exists {
            None => SchemaStepSpec::CheckExists(schema_exists_query(name)),
            Some(false) => if if_exists {
                SchemaStepSpec::Done
            } else {
                SchemaStepSpec::Failed(PgErrorView::ParseError(schema_missing_message(name)))
            },
            Some(true) => SchemaStepSpec::Drop { cascade },
        }
    }
}

/// The next step of `DROP SCHEMA` for the (lowered) schema name `name`.
pub fn drop_schema_step(name: &str, if_exists: bool, cascade: bool, exists: Option<bool>) -> (r:
    SchemaStep)
    ensures
        r@ == drop_schema_plan(name@, if_exists, cascade, exists),
{
    if str_eq(name, "public") {
        return SchemaStep::DropPublic { cascade };
    }
    match exists {
        None => SchemaStep::CheckExists(schema_exists_sql(name)),
        Some(false) => {
            if if_exists {
                SchemaStep::Done
            } else {
                SchemaStep::Failed(
                    PgError::ParseError(concat3("schema \"", name, "\" does not exist")),
                )
            }
        },
        Some(true) => SchemaStep::Drop { cascade },
    }
}

/// The message of the refusal to drop `public` while it holds tables.
pub open spec fn public_in_use_message() -> Seq<char> {
    "cannot drop schema \"public\" because other objects depend on it"@
}

/// What `DROP SCHEMA public` does with the main database's `tables`: without
/// `CASCADE` it is refused while there are any; otherwise each is dropped.
pub open spec fn drop_public_plan(cascade: bool, tables: Seq<Seq<char>>) -> Result<
    Seq<Seq<char>>,
    PgErrorView,
> {
    if !cascade && tables.len() != 0 {
        Err(PgErrorView::ParseError(public_in_use_message()))
    } else {
        Ok(drop_tables_statements(None, tables))
    }
}

/// The statements that `DROP SCHEMA public` runs on the main database's
/// `tables`, or its refusal.
pub fn drop_public_schema(cascade: bool, tables: &Vec<String>) -> (r: Result<Vec<String>, PgError>)
    ensures
        match r {
            Ok(v) => drop_public_plan(cascade, texts(tables@)) == Ok::<
                Seq<Seq<char>>,
                PgErrorView,
            >(texts(v@)),
            Err(e) => drop_public_plan(cascade, texts(tables@)) == Err::<
                Seq<Seq<char>>,
                PgErrorView,
            >(e@),
        },
{
    if !cascade && tables.len() != 0 {
        return Err(
            PgError::ParseError(
                owned("cannot drop schema \"public\" because other objects depend on it"),
            ),
        );
    }
    Ok(drop_tables_sql(None, tables))
}

/// `CREATE SCHEMA IF NOT EXISTS` never fails: whatever is known of the
/// schema, its next step is no error.
pub proof fn law_create_if_not_exists_never_fails(name: Seq<char>, exists: Option<bool>)
    ensures
        !(create_schema_plan(name, true, exists) is Failed),
{
}

/// `DROP SCHEMA IF EXISTS` never fails on a missing schema, and a schema
/// found to exist is detached (its tables first, with `CASCADE`).
pub proof fn law_drop_if_exists_never_fails(name: Seq<char>, cascade: bool, exists: Option<bool>)
    ensures
        !(drop_schema_plan(name, true, cascade, exists) is Failed),
        name != "public"@ && exists == Some(true) ==> drop_schema_plan(name, true, cascade, exists)
            == (SchemaStepSpec::Drop { cascade }),
{
}

/// `DROP SCHEMA public` keeps the statement's own `CASCADE`: without it, a
/// main database that holds tables is refused with the "other objects
/// depend on it" error and keeps them; with it, the drop goes ahead.
pub proof fn law_drop_public_follows_cascade(
    if_exists: bool,
    cascade: bool,
    exists: Option<bool>,
    tables: Seq<Seq<char>>,
)
    ensures
        drop_schema_plan("public"@, if_exists, cascade, exists) == (SchemaStepSpec::DropPublic { cascade }),
        !cascade && tables.len() > 0 ==> drop_public_plan(cascade, tables) == Err::<Seq<Seq<char>>, PgErrorView>(
            PgErrorView::ParseError("cannot drop schema \"public\" because other objects depend on it"@),
        ),
        cascade || tables.len() == 0 ==> drop_public_plan(cascade, tables) is Ok,
{
}

/// Where a schema's file goes: into the configured schema directory whenever
/// there is one, whatever the main database is; without one, under its bare
/// name for an in-memory main database, else beside the main database file
/// (in `.` when that has no parent). The file is named
/// `turso-postgres-schema-<name>.db`.
pub proof fn law_schema_file_location(name: Seq<char>, dir: Option<Seq<char>>, main_path: Seq<char>)
    ensures
        dir matches Some(d) ==> schema_file_location(name, dir, main_path) == joined_path(
            d,
            "turso-postgres-schema-"@ + name + ".db"@,
        ),
        dir is None && main_path == ":memory:"@ ==> schema_file_location(name, dir, main_path)
            == "turso-postgres-schema-"@ + name + ".db"@,
        dir is None && main_path != ":memory:"@ ==> schema_file_location(name, dir, main_path)
            == joined_path(
            match parent_path(main_path) {
                Some(p) => p,
                None => "."@,
            },
            "turso-postgres-schema-"@ + name + ".db"@,
        ),
{
}

/// Once a schema other than `public` is known to be missing, `CREATE
/// SCHEMA` creates it; once it is known to exist, `DROP SCHEMA` drops it.
pub proof fn law_schema_steps_follow_existence(name: Seq<char>, if_not_exists: bool, if_exists: bool, cascade: bool)
    requires
        name != "public"@,
    ensures
        create_schema_plan(name, if_not_exists, Some(false)) == SchemaStepSpec::Create,
        drop_schema_plan(name, if_exists, cascade, Some(true)) == (SchemaStepSpec::Drop { cascade }),
        create_schema_plan(name, if_not_exists, None) == SchemaStepSpec::CheckExists(schema_exists_query(name)),
        drop_schema_plan(name, if_exists, cascade, None) == SchemaStepSpec::CheckExists(schema_exists_query(name)),
{
}

} // verus!
