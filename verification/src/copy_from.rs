//! `COPY table [(columns)] FROM 'file'`: the `INSERT` that each row of the
//! file goes through, and how the rows are read.
use vstd::prelude::*;
use crate::error::{PgError, PgErrorView};
use crate::text::{chars_of, concat3, extend_chars, owned, string_of, texts};

verus! {

/// A parsed `COPY ... FROM` statement.
#[derive(Debug, PartialEq, Eq)]
pub struct CopyFromSpec {
    pub table_name: String,
    pub schema_name: Option<String>,
    pub columns: Option<Vec<String>>,
    pub filename: String,
    pub delimiter: Option<String>,
    pub null_string: Option<String>,
    pub header: bool,
}

/// How the rows of a `COPY ... FROM` file are read and inserted.
#[derive(Debug, PartialEq, Eq)]
pub struct CopyPlan {
    /// The `INSERT` that each row goes through, one `?` per value.
    pub insert_sql: String,
    /// How many values each row holds.
    pub num_columns: usize,
    /// The character between two values of a row.
    pub delimiter: char,
    /// The text that stands for NULL.
    pub null_string: String,
}

/// `"name"`.
pub open spec fn quoted_ident(name: Seq<char>) -> Seq<char> {
    seq!['"'] + name + seq!['"']
}

/// The texts of `parts`, with `sep` between each two.
pub open spec fn joined(parts: Seq<Seq<char>>, sep: Seq<char>) -> Seq<char>
    decreases parts.len(),
{
    if parts.len() == 0 {
        Seq::empty()
    } else if parts.len() == 1 {
        parts[0]
    } else {
        joined(parts.drop_last(), sep) + sep + parts.last()
    }
}

/// The table that a `COPY` writes to, quoted: `"schema"."table"` or `"table"`.
pub open spec fn copy_target(table: Seq<char>, schema: Option<Seq<char>>) -> Seq<char> {
    match schema {
        Some(s) => quoted_ident(s) + seq!['.'] + quoted_ident(table),
        None => quoted_ident(table),
    }
}

/// The column list of the `INSERT`: ` ("a", "b")` for named columns,
/// nothing when all columns are filled.
pub open spec fn insert_column_list(columns: Option<Seq<Seq<char>>>) -> Seq<char> {
    match columns {
        Some(cols) => " ("@ + joined(cols.map_values(|c: Seq<char>| quoted_ident(c)), ", "@)
            + ")"@,
        None => Seq::empty(),
    }
}

/// `n` placeholders, `?, ?, ...`.
pub open spec fn placeholders(n: nat) -> Seq<char> {
    joined(Seq::new(n, |i: int| seq!['?']), ", "@)
}

/// The `INSERT` that each row of a `COPY` goes through.
pub open spec fn copy_insert_statement(
    table: Seq<char>,
    schema: Option<Seq<char>>,
    columns: Option<Seq<Seq<char>>>,
    n: nat,
) -> Seq<char> {
    "INSERT INTO "@ + copy_target(table, schema) + insert_column_list(columns) + " VALUES ("@
        + placeholders(n) + ")"@
}

/// The number of values in each row: the named columns, else all the
/// table's columns.
pub open spec fn copy_width(columns: Option<Seq<Seq<char>>>, table_columns: nat) -> nat {
    match columns {
        Some(cols) => cols.len(),
        None => table_columns,
    }
}

/// The message of the error for a table that has no columns.
pub open spec fn copy_no_table_message(table: Seq<char>) -> Seq<char> {
    "COPY FROM: table '"@ + table + "' not found or has no columns"@
}

/// The text views of the fields of a `COPY` statement.
pub open spec fn opt_text(o: Option<String>) -> Option<Seq<char>> {
    match o {
        Some(s) => Some(s@),
        None => None,
    }
}

/// The column names of a `COPY` statement, as texts.
pub open spec fn opt_texts(o: Option<Vec<String>>) -> Option<Seq<Seq<char>>> {
    match o {
        Some(v) => Some(texts(v@)),
        None => None,
    }
}

/// `a, b, c`: the texts of `parts` joined by `sep`.
fn join_chars(parts: &Vec<Vec<char>>, sep: &Vec<char>) -> (r: Vec<char>)
    ensures
        r@ == joined(parts@.map_values(|p: Vec<char>| p@), sep@),
{
    let ghost ps = parts@.map_values(|p: Vec<char>| p@);
    let mut r: Vec<char> = Vec::new();
    for i in 0..parts.len()
        invariant
            ps == parts@.map_values(|p: Vec<char>| p@),
            r@ == joined(ps.take(i as int), sep@),
    {
        assert(ps.take(i + 1).drop_last() == ps.take(i as int));
        assert(ps.take(i + 1).last() == parts@[i as int]@);
        if i == 0 {
            assert(ps.take(1).len() == 1);
        } else {
            extend_chars(&mut r, sep);
        }
        extend_chars(&mut r, &parts[i]);
    }
    assert(ps.take(parts.len() as int) == ps);
    r
}

/// `"name"`.
fn quoted_chars(name: &str) -> (r: Vec<char>)
    ensures
        r@ == quoted_ident(name@),
{
    let mut r: Vec<char> = Vec::new();
    r.push('"');
    extend_chars(&mut r, &chars_of(name));
    r.push('"');
    r
}

/// The table that a `COPY` writes to, quoted.
pub fn copy_target_sql(table: &str, schema: Option<&str>) -> (r: String)
    ensures
        r@ == copy_target(
            table@,
            match schema {
                Some(s) => Some(s@),
                None => None,
            },
        ),
{
    let mut v: Vec<char> = Vec::new();
    match schema {
        Some(s) => {
            extend_chars(&mut v, &quoted_chars(s));
            v.push('.');
        },
        None => {},
    }
    extend_chars(&mut v, &quoted_chars(table));
    string_of(&v)
}

/// The `INSERT` of a `COPY` and how its rows are read, given the columns
/// that the table has: refused when the table has none (it does not exist).
/// The delimiter is the first character of the one given, a tab by
/// default; NULL is written `\N` by default.
pub fn plan_copy_from(stmt: &CopyFromSpec, table_columns: &Vec<String>) -> (r: Result<
    CopyPlan,
    PgError,
>)
    ensures
        table_columns.len() == 0 <==> r is Err,
        match r {
            Err(e) => e@ == PgErrorView::ParseError(copy_no_table_message(stmt.table_name@)),
            Ok(p) => {
                &&& p.num_columns == copy_width(opt_texts(stmt.columns), table_columns.len() as nat)
                &&& p.insert_sql@ == copy_insert_statement(
                    stmt.table_name@,
                    opt_text(stmt.schema_name),
                    opt_texts(stmt.columns),
                    p.num_columns as nat,
                )
                &&& p.delimiter == match stmt.delimiter {
                    Some(d) => if d@.len() > 0 {
                        d@[0]
                    } else {
                        '\t'
                    },
                    None => '\t',
                }
                &&& p.null_string@ == match stmt.null_string {
                    Some(n) => n@,
                    None => "\\N"@,
                }
            },
        },
{
    if table_columns.len() == 0 {
        return Err(
            PgError::ParseError(
                concat3(
                    "COPY FROM: table '",
                    stmt.table_name.as_str(),
                    "' not found or has no columns",
                ),
            ),
        );
    }
    let target = copy_target_sql(
        stmt.table_name.as_str(),
        match &stmt.schema_name {
            Some(s) => Some(s.as_str()),
            None => None,
        },
    );
    let mut cols_sql: Vec<char> = Vec::new();
    let num_columns = match &stmt.columns {
        Some(cols) => {
            let mut quoted: Vec<Vec<char>> = Vec::new();
            for i in 0..cols.len()
                invariant
                    quoted.len() == i,
                    forall|j: int|
                        0 <= j < i ==> (#[trigger] quoted@[j])@ == quoted_ident(cols@[j]@),
            {
                quoted.push(quoted_chars(cols[i].as_str()));
            }
            let list = join_chars(&quoted, &chars_of(", "));
            assert(quoted@.map_values(|p: Vec<char>| p@) == texts(cols@).map_values(
                |c: Seq<char>| quoted_ident(c),
            ));
            extend_chars(&mut cols_sql, &chars_of(" ("));
            extend_chars(&mut cols_sql, &list);
            extend_chars(&mut cols_sql, &chars_of(")"));
            cols.len()
        },
        None => table_columns.len(),
    };
    let mut marks: Vec<Vec<char>> = Vec::new();
    for i in 0..num_columns
        invariant
            marks.len() == i,
            forall|j: int| 0 <= j < i ==> (#[trigger] marks@[j])@ == seq!['?'],
    {
        let mut m: Vec<char> = Vec::new();
        m.push('?');
        marks.push(m);
    }
    let holes = join_chars(&marks, &chars_of(", "));
    assert(marks@.map_values(|p: Vec<char>| p@) == Seq::new(
        num_columns as nat,
        |i: int| seq!['?'],
    ));
    let mut sql = chars_of("INSERT INTO ");
    extend_chars(&mut sql, &chars_of(target.as_str()));
    extend_chars(&mut sql, &cols_sql);
    extend_chars(&mut sql, &chars_of(" VALUES ("));
    extend_chars(&mut sql, &holes);
    extend_chars(&mut sql, &chars_of(")"));
    let delimiter = match &stmt.delimiter {
        Some(d) => {
            let dv = chars_of(d.as_str());
            if dv.len() > 0 {
                dv[0]
            } else {
                '\t'
            }
        },
        None => '\t',
    };
    let null_string = match &stmt.null_string {
        Some(n) => n.clone(),
        None => owned("\\N"),
    };
    Ok(CopyPlan { insert_sql: string_of(&sql), num_columns, delimiter, null_string })
}

/// The rows to insert: the header row, where the file has one, is left out.
pub fn without_header<T>(rows: Vec<T>, header: bool) -> (r: Vec<T>)
    ensures
        r@ == if header && rows.len() > 0 {
            rows@.drop_first()
        } else {
            rows@
        },
{
    let mut rows = rows;
    if header && rows.len() > 0 {
        rows.remove(0);
    }
    rows
}

} // verus!
