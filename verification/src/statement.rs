//! Checks on statement text before it reaches the engine, the splitting of
//! a request into statements, and the queue that hands them out in turn.
use vstd::prelude::*;
use crate::error::{PgError, PgErrorView, text_result_view, unit_result_view};
use crate::text::{
    ascii_lowercase, blank, chars_of, concat2, concat3, string_of, trim_chars, contains_chars, contains_text, is_blank,
    lower_chars, owned, texts, trim, trimmed,
};

verus! {

/// The text of a query to run, or `None` when it holds nothing but white
/// space (such a query yields no statement).
pub fn query_sql(sql: &str) -> (r: Option<String>)
    ensures
        match r {
            Some(t) => !is_blank(sql@) && t@ == trimmed(sql@),
            None => is_blank(sql@),
        },
{
    let t = trim_chars(&chars_of(sql));
    if t.len() == 0 {
        None
    } else {
        Some(string_of(&t))
    }
}

/// The message of the error for a statement that holds no SQL.
pub open spec fn no_statement_message() -> Seq<char> {
    "The supplied SQL string contains no statements"@
}

/// The message of the error for SQL that names the engine's own catalog table `table`.
pub open spec fn no_such_table_message(table: Seq<char>) -> Seq<char> {
    "no such table: "@ + table
}

/// What checking SQL for the engine's own catalog gives: SQL that mentions
/// `sqlite_master` or `sqlite_schema`, in any ASCII case, is refused as if
/// the table did not exist (the first of the two that occurs is named).
pub open spec fn sqlite_catalog_check(sql: Seq<char>) -> Result<(), PgErrorView> {
    let lower = ascii_lowercase(sql);
    if contains_text(lower, "sqlite_master"@) {
        Err(PgErrorView::ParseError(no_such_table_message("sqlite_master"@)))
    } else if contains_text(lower, "sqlite_schema"@) {
        Err(PgErrorView::ParseError(no_such_table_message("sqlite_schema"@)))
    } else {
        Ok(())
    }
}

/// Refuses SQL that reaches for the engine's own catalog tables, which the
/// PostgreSQL frontend does not expose.
pub fn reject_sqlite_catalog_access(sql: &str) -> (r: Result<(), PgError>)
    ensures
        unit_result_view(r) == sqlite_catalog_check(sql@),
{
    let lower = lower_chars(&chars_of(sql));
    if contains_chars(&lower, &chars_of("sqlite_master")) {
        return Err(PgError::ParseError(concat2("no such table: ", "sqlite_master")));
    }
    if contains_chars(&lower, &chars_of("sqlite_schema")) {
        return Err(PgError::ParseError(concat2("no such table: ", "sqlite_schema")));
    }
    Ok(())
}

/// What the first checks of a statement give: its trimmed text, or the
/// error for empty SQL, or the refusal of the engine's catalog.
pub open spec fn statement_text_check(sql: Seq<char>) -> Result<Seq<char>, PgErrorView> {
    let t = trimmed(sql);
    if t.len() == 0 {
        Err(PgErrorView::InvalidArgument(no_statement_message()))
    } else {
        match sqlite_catalog_check(t) {
            Ok(()) => Ok(t),
            Err(e) => Err(e),
        }
    }
}

/// The first checks made on a statement before it is prepared: it is
/// trimmed, must not be empty, and must not reach for the engine's catalog.
pub fn check_statement_text(sql: &str) -> (r: Result<String, PgError>)
    ensures
        text_result_view(r) == statement_text_check(sql@),
{
    let t = trim(sql);
    if blank(t.as_str()) {
        proof {
            lemma_trimmed_blank(sql@);
        }
        return Err(
            PgError::InvalidArgument(
                owned("The supplied SQL string contains no statements"),
            ),
        );
    }
    proof {
        lemma_trimmed_blank(sql@);
    }
    match reject_sqlite_catalog_access(t.as_str()) {
        Ok(()) => Ok(t),
        Err(e) => Err(e),
    }
}

proof fn lemma_trim_start_idem(s: Seq<char>)
    ensures
        crate::text::trim_start(crate::text::trim_start(s)) == crate::text::trim_start(s),
    decreases s.len(),
{
    if s.len() > 0 && crate::text::is_white_space_spec(s[0]) {
        lemma_trim_start_idem(s.drop_first());
    }
}

proof fn lemma_trim_end_keeps_start(s: Seq<char>)
    requires
        s.len() == 0 || !crate::text::is_white_space_spec(s[0]),
    ensures
        crate::text::trim_end(s).len() == 0 || !crate::text::is_white_space_spec(
            crate::text::trim_end(s)[0],
        ),
        crate::text::trim_start(crate::text::trim_end(s)) == crate::text::trim_end(s),
    decreases s.len(),
{
    if s.len() > 0 && crate::text::is_white_space_spec(s.last()) {
        let t = s.drop_last();
        if t.len() > 0 {
            assert(t[0] == s[0]);
        }
        lemma_trim_end_keeps_start(t);
    }
}

proof fn lemma_trim_end_idem(s: Seq<char>)
    ensures
        crate::text::trim_end(crate::text::trim_end(s)) == crate::text::trim_end(s),
    decreases s.len(),
{
    if s.len() > 0 && crate::text::is_white_space_spec(s.last()) {
        lemma_trim_end_idem(s.drop_last());
    }
}

proof fn lemma_trim_start_result(s: Seq<char>)
    ensures
        crate::text::trim_start(s).len() == 0 || !crate::text::is_white_space_spec(
            crate::text::trim_start(s)[0],
        ),
    decreases s.len(),
{
    if s.len() > 0 && crate::text::is_white_space_spec(s[0]) {
        lemma_trim_start_result(s.drop_first());
    }
}

/// Trimming twice gives what trimming once gives.
pub proof fn lemma_trimmed_idempotent(s: Seq<char>)
    ensures
        trimmed(trimmed(s)) == trimmed(s),
{
    let a = crate::text::trim_start(s);
    lemma_trim_start_result(s);
    lemma_trim_end_keeps_start(a);
    lemma_trim_end_idem(a);
}

/// A statement text that passed the checks passes them again unchanged.
pub proof fn law_statement_check_idempotent(s: Seq<char>)
    requires
        statement_text_check(s) is Ok,
    ensures
        statement_text_check(statement_text_check(s)->Ok_0) == statement_text_check(s),
{
    lemma_trimmed_idempotent(s);
}

proof fn lemma_trimmed_blank(s: Seq<char>)
    ensures
        is_blank(trimmed(s)) == (trimmed(s).len() == 0),
{
    lemma_trimmed_idempotent(s);
}

// ---------------------------------------------------------------------------
// Splitting a request into statements
// ---------------------------------------------------------------------------

/// The statements of a request, given what the PostgreSQL splitter made of
/// it (`None` when it refused the text): the splitter's statements, or else
/// the whole trimmed request as one statement. A request that is not blank
/// always yields at least one statement.
pub open spec fn statements_of(sql: Seq<char>, split: Option<Seq<Seq<char>>>) -> Seq<Seq<char>> {
    match split {
        Some(stmts) => if stmts.len() == 0 && !is_blank(sql) {
            seq![trimmed(sql)]
        } else {
            stmts
        },
        None => seq![trimmed(sql)],
    }
}

/// The statements of the request `sql`, given what the PostgreSQL
/// splitter made of it.
pub fn choose_statements(sql: &str, split: Option<Vec<String>>) -> (r: Vec<String>)
    ensures
        texts(r@) == statements_of(
            sql@,
            match split {
                Some(v) => Some(texts(v@)),
                None => None,
            },
        ),
{
    match split {
        Some(stmts) => {
            if stmts.len() == 0 && !blank(sql) {
                let mut r: Vec<String> = Vec::new();
                r.push(trim(sql));
                assert(texts(r@) == seq![trimmed(sql@)]);
                r
            } else {
                stmts
            }
        },
        None => {
            let mut r: Vec<String> = Vec::new();
            r.push(trim(sql));
            assert(texts(r@) == seq![trimmed(sql@)]);
            r
        },
    }
}

/// The statements of `s` that are not blank, in order.
pub open spec fn non_blank(s: Seq<Seq<char>>) -> Seq<Seq<char>> {
    s.filter(|t: Seq<char>| !is_blank(t))
}

/// The statements of a request, handed out one at a time: blank ones are
/// left out, the others come in order.
pub struct StatementQueue {
    stmts: Vec<String>,
    index: usize,
}

impl StatementQueue {
    /// The statements that are still to come.
    pub closed spec fn pending(&self) -> Seq<Seq<char>> {
        texts(self.stmts@).skip(self.index as int)
    }

    /// Whether the queue is well formed.
    pub closed spec fn wf(&self) -> bool {
        self.index <= self.stmts.len()
    }

    /// A queue of the statements of `stmts` that are not blank.
    pub fn new(stmts: Vec<String>) -> (q: StatementQueue)
        ensures
            q.wf(),
            q.pending() == non_blank(texts(stmts@)),
    {
        let mut kept: Vec<String> = Vec::new();
        let ghost all = texts(stmts@);
        for i in 0..stmts.len()
            invariant
                all == texts(stmts@),
                texts(kept@) == non_blank(all.take(i as int)),
        {
            let ghost prefix = all.take(i as int);
            assert(all.take(i + 1).drop_last() == prefix);
            assert(all.take(i + 1).last() == stmts@[i as int]@);
            reveal_with_fuel(Seq::filter, 1);
            if !blank(stmts[i].as_str()) {
                kept.push(stmts[i].clone());
                assert(texts(kept@) == texts(kept@).drop_last().push(stmts@[i as int]@));
            }
        }
        assert(all.take(stmts.len() as int) == all);
        let q = StatementQueue { stmts: kept, index: 0 };
        assert(texts(q.stmts@).skip(0) == texts(q.stmts@));
        q
    }

    /// The next statement, or `None` when all have been handed out.
    pub fn next_statement(&mut self) -> (r: Option<String>)
        requires
            old(self).wf(),
        ensures
            final(self).wf(),
            match r {
                Some(s) => old(self).pending().len() > 0 && s@ == old(self).pending()[0]
                    && final(self).pending() == old(self).pending().drop_first(),
                None => old(self).pending().len() == 0 && final(self).pending() == old(
                    self,
                ).pending(),
            },
    {
        if self.index >= self.stmts.len() {
            return None;
        }
        let s = self.stmts[self.index].clone();
        let ghost before = texts(self.stmts@);
        self.index = self.index + 1;
        assert(before.skip(self.index - 1).drop_first() == before.skip(self.index as int));
        Some(s)
    }
}

// ---------------------------------------------------------------------------
// Writes to the PostgreSQL catalog
// ---------------------------------------------------------------------------

/// The table that a statement writes to, where it is an `INSERT`, a
/// `DELETE` or an `UPDATE`.
pub enum DmlTarget {
    Insert(String),
    Delete(String),
    Update(String),
    /// Any other statement.
    Other,
}

/// The verb that the refusal of a write to the catalog names.
pub open spec fn dml_verb(t: DmlTarget) -> Seq<char> {
    match t {
        DmlTarget::Insert(_) => "insert into"@,
        DmlTarget::Delete(_) => "delete from"@,
        DmlTarget::Update(_) => "update"@,
        DmlTarget::Other => Seq::empty(),
    }
}

/// The table that `t` writes to, if any.
pub open spec fn dml_table(t: DmlTarget) -> Option<Seq<char>> {
    match t {
        DmlTarget::Insert(n) => Some(n@),
        DmlTarget::Delete(n) => Some(n@),
        DmlTarget::Update(n) => Some(n@),
        DmlTarget::Other => None,
    }
}

/// What the check of a write gives: a write to a table of the PostgreSQL
/// catalog is refused, naming the verb and the table; anything else passes.
pub open spec fn catalog_dml_check(t: DmlTarget, is_catalog_table: bool) -> Result<
    (),
    PgErrorView,
> {
    match dml_table(t) {
        Some(name) => if is_catalog_table {
            Err(
                PgErrorView::ParseError(
                    "cannot "@ + dml_verb(t) + " pg_catalog table \""@ + name + "\""@,
                ),
            )
        } else {
            Ok(())
        },
        None => Ok(()),
    }
}

/// Refuses an `INSERT`, `DELETE` or `UPDATE` of a table of the PostgreSQL
/// catalog; `is_catalog_table` says whether the written table is one.
pub fn reject_catalog_dml(target: &DmlTarget, is_catalog_table: bool) -> (r: Result<(), PgError>)
    ensures
        unit_result_view(r) == catalog_dml_check(*target, is_catalog_table),
{
    let (verb, name) = match target {
        DmlTarget::Insert(n) => ("insert into", n),
        DmlTarget::Delete(n) => ("delete from", n),
        DmlTarget::Update(n) => ("update", n),
        DmlTarget::Other => {
            return Ok(());
        },
    };
    if !is_catalog_table {
        return Ok(());
    }
    let head = concat3("cannot ", verb, " pg_catalog table \"");
    Err(PgError::ParseError(concat3(head.as_str(), name.as_str(), "\"")))
}

} // verus!
