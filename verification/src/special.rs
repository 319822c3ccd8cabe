//! The statements that the frontend answers itself rather than hand to the
//! engine as they are: `SET`, `SHOW`, `CREATE`/`DROP SCHEMA`, `REFRESH
//! MATERIALIZED VIEW`, `COMMENT ON`, `COPY ... FROM`, `EXPLAIN`, `PREPARE`,
//! `EXECUTE` and `DEALLOCATE`. Given the session and such a statement, this
//! module decides the session's next state and what remains to be done.
use vstd::prelude::*;
use crate::copy_from::CopyFromSpec;
use crate::error::PgError;
use crate::literal::{ParamBinding, bind_plan, literal_spec, param_name};
use crate::schema::{schema_name, unicode_lowercase};
use crate::session_state::SessionState;
use crate::settings::{SetAction, SetActionSpec, SetValue, plan_set, set_plan, set_values_view, show_pragma_sql};
use crate::statement::{reject_sqlite_catalog_access, sqlite_catalog_check};
use crate::text::{trim, trimmed};

verus! {

/// A statement that the frontend answers itself.
#[derive(Debug, PartialEq, Eq)]
pub enum SpecialStmt {
    /// `SET name TO values`.
    SetParameter { name: String, values: Vec<SetValue> },
    /// `SHOW name`.
    ShowParameter { name: String },
    /// `CREATE SCHEMA [IF NOT EXISTS] name`.
    CreateSchema { name: String, if_not_exists: bool },
    /// `DROP SCHEMA [IF EXISTS] name [CASCADE]`.
    DropSchema { name: String, if_exists: bool, cascade: bool },
    /// `REFRESH MATERIALIZED VIEW`, which has nothing to refresh here.
    RefreshMaterializedView,
    /// `COMMENT ON`, which comments are not kept for.
    CommentOn,
    /// `COPY table FROM 'file'`.
    CopyFrom(CopyFromSpec),
    /// `EXPLAIN [ANALYZE] query`.
    Explain { query: String, analyze: bool },
    /// `PREPARE name AS query`.
    Prepare { name: String, query: String },
    /// `EXECUTE name(params)`.
    Execute { name: String, params: Vec<String> },
    /// `DEALLOCATE name`, or `DEALLOCATE ALL` for `None`.
    Deallocate { name: Option<String> },
}

/// How an explained statement is shown: its bytecode, or (for `EXPLAIN
/// ANALYZE`, which must not run the statement) its query plan.
#[derive(Debug, PartialEq, Eq, Structural)]
pub enum ExplainKind {
    Explain,
    QueryPlan,
}

/// What remains to be done for a statement that the frontend answers.
#[derive(Debug, PartialEq, Eq)]
pub enum SpecialAction {
    /// Nothing: the statement is answered with an empty result.
    Noop,
    /// Prepare this `PRAGMA` with the engine.
    Pragma(String),
    /// Go through the steps of `CREATE SCHEMA` for the lowered name.
    CreateSchema { name: String, if_not_exists: bool },
    /// Go through the steps of `DROP SCHEMA` for the lowered name.
    DropSchema { name: String, if_exists: bool, cascade: bool },
    /// Load the file into the table; the result reports the rows inserted.
    CopyFrom(CopyFromSpec),
    /// Prepare `query` and show it in the given way.
    Explain { query: String, kind: ExplainKind },
    /// Prepare the prepared statement's `query` and bind the arguments.
    Execute { query: String, bindings: Vec<ParamBinding> },
}

/// The session's next state and what remains to be done for `stmt`.
pub fn special_action(session: &mut SessionState, stmt: SpecialStmt) -> (r: Result<
    SpecialAction,
    PgError,
>)
    requires
        old(session).wf(),
    ensures
        final(session).wf(),
        match stmt {
            SpecialStmt::SetParameter { name, values } => match set_plan(
                name@,
                set_values_view(values@),
            ) {
                Ok(SetActionSpec::SearchPath(p)) => {
                    &&& final(session)@ == old(session)@.with_search_path(p)
                    &&& r matches Ok(SpecialAction::Noop)
                },
                Ok(SetActionSpec::Pragma(q)) => {
                    &&& final(session)@ == old(session)@
                    &&& r matches Ok(SpecialAction::Pragma(s))
                    &&& s@ == q
                },
                Err(e) => {
                    &&& final(session)@ == old(session)@
                    &&& r matches Err(e2)
                    &&& e2@ == e
                },
            },
            SpecialStmt::ShowParameter { name } => {
                &&& final(session)@ == old(session)@
                &&& r matches Ok(SpecialAction::Pragma(s))
                &&& s@ == "PRAGMA "@ + name@
            },
            SpecialStmt::CreateSchema { name, if_not_exists } => {
                &&& final(session)@ == old(session)@
                &&& r matches Ok(SpecialAction::CreateSchema { name: n, if_not_exists: b })
                &&& n@ == unicode_lowercase(name@)
                &&& b == if_not_exists
            },
            SpecialStmt::DropSchema { name, if_exists, cascade } => {
                &&& final(session)@ == old(session)@
                &&& r matches Ok(SpecialAction::DropSchema { name: n, if_exists: b, cascade: c })
                &&& n@ == unicode_lowercase(name@)
                &&& b == if_exists
                &&& c == cascade
            },
            SpecialStmt::RefreshMaterializedView => {
                &&& final(session)@ == old(session)@
                &&& r matches Ok(SpecialAction::Noop)
            },
            SpecialStmt::CommentOn => {
                &&& final(session)@ == old(session)@
                &&& r matches Ok(SpecialAction::Noop)
            },
            SpecialStmt::CopyFrom(c) => {
                &&& final(session)@ == old(session)@
                &&& r matches Ok(SpecialAction::CopyFrom(c2))
                &&& c2 == c
            },
            SpecialStmt::Explain { query, analyze } => {
                &&& final(session)@ == old(session)@
                &&& match sqlite_catalog_check(trimmed(query@)) {
                    Ok(()) => {
                        &&& r matches Ok(SpecialAction::Explain { query: q, kind })
                        &&& q@ == trimmed(query@)
                        &&& kind == (if analyze {
                            ExplainKind::QueryPlan
                        } else {
                            ExplainKind::Explain
                        })
                    },
                    Err(e) => {
                        &&& r matches Err(e2)
                        &&& e2@ == e
                    },
                }
            },
            SpecialStmt::Prepare { name, query } => {
                &&& final(session)@ == old(session)@.prepare(name@, query@)
                &&& r matches Ok(SpecialAction::Noop)
            },
            SpecialStmt::Execute { name, params } => {
                &&& final(session)@ == old(session)@
                &&& match old(session)@.lookup(name@) {
                    Ok(q) => {
                        &&& r matches Ok(SpecialAction::Execute { query, bindings })
                        &&& query@ == q
                        &&& bindings.len() == params.len()
                        &&& forall|i: int|
                            0 <= i < params.len() ==> {
                                &&& (#[trigger] bindings[i]).name@ == param_name((i + 1) as nat)
                                &&& bindings[i].position == i + 1
                                &&& bindings[i].value@ == literal_spec(params[i]@)
                            }
                    },
                    Err(e) => {
                        &&& r matches Err(e2)
                        &&& e2@ == e
                    },
                }
            },
            SpecialStmt::Deallocate { name } => {
                &&& final(session)@ == old(session)@.deallocate(
                    match name {
                        Some(n) => Some(n@),
                        None => None,
                    },
                )
                &&& r matches Ok(SpecialAction::Noop)
            },
        },
{
    match stmt {
        SpecialStmt::SetParameter { name, values } => {
            match plan_set(name.as_str(), &values) {
                Ok(SetAction::SearchPath(path)) => {
                    session.set_search_path(path);
                    Ok(SpecialAction::Noop)
                },
                Ok(SetAction::Pragma(sql)) => Ok(SpecialAction::Pragma(sql)),
                Err(e) => Err(e),
            }
        },
        SpecialStmt::ShowParameter { name } => Ok(SpecialAction::Pragma(show_pragma_sql(name.as_str()))),
        SpecialStmt::CreateSchema { name, if_not_exists } => {
            Ok(SpecialAction::CreateSchema { name: schema_name(name.as_str()), if_not_exists })
        },
        SpecialStmt::DropSchema { name, if_exists, cascade } => {
            Ok(
                SpecialAction::DropSchema {
                    name: schema_name(name.as_str()),
                    if_exists,
                    cascade,
                },
            )
        },
        SpecialStmt::RefreshMaterializedView => Ok(SpecialAction::Noop),
        SpecialStmt::CommentOn => Ok(SpecialAction::Noop),
        SpecialStmt::CopyFrom(c) => Ok(SpecialAction::CopyFrom(c)),
        SpecialStmt::Explain { query, analyze } => {
            let q = trim(query.as_str());
            match reject_sqlite_catalog_access(q.as_str()) {
                Ok(()) => {
                    let kind = if analyze {
                        ExplainKind::QueryPlan
                    } else {
                        ExplainKind::Explain
                    };
                    Ok(SpecialAction::Explain { query: q, kind })
                },
                Err(e) => Err(e),
            }
        },
        SpecialStmt::Prepare { name, query } => {
            session.prepare(name, query);
            Ok(SpecialAction::Noop)
        },
        SpecialStmt::Execute { name, params } => {
            match session.lookup_prepared(name.as_str()) {
                Ok(query) => Ok(SpecialAction::Execute { query, bindings: bind_plan(&params) }),
                Err(e) => Err(e),
            }
        },
        SpecialStmt::Deallocate { name } => {
            match &name {
                Some(n) => session.deallocate(Some(n.as_str())),
                None => session.deallocate(None),
            }
            Ok(SpecialAction::Noop)
        },
    }
}

} // verus!
