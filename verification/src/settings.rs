//! `SET` and `SHOW`: the search path is kept by the session, every other
//! setting becomes a `PRAGMA` of the engine.
use vstd::prelude::*;
use crate::error::{PgError, PgErrorView};
use crate::literal::{LiteralSpec, literal_spec};
use crate::text::{
    ascii_lowercase, concat2, concat3, double_quotes, eq_ignore_case, is_white_space_spec,
    escape_single_quotes, law_undouble_after_double, owned, str_eq, texts, trim_end, trim_start,
    trimmed,
};

verus! {

/// A value in a `SET name TO value, ...` statement.
#[derive(Debug, PartialEq, Eq)]
pub enum SetValue {
    Identifier(String),
    StringLiteral(String),
    Number(String),
    Bool(bool),
    /// An expression, as SQL text.
    RawSql(String),
    Null,
}

/// What a [`SetValue`] holds.
pub enum SetValueSpec {
    Identifier(Seq<char>),
    StringLiteral(Seq<char>),
    Number(Seq<char>),
    Bool(bool),
    RawSql(Seq<char>),
    Null,
}

impl View for SetValue {
    type V = SetValueSpec;

    open spec fn view(&self) -> SetValueSpec {
        match self {
            SetValue::Identifier(s) => SetValueSpec::Identifier(s@),
            SetValue::StringLiteral(s) => SetValueSpec::StringLiteral(s@),
            SetValue::Number(s) => SetValueSpec::Number(s@),
            SetValue::Bool(b) => SetValueSpec::Bool(*b),
            SetValue::RawSql(s) => SetValueSpec::RawSql(s@),
            SetValue::Null => SetValueSpec::Null,
        }
    }
}

/// The SQL text of a value: a string literal is quoted with its quotes
/// doubled, a boolean is `1` or `0`, a null is `NULL`, anything else is
/// written as it is.
pub open spec fn set_value_sql(v: SetValueSpec) -> Seq<char> {
    match v {
        SetValueSpec::Identifier(s) => s,
        SetValueSpec::StringLiteral(s) => seq!['\''] + double_quotes(s) + seq!['\''],
        SetValueSpec::Number(s) => s,
        SetValueSpec::Bool(b) => if b {
            seq!['1']
        } else {
            seq!['0']
        },
        SetValueSpec::RawSql(s) => s,
        SetValueSpec::Null => "NULL"@,
    }
}

/// The schema name that a value of `SET search_path` stands for: an
/// identifier or a string; other values name no schema.
pub open spec fn search_path_name(v: SetValueSpec) -> Option<Seq<char>> {
    match v {
        SetValueSpec::Identifier(s) => Some(s),
        SetValueSpec::StringLiteral(s) => Some(s),
        _ => None,
    }
}

impl SetValue {
    /// The value as SQL text.
    pub fn to_sql_string(&self) -> (r: String)
        ensures
            r@ == set_value_sql(self@),
    {
        match self {
            SetValue::Identifier(s) => s.clone(),
            SetValue::StringLiteral(s) => {
                let inner = escape_single_quotes(s.as_str());
                let mut v: Vec<char> = Vec::new();
                v.push('\'');
                crate::text::extend_chars(&mut v, &crate::text::chars_of(inner.as_str()));
                v.push('\'');
                assert(v@ == seq!['\''] + double_quotes(s@) + seq!['\'']);
                crate::text::string_of(&v)
            },
            SetValue::Number(s) => s.clone(),
            SetValue::Bool(b) => {
                let mut v: Vec<char> = Vec::new();
                if *b {
                    v.push('1');
                } else {
                    v.push('0');
                }
                crate::text::string_of(&v)
            },
            SetValue::RawSql(s) => s.clone(),
            SetValue::Null => owned("NULL"),
        }
    }

    /// The schema name that the value stands for in `SET search_path`.
    pub fn as_search_path_name(&self) -> (r: Option<String>)
        ensures
            match r {
                Some(s) => search_path_name(self@) == Some(s@),
                None => search_path_name(self@) is None,
            },
    {
        match self {
            SetValue::Identifier(s) => Some(s.clone()),
            SetValue::StringLiteral(s) => Some(s.clone()),
            _ => None,
        }
    }
}

/// What a `SET` statement comes to.
#[derive(Debug, PartialEq, Eq)]
pub enum SetAction {
    /// The session's search path becomes these schemas.
    SearchPath(Vec<String>),
    /// The engine runs this `PRAGMA`.
    Pragma(String),
}

/// What a [`SetAction`] holds.
pub enum SetActionSpec {
    SearchPath(Seq<Seq<char>>),
    Pragma(Seq<char>),
}

impl View for SetAction {
    type V = SetActionSpec;

    open spec fn view(&self) -> SetActionSpec {
        match self {
            SetAction::SearchPath(p) => SetActionSpec::SearchPath(texts(p@)),
            SetAction::Pragma(s) => SetActionSpec::Pragma(s@),
        }
    }
}

/// The text of `PRAGMA name = value`.
pub open spec fn pragma_assignment(name: Seq<char>, value: Seq<char>) -> Seq<char> {
    "PRAGMA "@ + name + " = "@ + value
}

/// The views of `values`.
pub open spec fn set_values_view(values: Seq<SetValue>) -> Seq<SetValueSpec> {
    values.map_values(|v: SetValue| v@)
}

/// What `SET name TO values` comes to: for `search_path`, the schemas that
/// the values name (refused as badly formatted if one names none); for any
/// other setting, a `PRAGMA` with the first value (refused if there is none).
pub open spec fn set_plan(name: Seq<char>, values: Seq<SetValueSpec>) -> Result<
    SetActionSpec,
    PgErrorView,
> {
    if name == "search_path"@ {
        if forall|i: int| 0 <= i < values.len() ==> (#[trigger] search_path_name(values[i])) is Some {
            Ok(SetActionSpec::SearchPath(values.map_values(|v| search_path_name(v)->0)))
        } else {
            Err(PgErrorView::ParseError("incorrect format"@))
        }
    } else if values.len() == 0 {
        Err(PgErrorView::ParseError("SET "@ + name + ": no value provided"@))
    } else {
        Ok(SetActionSpec::Pragma(pragma_assignment(name, set_value_sql(values[0]))))
    }
}

/// The view of a result of [`plan_set`].
pub open spec fn set_result_view(r: Result<SetAction, PgError>) -> Result<SetActionSpec, PgErrorView> {
    match r {
        Ok(a) => Ok(a@),
        Err(e) => Err(e@),
    }
}

/// The text of `PRAGMA name = value`.
pub fn pragma_assignment_sql(name: &str, value: &str) -> (r: String)
    ensures
        r@ == pragma_assignment(name@, value@),
{
    let head = concat3("PRAGMA ", name, " = ");
    concat2(head.as_str(), value)
}

/// What `SET name TO values` comes to.
pub fn plan_set(name: &str, values: &Vec<SetValue>) -> (r: Result<SetAction, PgError>)
    ensures
        set_result_view(r) == set_plan(name@, set_values_view(values@)),
{
    let ghost vs = set_values_view(values@);
    if str_eq(name, "search_path") {
        let mut path: Vec<String> = Vec::new();
        for i in 0..values.len()
            invariant
                name@ == "search_path"@,
                vs == set_values_view(values@),
                path.len() == i,
                forall|j: int| 0 <= j < i ==> (#[trigger] search_path_name(vs[j])) is Some,
                forall|j: int| 0 <= j < i ==> search_path_name(vs[j]) == Some(#[trigger] path@[j]@),
        {
            match values[i].as_search_path_name() {
                Some(s) => {
                    path.push(s);
                },
                None => {
                    assert(search_path_name(vs[i as int]) is None);
                    return Err(PgError::ParseError(owned("incorrect format")));
                },
            }
        }
        assert(texts(path@) == vs.map_values(|v| search_path_name(v)->0));
        return Ok(SetAction::SearchPath(path));
    }
    if values.len() == 0 {
        let msg = concat3("SET ", name, ": no value provided");
        return Err(PgError::ParseError(msg));
    }
    let value = values[0].to_sql_string();
    Ok(SetAction::Pragma(pragma_assignment_sql(name, value.as_str())))
}

/// The text of `PRAGMA name`, which answers `SHOW name`.
pub fn show_pragma_sql(name: &str) -> (r: String)
    ensures
        r@ == "PRAGMA "@ + name@,
{
    concat2("PRAGMA ", name)
}

/// A string that `SET` writes as an SQL string literal reads back, as a
/// literal argument of `EXECUTE`, as that same string.
pub proof fn law_string_literal_reads_back(s: Seq<char>)
    ensures
        literal_spec(set_value_sql(SetValueSpec::StringLiteral(s))) == LiteralSpec::Text(s),
{
    let q = set_value_sql(SetValueSpec::StringLiteral(s));
    let d = double_quotes(s);
    assert(q == seq!['\''] + d + seq!['\'']);
    assert(q[0] == '\'');
    assert(q.last() == '\'');
    assert(!is_white_space_spec('\''));
    assert(trim_start(q) == q);
    assert(trim_end(q) == q);
    assert(trimmed(q) == q);
    reveal_strlit("NULL");
    reveal_strlit("true");
    reveal_strlit("false");
    assert(ascii_lowercase(q)[0] == '\'');
    assert(ascii_lowercase("NULL"@)[0] == 'n');
    assert(ascii_lowercase("true"@)[0] == 't');
    assert(ascii_lowercase("false"@)[0] == 'f');
    assert(!eq_ignore_case(q, "NULL"@));
    assert(!eq_ignore_case(q, "true"@));
    assert(!eq_ignore_case(q, "false"@));
    assert(q.subrange(1, q.len() - 1) == d);
    law_undouble_after_double(s);
}

} // verus!
