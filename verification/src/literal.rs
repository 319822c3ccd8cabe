//! Literal parameters of `EXECUTE name(arg, ...)`: what value each one
//! stands for, and how they bind to the prepared statement's parameters.
use vstd::prelude::*;
use crate::text::{
    chars_of, decimal_chars, decimal_text, eq_ignore_ascii_case, eq_ignore_case, extend_chars,
    parse_i64, parse_i64_spec, string_of, sub_chars, trim_chars, trimmed, undouble_quote_chars,
    undouble_quotes,
};

verus! {

/// The value that a literal argument stands for.
#[derive(Debug, PartialEq, Eq)]
pub enum LiteralValue {
    /// `NULL`, in any case.
    Null,
    /// An integer; `true` and `false` (in any case) stand for 1 and 0.
    Integer(i64),
    /// A quoted string, with its quotes removed and doubled quotes undone.
    Text(String),
    /// Any other text, trimmed: a real number where it reads as one,
    /// otherwise a string.
    Unparsed(String),
}

/// What a [`LiteralValue`] holds.
pub enum LiteralSpec {
    Null,
    Integer(i64),
    Text(Seq<char>),
    Unparsed(Seq<char>),
}

impl View for LiteralValue {
    type V = LiteralSpec;

    open spec fn view(&self) -> LiteralSpec {
        match self {
            LiteralValue::Null => LiteralSpec::Null,
            LiteralValue::Integer(i) => LiteralSpec::Integer(*i),
            LiteralValue::Text(t) => LiteralSpec::Text(t@),
            LiteralValue::Unparsed(t) => LiteralSpec::Unparsed(t@),
        }
    }
}

/// Whether `t` is enclosed in single quotes.
pub open spec fn is_quoted(t: Seq<char>) -> bool {
    t.len() >= 2 && t[0] == '\'' && t.last() == '\''
}

/// The value that the literal `raw` stands for: it is trimmed, then read as
/// `NULL`, `true` or `false` (in any case), a quoted string, an integer, and
/// otherwise left as text.
pub open spec fn literal_spec(raw: Seq<char>) -> LiteralSpec {
    let t = trimmed(raw);
    if eq_ignore_case(t, "NULL"@) {
        LiteralSpec::Null
    } else if eq_ignore_case(t, "true"@) {
        LiteralSpec::Integer(1)
    } else if eq_ignore_case(t, "false"@) {
        LiteralSpec::Integer(0)
    } else if is_quoted(t) {
        LiteralSpec::Text(undouble_quotes(t.subrange(1, t.len() - 1)))
    } else if parse_i64_spec(t) is Some {
        LiteralSpec::Integer(parse_i64_spec(t)->0)
    } else {
        LiteralSpec::Unparsed(t)
    }
}

/// The value that the literal argument `raw` stands for.
pub fn literal_to_value(raw: &str) -> (v: LiteralValue)
    ensures
        v@ == literal_spec(raw@),
{
    let t = trim_chars(&chars_of(raw));
    if eq_ignore_ascii_case(&t, &chars_of("NULL")) {
        return LiteralValue::Null;
    }
    if eq_ignore_ascii_case(&t, &chars_of("true")) {
        return LiteralValue::Integer(1);
    }
    if eq_ignore_ascii_case(&t, &chars_of("false")) {
        return LiteralValue::Integer(0);
    }
    let n = t.len();
    if n >= 2 && t[0] == '\'' && t[n - 1] == '\'' {
        let inner = sub_chars(&t, 1, n - 1);
        return LiteralValue::Text(string_of(&undouble_quote_chars(&inner)));
    }
    match parse_i64(&t) {
        Some(i) => LiteralValue::Integer(i),
        None => LiteralValue::Unparsed(string_of(&t)),
    }
}

/// How one argument of `EXECUTE` binds: to the parameter called `name`
/// where the statement has one, otherwise to the parameter at `position`.
#[derive(Debug, PartialEq, Eq)]
pub struct ParamBinding {
    pub name: String,
    pub position: usize,
    pub value: LiteralValue,
}

/// The name of the `n`-th positional parameter, `$n`.
pub open spec fn param_name(n: nat) -> Seq<char> {
    seq!['$'] + decimal_text(n)
}

/// The bindings of the arguments `params`, in order: the `i`-th (from 0)
/// binds to `$i+1`, or else to position `i+1`, with the value it stands for.
pub fn bind_plan(params: &Vec<String>) -> (r: Vec<ParamBinding>)
    ensures
        r.len() == params.len(),
        forall|i: int|
            0 <= i < params.len() ==> {
                &&& (#[trigger] r[i]).name@ == param_name((i + 1) as nat)
                &&& r[i].position == i + 1
                &&& r[i].value@ == literal_spec(params[i]@)
            },
{
    let mut r: Vec<ParamBinding> = Vec::new();
    for i in 0..params.len()
        invariant
            r.len() == i,
            forall|j: int|
                0 <= j < i ==> {
                    &&& (#[trigger] r[j]).name@ == param_name((j + 1) as nat)
                    &&& r[j].position == j + 1
                    &&& r[j].value@ == literal_spec(params[j]@)
                },
    {
        let mut name: Vec<char> = Vec::new();
        name.push('$');
        let digits = decimal_chars(i + 1);
        extend_chars(&mut name, &digits);
        assert(name@ == seq!['$'] + decimal_text((i + 1) as nat));
        let value = literal_to_value(params[i].as_str());
        r.push(ParamBinding { name: string_of(&name), position: i + 1, value });
    }
    r
}

} // verus!
