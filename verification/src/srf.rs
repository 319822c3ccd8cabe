//! The rewrite of set-returning functions called in a `SELECT` list: a
//! `SELECT f(args)` with no `FROM`, where `f` is a table-valued function,
//! becomes `SELECT c FROM f(args)` with `c` the function's first visible
//! column, in every `SELECT` of a statement, subqueries included.
//!
//! A statement is held here in the shape that the rewrite reads: the parts
//! that it walks through, and for each function call in a select list the
//! columns of the table-valued function of that name, where there is one.
use vstd::prelude::*;

verus! {

/// A column of a table-valued function: whether it is a hidden (argument)
/// column, and its name.
#[derive(Debug, PartialEq, Eq)]
pub struct TableColumn {
    pub hidden: bool,
    pub name: Option<String>,
}

/// The number of hidden columns in `cols`.
pub open spec fn hidden_count(cols: Seq<TableColumn>) -> nat
    decreases cols.len(),
{
    if cols.len() == 0 {
        0
    } else {
        hidden_count(cols.drop_last()) + if cols.last().hidden {
            1nat
        } else {
            0nat
        }
    }
}

/// The position of the first column of `cols` that is not hidden.
pub open spec fn first_visible(cols: Seq<TableColumn>) -> Option<int>
    decreases cols.len(),
{
    if cols.len() == 0 {
        None
    } else if !cols[0].hidden {
        Some(0)
    } else {
        match first_visible(cols.drop_first()) {
            Some(i) => Some(i + 1),
            None => None,
        }
    }
}

/// The column that a call with `arg_count` arguments of a table-valued
/// function with columns `cols` reads: its first visible column, when the
/// function takes arguments at all and not fewer than are given.
pub open spec fn tvf_column(cols: Seq<TableColumn>, arg_count: nat) -> Option<String> {
    let hidden = hidden_count(cols);
    if hidden == 0 || arg_count > hidden {
        None
    } else {
        match first_visible(cols) {
            Some(i) => cols[i].name,
            None => None,
        }
    }
}

/// The column to read from a call with `arg_count` arguments of the
/// table-valued function with columns `cols`.
pub fn tvf_first_column(cols: &Vec<TableColumn>, arg_count: usize) -> (r: Option<String>)
    ensures
        r == tvf_column(cols@, arg_count as nat),
{
    let mut hidden: usize = 0;
    for i in 0..cols.len()
        invariant
            hidden == hidden_count(cols@.take(i as int)),
            hidden <= i,
    {
        assert(cols@.take(i + 1).drop_last() == cols@.take(i as int));
        if cols[i].hidden {
            hidden = hidden + 1;
        }
    }
    assert(cols@.take(cols.len() as int) == cols@);
    if hidden == 0 || arg_count > hidden {
        return None;
    }
    let mut i: usize = 0;
    while i < cols.len() && cols[i].hidden
        invariant
            i <= cols.len(),
            forall|j: int| 0 <= j < i ==> (#[trigger] cols@[j]).hidden,
            hidden == hidden_count(cols@),
            !(hidden == 0 || arg_count > hidden),
        decreases cols.len() - i,
    {
        i = i + 1;
    }
    proof {
        lemma_first_visible(cols@, i as int);
    }
    if i == cols.len() {
        return None;
    }
    match &cols[i].name {
        Some(n) => Some(n.clone()),
        None => None,
    }
}

proof fn lemma_first_visible(cols: Seq<TableColumn>, i: int)
    requires
        0 <= i <= cols.len(),
        forall|j: int| 0 <= j < i ==> (#[trigger] cols[j]).hidden,
        i < cols.len() ==> !cols[i].hidden,
    ensures
        first_visible(cols) == if i < cols.len() {
            Some(i)
        } else {
            None
        },
    decreases i,
{
    if cols.len() > 0 && i > 0 {
        let t = cols.drop_first();
        assert forall|j: int| 0 <= j < i - 1 implies (#[trigger] t[j]).hidden by {
            assert(t[j] == cols[j + 1]);
        }
        if i < cols.len() {
            assert(t[i - 1] == cols[i]);
        }
        lemma_first_visible(t, i - 1);
    }
}

/// Whether `c` is a hidden column.
pub open spec fn is_hidden(c: TableColumn) -> bool {
    c.hidden
}

proof fn lemma_hidden_count_filter(cols: Seq<TableColumn>)
    ensures
        hidden_count(cols) == cols.filter(|c: TableColumn| is_hidden(c)).len(),
    decreases cols.len(),
{
    reveal(Seq::filter);
    if cols.len() > 0 {
        lemma_hidden_count_filter(cols.drop_last());
    }
}

proof fn lemma_first_visible_found(cols: Seq<TableColumn>)
    ensures
        first_visible(cols) matches Some(i) ==> {
            &&& 0 <= i < cols.len()
            &&& !cols[i].hidden
            &&& forall|j: int| 0 <= j < i ==> (#[trigger] cols[j]).hidden
        },
    decreases cols.len(),
{
    if cols.len() > 0 && cols[0].hidden {
        let t = cols.drop_first();
        lemma_first_visible_found(t);
        if let Some(k) = first_visible(t) {
            assert forall|j: int| 0 <= j < k + 1 implies (#[trigger] cols[j]).hidden by {
                if j > 0 {
                    assert(cols[j] == t[j - 1]);
                }
            }
            assert(cols[k + 1] == t[k]);
        }
    }
}

/// A call of a table-valued function with `n` arguments reads the function's
/// first column that is not hidden, under that column's name. There is such a
/// read exactly when the function has hidden (argument) columns, no fewer
/// than `n`, and its first visible column has a name.
pub proof fn law_tvf_column_is_first_visible(cols: Seq<TableColumn>, n: nat)
    ensures
        tvf_column(cols, n) matches Some(c) ==> exists|i: int|
            {
                &&& 0 <= i < cols.len()
                &&& !(#[trigger] cols[i]).hidden
                &&& forall|j: int| 0 <= j < i ==> (#[trigger] cols[j]).hidden
                &&& cols[i].name == Some(c)
            },
        tvf_column(cols, n) is Some ==> {
            let hidden = cols.filter(|c: TableColumn| is_hidden(c)).len();
            0 < hidden && n <= hidden
        },
        forall|i: int|
            {
                &&& 0 <= i < cols.len()
                &&& !(#[trigger] cols[i]).hidden
                &&& forall|j: int| 0 <= j < i ==> (#[trigger] cols[j]).hidden
                &&& 0 < cols.filter(|c: TableColumn| is_hidden(c)).len()
                &&& n <= cols.filter(|c: TableColumn| is_hidden(c)).len()
            } ==> tvf_column(cols, n) == cols[i].name,
{
    lemma_hidden_count_filter(cols);
    lemma_first_visible_found(cols);
    assert forall|i: int|
        {
            &&& 0 <= i < cols.len()
            &&& !(#[trigger] cols[i]).hidden
            &&& forall|j: int| 0 <= j < i ==> (#[trigger] cols[j]).hidden
            &&& 0 < cols.filter(|c: TableColumn| is_hidden(c)).len()
            &&& n <= cols.filter(|c: TableColumn| is_hidden(c)).len()
        } implies tvf_column(cols, n) == cols[i].name by {
        lemma_first_visible(cols, i);
    }
    if let Some(i) = first_visible(cols) {
        if tvf_column(cols, n) is Some {
            assert(cols[i].name == tvf_column(cols, n));
        }
    }
}

/// A column of a select list. The function names `N`, the arguments `A`
/// and the aliases `L` are carried along as they are: the rewrite moves them
/// and never looks inside.
#[derive(Debug, PartialEq, Eq)]
pub enum ResultCol<N, A, L> {
    /// A call `name(args)` of a function, under its alias if it has one;
    /// `table` holds the columns of the table-valued function of that name,
    /// where there is one.
    Call { name: N, args: Vec<A>, alias: Option<L>, table: Option<Vec<TableColumn>> },
    /// A reference to the column `name`, under its alias if it has one.
    Column { name: String, alias: Option<L> },
    /// Any other column.
    Other,
}

/// A `SELECT` with its compound parts (`UNION`, ...).
#[derive(Debug, PartialEq, Eq)]
pub struct Query<N, A, L> {
    pub first: SelectCore<N, A, L>,
    pub compounds: Vec<SelectCore<N, A, L>>,
}

/// One `SELECT` core.
#[derive(Debug, PartialEq, Eq)]
pub enum SelectCore<N, A, L> {
    Select { columns: Vec<ResultCol<N, A, L>>, from: Option<FromItems<N, A, L>>, where_clause: Option<Box<SqlExpr<N, A, L>>> },
    Values,
}

/// A `FROM` clause: the first table and the joined ones.
#[derive(Debug, PartialEq, Eq)]
pub struct FromItems<N, A, L> {
    pub first: Source<N, A, L>,
    pub joins: Vec<Source<N, A, L>>,
}

/// A table in a `FROM` clause.
#[derive(Debug, PartialEq, Eq)]
pub enum Source<N, A, L> {
    /// A subquery.
    Query(Box<Query<N, A, L>>),
    /// A parenthesized join.
    Nested(Box<FromItems<N, A, L>>),
    /// A call `name(args)` of a table-valued function, under its alias if it
    /// has one.
    TableCall { name: N, args: Vec<A>, alias: Option<L> },
    /// A named table.
    Other,
}

/// An expression, as far as the rewrite walks into it.
#[derive(Debug, PartialEq, Eq)]
pub enum SqlExpr<N, A, L> {
    /// `lhs IN (query)`.
    InSelect(Box<SqlExpr<N, A, L>>, Box<Query<N, A, L>>),
    /// `(query)`.
    Subquery(Box<Query<N, A, L>>),
    /// `EXISTS (query)`.
    Exists(Box<Query<N, A, L>>),
    /// `lhs op rhs`.
    Binary(Box<SqlExpr<N, A, L>>, Box<SqlExpr<N, A, L>>),
    /// A unary operator, `IS NULL`, `NOT NULL`, `COLLATE` or `CAST` around one expression.
    Wrapped(Box<SqlExpr<N, A, L>>),
    /// `(e, ...)`.
    Parenthesized(Vec<SqlExpr<N, A, L>>),
    /// `lhs IN (e, ...)`.
    InList(Box<SqlExpr<N, A, L>>, Vec<SqlExpr<N, A, L>>),
    /// Anything else, left as it is.
    Other,
}

/// A statement, as far as the rewrite walks into it.
#[derive(Debug, PartialEq, Eq)]
pub enum SqlStmt<N, A, L> {
    Select(Query<N, A, L>),
    /// An `INSERT`, with its `SELECT` where its rows come from one.
    Insert(Option<Query<N, A, L>>),
    /// An `UPDATE`, with its `WHERE` clause.
    Update(Option<Box<SqlExpr<N, A, L>>>),
    /// A `DELETE`, with its `WHERE` clause.
    Delete(Option<Box<SqlExpr<N, A, L>>>),
    Other,
}

/// The column that the table-valued call of a select list consisting of
/// `columns` reads, if the list stands for one: its only column calls a
/// table-valued function that has such a column for that many arguments.
pub open spec fn tvf_target<N, A, L>(columns: Seq<ResultCol<N, A, L>>) -> Option<String> {
    if columns.len() == 1 {
        match columns[0] {
            ResultCol::Call { args, table: Some(cols), .. } => tvf_column(cols@, args@.len()),
            _ => None,
        }
    } else {
        None
    }
}

/// Whether `r` is what the rewrite makes of the `SELECT` core `c`: its
/// `WHERE` and `FROM` are rewritten, and a core without `FROM` whose only
/// column calls a table-valued function reads that function's column from it:
/// the column keeps the call's alias, and the new `FROM` holds the call alone,
/// with the call's name and arguments and no alias.
pub open spec fn core_rewritten<N, A, L>(c: SelectCore<N, A, L>, r: SelectCore<N, A, L>) -> bool
    decreases c,
{
    match c {
        SelectCore::Values => r is Values,
        SelectCore::Select { columns, from, where_clause } => match r {
            SelectCore::Select { columns: rc, from: rf, where_clause: rw } => {
                &&& opt_expr_rewritten(where_clause, rw)
                &&& match from {
                    Some(f) => {
                        &&& rf matches Some(g)
                        &&& from_rewritten(f, g)
                        &&& rc@ == columns@
                    },
                    None => match tvf_target(columns@) {
                        Some(col) => {
                            &&& columns@[0] matches ResultCol::Call { name, args, alias, .. }
                            &&& rc@ == seq![ResultCol::<N, A, L>::Column { name: col, alias }]
                            &&& rf matches Some(g)
                            &&& g.first == (Source::<N, A, L>::TableCall { name, args, alias: None })
                            &&& g.joins@.len() == 0
                        },
                        None => {
                            &&& rc@ == columns@
                            &&& rf is None
                        },
                    },
                }
            },
            SelectCore::Values => false,
        },
    }
}

/// Whether each core of `t` is what the rewrite makes of that of `s`.
pub open spec fn cores_rewritten<N, A, L>(s: Seq<SelectCore<N, A, L>>, t: Seq<SelectCore<N, A, L>>) -> bool
    decreases s,
{
    &&& s.len() == t.len()
    &&& forall|i: int| 0 <= i < s.len() ==> core_rewritten(s[i], #[trigger] t[i])
}

/// Whether `r` is what the rewrite makes of the query `q`.
pub open spec fn query_rewritten<N, A, L>(q: Query<N, A, L>, r: Query<N, A, L>) -> bool
    decreases q,
{
    &&& core_rewritten(q.first, r.first)
    &&& cores_rewritten(q.compounds@, r.compounds@)
}

/// Whether `g` is what the rewrite makes of the `FROM` clause `f`.
pub open spec fn from_rewritten<N, A, L>(f: FromItems<N, A, L>, g: FromItems<N, A, L>) -> bool
    decreases f,
{
    &&& source_rewritten(f.first, g.first)
    &&& sources_rewritten(f.joins@, g.joins@)
}

/// Whether each table of `t` is what the rewrite makes of that of `s`.
pub open spec fn sources_rewritten<N, A, L>(s: Seq<Source<N, A, L>>, t: Seq<Source<N, A, L>>) -> bool
    decreases s,
{
    &&& s.len() == t.len()
    &&& forall|i: int| 0 <= i < s.len() ==> source_rewritten(s[i], #[trigger] t[i])
}

/// Whether `t` is what the rewrite makes of the table `s`: subqueries are
/// rewritten, other tables kept.
pub open spec fn source_rewritten<N, A, L>(s: Source<N, A, L>, t: Source<N, A, L>) -> bool
    decreases s,
{
    match s {
        Source::Query(q) => {
            &&& t matches Source::Query(q2)
            &&& query_rewritten(*q, *q2)
        },
        Source::Nested(f) => {
            &&& t matches Source::Nested(g)
            &&& from_rewritten(*f, *g)
        },
        _ => t == s,
    }
}

/// Whether `r` is what the rewrite makes of the optional expression `e`.
pub open spec fn opt_expr_rewritten<N, A, L>(e: Option<Box<SqlExpr<N, A, L>>>, r: Option<Box<SqlExpr<N, A, L>>>) -> bool
    decreases e,
{
    match e {
        Some(x) => {
            &&& r matches Some(y)
            &&& expr_rewritten(*x, *y)
        },
        None => r is None,
    }
}

/// Whether each expression of `t` is what the rewrite makes of that of `s`.
pub open spec fn exprs_rewritten<N, A, L>(s: Seq<SqlExpr<N, A, L>>, t: Seq<SqlExpr<N, A, L>>) -> bool
    decreases s,
{
    &&& s.len() == t.len()
    &&& forall|i: int| 0 <= i < s.len() ==> expr_rewritten(s[i], #[trigger] t[i])
}

/// Whether `r` is what the rewrite makes of the expression `e`: the
/// subqueries in it are rewritten, all else is kept.
pub open spec fn expr_rewritten<N, A, L>(e: SqlExpr<N, A, L>, r: SqlExpr<N, A, L>) -> bool
    decreases e,
{
    match e {
        SqlExpr::InSelect(l, q) => {
            &&& r matches SqlExpr::InSelect(l2, q2)
            &&& expr_rewritten(*l, *l2)
            &&& query_rewritten(*q, *q2)
        },
        SqlExpr::Subquery(q) => {
            &&& r matches SqlExpr::Subquery(q2)
            &&& query_rewritten(*q, *q2)
        },
        SqlExpr::Exists(q) => {
            &&& r matches SqlExpr::Exists(q2)
            &&& query_rewritten(*q, *q2)
        },
        SqlExpr::Binary(a, b) => {
            &&& r matches SqlExpr::Binary(a2, b2)
            &&& expr_rewritten(*a, *a2)
            &&& expr_rewritten(*b, *b2)
        },
        SqlExpr::Wrapped(a) => {
            &&& r matches SqlExpr::Wrapped(a2)
            &&& expr_rewritten(*a, *a2)
        },
        SqlExpr::Parenthesized(v) => {
            &&& r matches SqlExpr::Parenthesized(v2)
            &&& exprs_rewritten(v@, v2@)
        },
        SqlExpr::InList(l, v) => {
            &&& r matches SqlExpr::InList(l2, v2)
            &&& expr_rewritten(*l, *l2)
            &&& exprs_rewritten(v@, v2@)
        },
        SqlExpr::Other => r is Other,
    }
}

/// Whether `r` is what the rewrite makes of the statement `s`: the
/// `SELECT` of a query or of an `INSERT ... SELECT`, and the `WHERE` of an
/// `UPDATE` or a `DELETE`, are rewritten; other statements are kept.
pub open spec fn stmt_rewritten<N, A, L>(s: SqlStmt<N, A, L>, r: SqlStmt<N, A, L>) -> bool {
    match s {
        SqlStmt::Select(q) => {
            &&& r matches SqlStmt::Select(q2)
            &&& query_rewritten(q, q2)
        },
        SqlStmt::Insert(Some(q)) => {
            &&& r matches SqlStmt::Insert(Some(q2))
            &&& query_rewritten(q, q2)
        },
        SqlStmt::Insert(None) => r matches SqlStmt::Insert(None),
        SqlStmt::Update(w) => {
            &&& r matches SqlStmt::Update(w2)
            &&& opt_expr_rewritten(w, w2)
        },
        SqlStmt::Delete(w) => {
            &&& r matches SqlStmt::Delete(w2)
            &&& opt_expr_rewritten(w, w2)
        },
        SqlStmt::Other => r is Other,
    }
}

/// Whether `a` and `b` are the same `SELECT` core: equal in every part,
/// each list compared element by element.
pub open spec fn core_same<N, A, L>(a: SelectCore<N, A, L>, b: SelectCore<N, A, L>) -> bool
    decreases a,
{
    match a {
        SelectCore::Values => b is Values,
        SelectCore::Select { columns, from, where_clause } => match b {
            SelectCore::Select { columns: bc, from: bf, where_clause: bw } => {
                &&& columns@ == bc@
                &&& opt_expr_same(where_clause, bw)
                &&& match from {
                    Some(f) => {
                        &&& bf matches Some(g)
                        &&& from_same(f, g)
                    },
                    None => bf is None,
                }
            },
            SelectCore::Values => false,
        },
    }
}

/// Whether `s` and `t` hold the same cores, in order.
pub open spec fn cores_same<N, A, L>(s: Seq<SelectCore<N, A, L>>, t: Seq<SelectCore<N, A, L>>) -> bool
    decreases s,
{
    &&& s.len() == t.len()
    &&& forall|i: int| 0 <= i < s.len() ==> core_same(s[i], #[trigger] t[i])
}

/// Whether `a` and `b` are the same query.
pub open spec fn query_same<N, A, L>(a: Query<N, A, L>, b: Query<N, A, L>) -> bool
    decreases a,
{
    &&& core_same(a.first, b.first)
    &&& cores_same(a.compounds@, b.compounds@)
}

/// Whether `f` and `g` are the same `FROM` clause.
pub open spec fn from_same<N, A, L>(f: FromItems<N, A, L>, g: FromItems<N, A, L>) -> bool
    decreases f,
{
    &&& source_same(f.first, g.first)
    &&& sources_same(f.joins@, g.joins@)
}

/// Whether `s` and `t` hold the same tables, in order.
pub open spec fn sources_same<N, A, L>(s: Seq<Source<N, A, L>>, t: Seq<Source<N, A, L>>) -> bool
    decreases s,
{
    &&& s.len() == t.len()
    &&& forall|i: int| 0 <= i < s.len() ==> source_same(s[i], #[trigger] t[i])
}

/// Whether `s` and `t` are the same table.
pub open spec fn source_same<N, A, L>(s: Source<N, A, L>, t: Source<N, A, L>) -> bool
    decreases s,
{
    match s {
        Source::Query(q) => {
            &&& t matches Source::Query(q2)
            &&& query_same(*q, *q2)
        },
        Source::Nested(f) => {
            &&& t matches Source::Nested(g)
            &&& from_same(*f, *g)
        },
        _ => t == s,
    }
}

/// Whether `e` and `r` are the same optional expression.
pub open spec fn opt_expr_same<N, A, L>(e: Option<Box<SqlExpr<N, A, L>>>, r: Option<Box<SqlExpr<N, A, L>>>) -> bool
    decreases e,
{
    match e {
        Some(x) => {
            &&& r matches Some(y)
            &&& expr_same(*x, *y)
        },
        None => r is None,
    }
}

/// Whether `s` and `t` hold the same expressions, in order.
pub open spec fn exprs_same<N, A, L>(s: Seq<SqlExpr<N, A, L>>, t: Seq<SqlExpr<N, A, L>>) -> bool
    decreases s,
{
    &&& s.len() == t.len()
    &&& forall|i: int| 0 <= i < s.len() ==> expr_same(s[i], #[trigger] t[i])
}

/// Whether `e` and `r` are the same expression.
pub open spec fn expr_same<N, A, L>(e: SqlExpr<N, A, L>, r: SqlExpr<N, A, L>) -> bool
    decreases e,
{
    match e {
        SqlExpr::InSelect(l, q) => {
            &&& r matches SqlExpr::InSelect(l2, q2)
            &&& expr_same(*l, *l2)
            &&& query_same(*q, *q2)
        },
        SqlExpr::Subquery(q) => {
            &&& r matches SqlExpr::Subquery(q2)
            &&& query_same(*q, *q2)
        },
        SqlExpr::Exists(q) => {
            &&& r matches SqlExpr::Exists(q2)
            &&& query_same(*q, *q2)
        },
        SqlExpr::Binary(a, b) => {
            &&& r matches SqlExpr::Binary(a2, b2)
            &&& expr_same(*a, *a2)
            &&& expr_same(*b, *b2)
        },
        SqlExpr::Wrapped(a) => {
            &&& r matches SqlExpr::Wrapped(a2)
            &&& expr_same(*a, *a2)
        },
        SqlExpr::Parenthesized(v) => {
            &&& r matches SqlExpr::Parenthesized(v2)
            &&& exprs_same(v@, v2@)
        },
        SqlExpr::InList(l, v) => {
            &&& r matches SqlExpr::InList(l2, v2)
            &&& expr_same(*l, *l2)
            &&& exprs_same(v@, v2@)
        },
        SqlExpr::Other => r is Other,
    }
}

/// Whether `s` and `r` are the same statement: equal in every part, each
/// list compared element by element.
pub open spec fn stmt_same<N, A, L>(s: SqlStmt<N, A, L>, r: SqlStmt<N, A, L>) -> bool {
    match s {
        SqlStmt::Select(q) => {
            &&& r matches SqlStmt::Select(q2)
            &&& query_same(q, q2)
        },
        SqlStmt::Insert(Some(q)) => {
            &&& r matches SqlStmt::Insert(Some(q2))
            &&& query_same(q, q2)
        },
        SqlStmt::Insert(None) => r matches SqlStmt::Insert(None),
        SqlStmt::Update(w) => {
            &&& r matches SqlStmt::Update(w2)
            &&& opt_expr_same(w, w2)
        },
        SqlStmt::Delete(w) => {
            &&& r matches SqlStmt::Delete(w2)
            &&& opt_expr_same(w, w2)
        },
        SqlStmt::Other => r is Other,
    }
}

/// The rewrite of the optional expression `e`.
fn rewrite_opt_expr<N, A, L>(e: Option<Box<SqlExpr<N, A, L>>>) -> (r: Option<Box<SqlExpr<N, A, L>>>)
    ensures
        opt_expr_rewritten(e, r),
    decreases e,
{
    match e {
        Some(x) => Some(Box::new(rewrite_expr(*x))),
        None => None,
    }
}

/// The rewrite of each expression of `v`, in order.
fn rewrite_exprs<N, A, L>(v: Vec<SqlExpr<N, A, L>>) -> (r: Vec<SqlExpr<N, A, L>>)
    ensures
        exprs_rewritten(v@, r@),
    decreases v,
{
    let ghost v0 = v;
    let n = v.len();
    let mut rest = v;
    let mut rev: Vec<SqlExpr<N, A, L>> = Vec::new();
    #[verifier::loop_isolation(false)]
    while rest.len() > 0
        invariant
            rest@ == v0@.take(rest.len() as int),
            rest.len() + rev.len() == n,
            n == v0@.len(),
            forall|j: int| 0 <= j < rev.len() ==> expr_rewritten(v0@[n - 1 - j], #[trigger] rev@[j]),
        decreases rest.len(),
    {
        let ghost k = rest.len() - 1;
        let x = rest.pop().unwrap();
        assert(x == v0@[k]);
        assert(decreases_to!(v0 => v0@));
        let y = rewrite_expr(x);
        rev.push(y);
    }
    let mut r: Vec<SqlExpr<N, A, L>> = Vec::new();
    while rev.len() > 0
        invariant
            r.len() + rev.len() == n,
            n == v0@.len(),
            forall|j: int| 0 <= j < rev.len() ==> expr_rewritten(v0@[n - 1 - j], #[trigger] rev@[j]),
            forall|j: int| 0 <= j < r.len() ==> expr_rewritten(v0@[j], #[trigger] r@[j]),
        decreases rev.len(),
    {
        let y = rev.pop().unwrap();
        r.push(y);
    }
    r
}

/// The rewrite of the expression `e`.
fn rewrite_expr<N, A, L>(e: SqlExpr<N, A, L>) -> (r: SqlExpr<N, A, L>)
    ensures
        expr_rewritten(e, r),
    decreases e,
{
    match e {
        SqlExpr::InSelect(l, q) => SqlExpr::InSelect(
            Box::new(rewrite_expr(*l)),
            Box::new(rewrite_query(*q)),
        ),
        SqlExpr::Subquery(q) => SqlExpr::Subquery(Box::new(rewrite_query(*q))),
        SqlExpr::Exists(q) => SqlExpr::Exists(Box::new(rewrite_query(*q))),
        SqlExpr::Binary(a, b) => SqlExpr::Binary(
            Box::new(rewrite_expr(*a)),
            Box::new(rewrite_expr(*b)),
        ),
        SqlExpr::Wrapped(a) => SqlExpr::Wrapped(Box::new(rewrite_expr(*a))),
        SqlExpr::Parenthesized(v) => SqlExpr::Parenthesized(rewrite_exprs(v)),
        SqlExpr::InList(l, v) => SqlExpr::InList(Box::new(rewrite_expr(*l)), rewrite_exprs(v)),
        SqlExpr::Other => SqlExpr::Other,
    }
}

/// The rewrite of each core of `v`, in order.
fn rewrite_cores<N, A, L>(v: Vec<SelectCore<N, A, L>>) -> (r: Vec<SelectCore<N, A, L>>)
    ensures
        cores_rewritten(v@, r@),
    decreases v,
{
    let ghost v0 = v;
    let n = v.len();
    let mut rest = v;
    let mut rev: Vec<SelectCore<N, A, L>> = Vec::new();
    #[verifier::loop_isolation(false)]
    while rest.len() > 0
        invariant
            rest@ == v0@.take(rest.len() as int),
            rest.len() + rev.len() == n,
            n == v0@.len(),
            forall|j: int| 0 <= j < rev.len() ==> core_rewritten(v0@[n - 1 - j], #[trigger] rev@[j]),
        decreases rest.len(),
    {
        let ghost k = rest.len() - 1;
        let x = rest.pop().unwrap();
        assert(x == v0@[k]);
        assert(decreases_to!(v0 => v0@));
        let y = rewrite_core(x);
        rev.push(y);
    }
    let mut r: Vec<SelectCore<N, A, L>> = Vec::new();
    while rev.len() > 0
        invariant
            r.len() + rev.len() == n,
            n == v0@.len(),
            forall|j: int| 0 <= j < rev.len() ==> core_rewritten(v0@[n - 1 - j], #[trigger] rev@[j]),
            forall|j: int| 0 <= j < r.len() ==> core_rewritten(v0@[j], #[trigger] r@[j]),
        decreases rev.len(),
    {
        let y = rev.pop().unwrap();
        r.push(y);
    }
    r
}

/// The rewrite of each table of `v`, in order.
fn rewrite_sources<N, A, L>(v: Vec<Source<N, A, L>>) -> (r: Vec<Source<N, A, L>>)
    ensures
        sources_rewritten(v@, r@),
    decreases v,
{
    let ghost v0 = v;
    let n = v.len();
    let mut rest = v;
    let mut rev: Vec<Source<N, A, L>> = Vec::new();
    #[verifier::loop_isolation(false)]
    while rest.len() > 0
        invariant
            rest@ == v0@.take(rest.len() as int),
            rest.len() + rev.len() == n,
            n == v0@.len(),
            forall|j: int| 0 <= j < rev.len() ==> source_rewritten(v0@[n - 1 - j], #[trigger] rev@[j]),
        decreases rest.len(),
    {
        let ghost k = rest.len() - 1;
        let x = rest.pop().unwrap();
        assert(x == v0@[k]);
        assert(decreases_to!(v0 => v0@));
        let y = rewrite_source(x);
        rev.push(y);
    }
    let mut r: Vec<Source<N, A, L>> = Vec::new();
    while rev.len() > 0
        invariant
            r.len() + rev.len() == n,
            n == v0@.len(),
            forall|j: int| 0 <= j < rev.len() ==> source_rewritten(v0@[n - 1 - j], #[trigger] rev@[j]),
            forall|j: int| 0 <= j < r.len() ==> source_rewritten(v0@[j], #[trigger] r@[j]),
        decreases rev.len(),
    {
        let y = rev.pop().unwrap();
        r.push(y);
    }
    r
}

/// The rewrite of the table `s`.
fn rewrite_source<N, A, L>(s: Source<N, A, L>) -> (r: Source<N, A, L>)
    ensures
        source_rewritten(s, r),
    decreases s,
{
    match s {
        Source::Query(q) => Source::Query(Box::new(rewrite_query(*q))),
        Source::Nested(f) => Source::Nested(Box::new(rewrite_from(*f))),
        Source::TableCall { name, args, alias } => Source::TableCall { name, args, alias },
        Source::Other => Source::Other,
    }
}

/// The rewrite of the `FROM` clause `f`.
fn rewrite_from<N, A, L>(f: FromItems<N, A, L>) -> (r: FromItems<N, A, L>)
    ensures
        from_rewritten(f, r),
    decreases f,
{
    let FromItems { first, joins } = f;
    FromItems { first: rewrite_source(first), joins: rewrite_sources(joins) }
}

/// The rewrite of the `SELECT` core `c`.
fn rewrite_core<N, A, L>(c: SelectCore<N, A, L>) -> (r: SelectCore<N, A, L>)
    ensures
        core_rewritten(c, r),
    decreases c,
{
    match c {
        SelectCore::Values => SelectCore::Values,
        SelectCore::Select { columns, from, where_clause } => {
            let w = rewrite_opt_expr(where_clause);
            match from {
                Some(f) => SelectCore::Select {
                    columns,
                    from: Some(rewrite_from(f)),
                    where_clause: w,
                },
                None => {
                    let target = if columns.len() == 1 {
                        match &columns[0] {
                            ResultCol::Call { args, table: Some(cols), .. } => {
                                tvf_first_column(cols, args.len())
                            },
                            _ => None,
                        }
                    } else {
                        None
                    };
                    match target {
                        Some(col) => {
                            let mut columns = columns;
                            let call = columns.pop().unwrap();
                            match call {
                                ResultCol::Call { name, args, alias, .. } => {
                                    let mut cs: Vec<ResultCol<N, A, L>> = Vec::new();
                                    cs.push(ResultCol::Column { name: col, alias });
                                    let from = FromItems {
                                        first: Source::TableCall { name, args, alias: None },
                                        joins: Vec::new(),
                                    };
                                    SelectCore::Select { columns: cs, from: Some(from), where_clause: w }
                                },
                                _ => {
                                    proof {
                                        assert(false);
                                    }
                                    SelectCore::Values
                                },
                            }
                        },
                        None => SelectCore::Select { columns, from: None, where_clause: w },
                    }
                },
            }
        },
    }
}

/// The rewrite of the query `q`.
fn rewrite_query<N, A, L>(q: Query<N, A, L>) -> (r: Query<N, A, L>)
    ensures
        query_rewritten(q, r),
    decreases q,
{
    let Query { first, compounds } = q;
    Query { first: rewrite_core(first), compounds: rewrite_cores(compounds) }
}

/// Rewrites the set-returning function calls of the statement `s`.
pub fn rewrite_stmt<N, A, L>(s: SqlStmt<N, A, L>) -> (r: SqlStmt<N, A, L>)
    ensures
        stmt_rewritten(s, r),
{
    match s {
        SqlStmt::Select(q) => SqlStmt::Select(rewrite_query(q)),
        SqlStmt::Insert(Some(q)) => SqlStmt::Insert(Some(rewrite_query(q))),
        SqlStmt::Insert(None) => SqlStmt::Insert(None),
        SqlStmt::Update(w) => SqlStmt::Update(rewrite_opt_expr(w)),
        SqlStmt::Delete(w) => SqlStmt::Delete(rewrite_opt_expr(w)),
        SqlStmt::Other => SqlStmt::Other,
    }
}

proof fn lemma_core_fixed<N, A, L>(c: SelectCore<N, A, L>, r: SelectCore<N, A, L>)
    requires
        core_rewritten(c, r),
    ensures
        core_rewritten(r, r),
    decreases c,
{
    match c {
        SelectCore::Values => {},
        SelectCore::Select { columns, from, where_clause } => {
            let rf = r->from;
            lemma_opt_expr_fixed(where_clause, r->where_clause);
            match from {
                Some(f) => {
                    let g = rf->0;
                    lemma_from_fixed(f, g);
                },
                None => {
                    match tvf_target(columns@) {
                        Some(col) => {
                            let g = rf->0;
                            assert(sources_rewritten(g.joins@, g.joins@));
                        },
                        None => {},
                    }
                },
            }
        },
    }
}

proof fn lemma_cores_fixed<N, A, L>(s: Seq<SelectCore<N, A, L>>, t: Seq<SelectCore<N, A, L>>)
    requires
        cores_rewritten(s, t),
    ensures
        cores_rewritten(t, t),
    decreases s,
{
    assert forall|i: int| 0 <= i < t.len() implies core_rewritten(t[i], #[trigger] t[i]) by {
        lemma_core_fixed(s[i], t[i]);
    }
}

proof fn lemma_query_fixed<N, A, L>(q: Query<N, A, L>, r: Query<N, A, L>)
    requires
        query_rewritten(q, r),
    ensures
        query_rewritten(r, r),
    decreases q,
{
    lemma_core_fixed(q.first, r.first);
    lemma_cores_fixed(q.compounds@, r.compounds@);
}

proof fn lemma_from_fixed<N, A, L>(f: FromItems<N, A, L>, g: FromItems<N, A, L>)
    requires
        from_rewritten(f, g),
    ensures
        from_rewritten(g, g),
    decreases f,
{
    lemma_source_fixed(f.first, g.first);
    lemma_sources_fixed(f.joins@, g.joins@);
}

proof fn lemma_sources_fixed<N, A, L>(s: Seq<Source<N, A, L>>, t: Seq<Source<N, A, L>>)
    requires
        sources_rewritten(s, t),
    ensures
        sources_rewritten(t, t),
    decreases s,
{
    assert forall|i: int| 0 <= i < t.len() implies source_rewritten(t[i], #[trigger] t[i]) by {
        lemma_source_fixed(s[i], t[i]);
    }
}

proof fn lemma_source_fixed<N, A, L>(s: Source<N, A, L>, t: Source<N, A, L>)
    requires
        source_rewritten(s, t),
    ensures
        source_rewritten(t, t),
    decreases s,
{
    match s {
        Source::Query(q) => {
            let q2 = t->Query_0;
            lemma_query_fixed(*q, *q2);
        },
        Source::Nested(f) => {
            let g = t->Nested_0;
            lemma_from_fixed(*f, *g);
        },
        _ => {},
    }
}

proof fn lemma_opt_expr_fixed<N, A, L>(e: Option<Box<SqlExpr<N, A, L>>>, r: Option<Box<SqlExpr<N, A, L>>>)
    requires
        opt_expr_rewritten(e, r),
    ensures
        opt_expr_rewritten(r, r),
    decreases e,
{
    match e {
        Some(x) => {
            lemma_expr_fixed(*x, *r->0);
        },
        None => {},
    }
}

proof fn lemma_exprs_fixed<N, A, L>(s: Seq<SqlExpr<N, A, L>>, t: Seq<SqlExpr<N, A, L>>)
    requires
        exprs_rewritten(s, t),
    ensures
        exprs_rewritten(t, t),
    decreases s,
{
    assert forall|i: int| 0 <= i < t.len() implies expr_rewritten(t[i], #[trigger] t[i]) by {
        lemma_expr_fixed(s[i], t[i]);
    }
}

proof fn lemma_expr_fixed<N, A, L>(e: SqlExpr<N, A, L>, r: SqlExpr<N, A, L>)
    requires
        expr_rewritten(e, r),
    ensures
        expr_rewritten(r, r),
    decreases e,
{
    match e {
        SqlExpr::InSelect(l, q) => {
            let l2 = r->InSelect_0;
            let q2 = r->InSelect_1;
            lemma_expr_fixed(*l, *l2);
            lemma_query_fixed(*q, *q2);
        },
        SqlExpr::Subquery(q) => {
            let q2 = r->Subquery_0;
            lemma_query_fixed(*q, *q2);
        },
        SqlExpr::Exists(q) => {
            let q2 = r->Exists_0;
            lemma_query_fixed(*q, *q2);
        },
        SqlExpr::Binary(a, b) => {
            let a2 = r->Binary_0;
            let b2 = r->Binary_1;
            lemma_expr_fixed(*a, *a2);
            lemma_expr_fixed(*b, *b2);
        },
        SqlExpr::Wrapped(a) => {
            let a2 = r->Wrapped_0;
            lemma_expr_fixed(*a, *a2);
        },
        SqlExpr::Parenthesized(v) => {
            let v2 = r->Parenthesized_0;
            lemma_exprs_fixed(v@, v2@);
        },
        SqlExpr::InList(l, v) => {
            let l2 = r->InList_0;
            let v2 = r->InList_1;
            lemma_expr_fixed(*l, *l2);
            lemma_exprs_fixed(v@, v2@);
        },
        SqlExpr::Other => {},
    }
}

proof fn lemma_core_unique<N, A, L>(c: SelectCore<N, A, L>, a: SelectCore<N, A, L>, b: SelectCore<N, A, L>)
    requires
        core_rewritten(c, a),
        core_rewritten(c, b),
    ensures
        core_same(a, b),
    decreases c,
{
    match c {
        SelectCore::Values => {},
        SelectCore::Select { columns, from, where_clause } => {
            lemma_opt_expr_unique(where_clause, a->where_clause, b->where_clause);
            match from {
                Some(f) => {
                    lemma_from_unique(f, a->from->0, b->from->0);
                },
                None => {
                    match tvf_target(columns@) {
                        Some(col) => {
                            let ga = a->from->0;
                            let gb = b->from->0;
                            assert(sources_same(ga.joins@, gb.joins@));
                        },
                        None => {},
                    }
                },
            }
        },
    }
}

proof fn lemma_cores_unique<N, A, L>(s: Seq<SelectCore<N, A, L>>, a: Seq<SelectCore<N, A, L>>, b: Seq<SelectCore<N, A, L>>)
    requires
        cores_rewritten(s, a),
        cores_rewritten(s, b),
    ensures
        cores_same(a, b),
    decreases s,
{
    assert forall|i: int| 0 <= i < a.len() implies core_same(a[i], #[trigger] b[i]) by {
        lemma_core_unique(s[i], a[i], b[i]);
    }
}

proof fn lemma_query_unique<N, A, L>(q: Query<N, A, L>, a: Query<N, A, L>, b: Query<N, A, L>)
    requires
        query_rewritten(q, a),
        query_rewritten(q, b),
    ensures
        query_same(a, b),
    decreases q,
{
    lemma_core_unique(q.first, a.first, b.first);
    lemma_cores_unique(q.compounds@, a.compounds@, b.compounds@);
}

proof fn lemma_from_unique<N, A, L>(f: FromItems<N, A, L>, a: FromItems<N, A, L>, b: FromItems<N, A, L>)
    requires
        from_rewritten(f, a),
        from_rewritten(f, b),
    ensures
        from_same(a, b),
    decreases f,
{
    lemma_source_unique(f.first, a.first, b.first);
    lemma_sources_unique(f.joins@, a.joins@, b.joins@);
}

proof fn lemma_sources_unique<N, A, L>(s: Seq<Source<N, A, L>>, a: Seq<Source<N, A, L>>, b: Seq<Source<N, A, L>>)
    requires
        sources_rewritten(s, a),
        sources_rewritten(s, b),
    ensures
        sources_same(a, b),
    decreases s,
{
    assert forall|i: int| 0 <= i < a.len() implies source_same(a[i], #[trigger] b[i]) by {
        lemma_source_unique(s[i], a[i], b[i]);
    }
}

proof fn lemma_source_unique<N, A, L>(s: Source<N, A, L>, a: Source<N, A, L>, b: Source<N, A, L>)
    requires
        source_rewritten(s, a),
        source_rewritten(s, b),
    ensures
        source_same(a, b),
    decreases s,
{
    match s {
        Source::Query(q) => {
            lemma_query_unique(*q, *a->Query_0, *b->Query_0);
        },
        Source::Nested(f) => {
            lemma_from_unique(*f, *a->Nested_0, *b->Nested_0);
        },
        _ => {},
    }
}

proof fn lemma_opt_expr_unique<N, A, L>(
    e: Option<Box<SqlExpr<N, A, L>>>,
    a: Option<Box<SqlExpr<N, A, L>>>,
    b: Option<Box<SqlExpr<N, A, L>>>,
)
    requires
        opt_expr_rewritten(e, a),
        opt_expr_rewritten(e, b),
    ensures
        opt_expr_same(a, b),
    decreases e,
{
    match e {
        Some(x) => {
            lemma_expr_unique(*x, *a->0, *b->0);
        },
        None => {},
    }
}

proof fn lemma_exprs_unique<N, A, L>(s: Seq<SqlExpr<N, A, L>>, a: Seq<SqlExpr<N, A, L>>, b: Seq<SqlExpr<N, A, L>>)
    requires
        exprs_rewritten(s, a),
        exprs_rewritten(s, b),
    ensures
        exprs_same(a, b),
    decreases s,
{
    assert forall|i: int| 0 <= i < a.len() implies expr_same(a[i], #[trigger] b[i]) by {
        lemma_expr_unique(s[i], a[i], b[i]);
    }
}

proof fn lemma_expr_unique<N, A, L>(e: SqlExpr<N, A, L>, a: SqlExpr<N, A, L>, b: SqlExpr<N, A, L>)
    requires
        expr_rewritten(e, a),
        expr_rewritten(e, b),
    ensures
        expr_same(a, b),
    decreases e,
{
    match e {
        SqlExpr::InSelect(l, q) => {
            lemma_expr_unique(*l, *a->InSelect_0, *b->InSelect_0);
            lemma_query_unique(*q, *a->InSelect_1, *b->InSelect_1);
        },
        SqlExpr::Subquery(q) => {
            lemma_query_unique(*q, *a->Subquery_0, *b->Subquery_0);
        },
        SqlExpr::Exists(q) => {
            lemma_query_unique(*q, *a->Exists_0, *b->Exists_0);
        },
        SqlExpr::Binary(x, y) => {
            lemma_expr_unique(*x, *a->Binary_0, *b->Binary_0);
            lemma_expr_unique(*y, *a->Binary_1, *b->Binary_1);
        },
        SqlExpr::Wrapped(x) => {
            lemma_expr_unique(*x, *a->Wrapped_0, *b->Wrapped_0);
        },
        SqlExpr::Parenthesized(v) => {
            lemma_exprs_unique(v@, a->Parenthesized_0@, b->Parenthesized_0@);
        },
        SqlExpr::InList(l, v) => {
            lemma_expr_unique(*l, *a->InList_0, *b->InList_0);
            lemma_exprs_unique(v@, a->InList_1@, b->InList_1@);
        },
        SqlExpr::Other => {},
    }
}

/// The rewrite is a function of the statement: any two rewrites of one
/// statement are the same statement.
pub proof fn law_rewrite_deterministic<N, A, L>(s: SqlStmt<N, A, L>, a: SqlStmt<N, A, L>, b: SqlStmt<N, A, L>)
    requires
        stmt_rewritten(s, a),
        stmt_rewritten(s, b),
    ensures
        stmt_same(a, b),
{
    match s {
        SqlStmt::Select(q) => lemma_query_unique(q, a->Select_0, b->Select_0),
        SqlStmt::Insert(Some(q)) => lemma_query_unique(q, a->Insert_0->0, b->Insert_0->0),
        SqlStmt::Insert(None) => {},
        SqlStmt::Update(w) => lemma_opt_expr_unique(w, a->Update_0, b->Update_0),
        SqlStmt::Delete(w) => lemma_opt_expr_unique(w, a->Delete_0, b->Delete_0),
        SqlStmt::Other => {},
    }
}

/// The rewrite is idempotent: rewriting a rewritten statement again gives
/// the same statement back.
pub proof fn law_rewrite_idempotent<N, A, L>(s: SqlStmt<N, A, L>, r: SqlStmt<N, A, L>, again: SqlStmt<N, A, L>)
    requires
        stmt_rewritten(s, r),
        stmt_rewritten(r, again),
    ensures
        stmt_rewritten(r, r),
        stmt_same(r, again),
{
    match s {
        SqlStmt::Select(q) => lemma_query_fixed(q, r->Select_0),
        SqlStmt::Insert(Some(q)) => lemma_query_fixed(q, r->Insert_0->0),
        SqlStmt::Insert(None) => {},
        SqlStmt::Update(w) => lemma_opt_expr_fixed(w, r->Update_0),
        SqlStmt::Delete(w) => lemma_opt_expr_fixed(w, r->Delete_0),
        SqlStmt::Other => {},
    }
    law_rewrite_deterministic(r, r, again);
}

} // verus!
