//! Per-session state of the frontend: the schema search path set by
//! `SET search_path`, and the statements named by `PREPARE`.
use vstd::prelude::*;
use crate::error::{PgError, PgErrorView, text_result_view};
use crate::text::{concat3, owned, texts};

verus! {

/// What a session holds: the search path and the prepared statements,
/// each name mapped to its query text.
pub struct SessionView {
    pub search_path: Seq<Seq<char>>,
    pub prepared: Map<Seq<char>, Seq<char>>,
}

/// The message of the error for a prepared statement called `name` that
/// does not exist.
pub open spec fn missing_prepared_message(name: Seq<char>) -> Seq<char> {
    "prepared statement \""@ + name + "\" does not exist"@
}

impl SessionView {
    /// A fresh session: empty search path, no prepared statements.
    pub open spec fn empty() -> SessionView {
        SessionView { search_path: Seq::empty(), prepared: Map::empty() }
    }

    /// The session after `SET search_path` to `path`.
    pub open spec fn with_search_path(self, path: Seq<Seq<char>>) -> SessionView {
        SessionView { search_path: path, ..self }
    }

    /// The session after `PREPARE name AS query`: the name now stands for
    /// the query, replacing what it stood for before.
    pub open spec fn prepare(self, name: Seq<char>, query: Seq<char>) -> SessionView {
        SessionView { prepared: self.prepared.insert(name, query), ..self }
    }

    /// The session after `DEALLOCATE name`, or `DEALLOCATE ALL` for `None`.
    pub open spec fn deallocate(self, name: Option<Seq<char>>) -> SessionView {
        match name {
            Some(n) => SessionView { prepared: self.prepared.remove(n), ..self },
            None => SessionView { prepared: Map::empty(), ..self },
        }
    }

    /// What looking up the prepared statement `name` gives: its query, or
    /// the error that it does not exist.
    pub open spec fn lookup(self, name: Seq<char>) -> Result<Seq<char>, PgErrorView> {
        if self.prepared.contains_key(name) {
            Ok(self.prepared[name])
        } else {
            Err(PgErrorView::ParseError(missing_prepared_message(name)))
        }
    }

    /// The search path handed to the engine when a statement is prepared:
    /// none when it is empty.
    pub open spec fn search_path_option(self) -> Option<Seq<Seq<char>>> {
        if self.search_path.len() == 0 {
            None
        } else {
            Some(self.search_path)
        }
    }
}

/// Whether no two entries of `s` share a name.
pub open spec fn unique_names(s: Seq<(String, String)>) -> bool {
    forall|i: int, j: int|
        0 <= i < s.len() && 0 <= j < s.len() && i != j ==> (#[trigger] s[i]).0@ != (
        #[trigger] s[j]).0@
}

/// The map from name to query that the entries `s` stand for.
pub open spec fn entries_map(s: Seq<(String, String)>) -> Map<Seq<char>, Seq<char>>
    decreases s.len(),
{
    if s.len() == 0 {
        Map::empty()
    } else {
        entries_map(s.drop_last()).insert(s.last().0@, s.last().1@)
    }
}

proof fn lemma_entries_map_has(s: Seq<(String, String)>, i: int)
    requires
        unique_names(s),
        0 <= i < s.len(),
    ensures
        entries_map(s).contains_key(s[i].0@),
        entries_map(s)[s[i].0@] == s[i].1@,
    decreases s.len(),
{
    let t = s.drop_last();
    if i < s.len() - 1 {
        assert(t[i] == s[i]);
        assert(unique_names(t)) by {
            assert forall|a: int, b: int|
                0 <= a < t.len() && 0 <= b < t.len() && a != b implies (#[trigger] t[a]).0@ != (
                #[trigger] t[b]).0@ by {
                assert(t[a] == s[a] && t[b] == s[b]);
            }
        }
        lemma_entries_map_has(t, i);
        assert(s.last() == s[s.len() - 1]);
    }
}

proof fn lemma_entries_map_lacks(s: Seq<(String, String)>, k: Seq<char>)
    requires
        forall|i: int| 0 <= i < s.len() ==> (#[trigger] s[i]).0@ != k,
    ensures
        !entries_map(s).contains_key(k),
    decreases s.len(),
{
    if s.len() > 0 {
        let t = s.drop_last();
        assert forall|i: int| 0 <= i < t.len() implies (#[trigger] t[i]).0@ != k by {
            assert(t[i] == s[i]);
        }
        lemma_entries_map_lacks(t, k);
        assert(s.last() == s[s.len() - 1]);
    }
}

proof fn lemma_entries_map_key(s: Seq<(String, String)>, k: Seq<char>) -> (i: int)
    requires
        entries_map(s).contains_key(k),
    ensures
        0 <= i < s.len(),
        s[i].0@ == k,
{
    if forall|i: int| 0 <= i < s.len() ==> (#[trigger] s[i]).0@ != k {
        lemma_entries_map_lacks(s, k);
    }
    choose|i: int| 0 <= i < s.len() && (#[trigger] s[i]).0@ == k
}

/// The state of one session.
pub struct SessionState {
    search_path: Vec<String>,
    prepared: Vec<(String, String)>,
}

impl View for SessionState {
    type V = SessionView;

    closed spec fn view(&self) -> SessionView {
        SessionView { search_path: texts(self.search_path@), prepared: entries_map(self.prepared@) }
    }
}

impl SessionState {
    /// Whether the state is well formed: no two prepared statements share a name.
    pub closed spec fn wf(&self) -> bool {
        unique_names(self.prepared@)
    }

    /// A fresh session.
    pub fn new() -> (s: SessionState)
        ensures
            s.wf(),
            s@ == SessionView::empty(),
    {
        let s = SessionState { search_path: Vec::new(), prepared: Vec::new() };
        assert(texts(s.search_path@) == Seq::<Seq<char>>::empty());
        s
    }

    /// Sets the search path (`SET search_path TO ...`).
    pub fn set_search_path(&mut self, path: Vec<String>)
        requires
            old(self).wf(),
        ensures
            final(self).wf(),
            final(self)@ == old(self)@.with_search_path(texts(path@)),
    {
        self.search_path = path;
    }

    /// The search path to hand to the engine: `None` when it is empty.
    pub fn search_path_option(&self) -> (r: Option<Vec<String>>)
        ensures
            match r {
                Some(p) => self@.search_path_option() == Some(texts(p@)),
                None => self@.search_path_option() is None,
            },
    {
        if self.search_path.len() == 0 {
            None
        } else {
            let mut p: Vec<String> = Vec::new();
            for i in 0..self.search_path.len()
                invariant
                    p@ == self.search_path@.take(i as int),
            {
                p.push(self.search_path[i].clone());
                assert(self.search_path@.take(i + 1) == self.search_path@.take(i as int).push(
                    self.search_path@[i as int],
                ));
            }
            assert(self.search_path@.take(self.search_path.len() as int) == self.search_path@);
            Some(p)
        }
    }

    /// The index of the prepared statement called `name`, if there is one.
    fn find(&self, name: &String) -> (r: Option<usize>)
        ensures
            match r {
                Some(i) => i < self.prepared.len() && self.prepared@[i as int].0@ == name@,
                None => forall|i: int|
                    0 <= i < self.prepared.len() ==> (#[trigger] self.prepared@[i]).0@ != name@,
            },
    {
        for i in 0..self.prepared.len()
            invariant
                forall|j: int|
                    0 <= j < i ==> (#[trigger] self.prepared@[j]).0@ != name@,
        {
            if self.prepared[i].0 == *name {
                return Some(i);
            }
        }
        None
    }

    /// Records `PREPARE name AS query`.
    pub fn prepare(&mut self, name: String, query: String)
        requires
            old(self).wf(),
        ensures
            final(self).wf(),
            final(self)@ == old(self)@.prepare(name@, query@),
    {
        let ghost old_entries = self.prepared@;
        let ghost (n, q) = (name@, query@);
        match self.find(&name) {
            Some(i) => {
                self.prepared.set(i, (name, query));
                let ghost s = self.prepared@;
                assert(unique_names(s)) by {
                    assert forall|a: int, b: int|
                        0 <= a < s.len() && 0 <= b < s.len() && a != b implies (
                        #[trigger] s[a]).0@ != (#[trigger] s[b]).0@ by {
                        assert(old_entries[a].0@ != old_entries[b].0@);
                    }
                }
                assert(entries_map(s) =~= entries_map(old_entries).insert(n, q)) by {
                    assert forall|k: Seq<char>|
                        #[trigger] entries_map(s).contains_key(k) implies entries_map(
                        old_entries,
                    ).insert(n, q).contains_key(k) by {
                        let j = lemma_entries_map_key(s, k);
                        if j != i {
                            lemma_entries_map_has(old_entries, j);
                        }
                    }
                    assert forall|k: Seq<char>|
                        #[trigger] entries_map(old_entries).insert(n, q).contains_key(
                            k,
                        ) implies entries_map(s).contains_key(k) && entries_map(s)[k]
                        == entries_map(old_entries).insert(n, q)[k] by {
                        if k == n {
                            lemma_entries_map_has(s, i as int);
                        } else {
                            let j = lemma_entries_map_key(old_entries, k);
                            lemma_entries_map_has(old_entries, j);
                            lemma_entries_map_has(s, j);
                        }
                    }
                }
            },
            None => {
                self.prepared.push((name, query));
                let ghost s = self.prepared@;
                assert(s.drop_last() == old_entries);
                assert(unique_names(s)) by {
                    assert forall|a: int, b: int|
                        0 <= a < s.len() && 0 <= b < s.len() && a != b implies (
                        #[trigger] s[a]).0@ != (#[trigger] s[b]).0@ by {
                        if a < old_entries.len() && b < old_entries.len() {
                            assert(old_entries[a].0@ != old_entries[b].0@);
                        } else if a < old_entries.len() {
                            assert(old_entries[a].0@ != n);
                        } else {
                            assert(old_entries[b].0@ != n);
                        }
                    }
                }
            },
        }
    }

    /// Looks up the query of the prepared statement called `name`.
    pub fn lookup_prepared(&self, name: &str) -> (r: Result<String, PgError>)
        requires
            self.wf(),
        ensures
            text_result_view(r) == self@.lookup(name@),
    {
        let key = owned(name);
        match self.find(&key) {
            Some(i) => {
                proof {
                    lemma_entries_map_has(self.prepared@, i as int);
                }
                Ok(self.prepared[i].1.clone())
            },
            None => {
                proof {
                    lemma_entries_map_lacks(self.prepared@, name@);
                }
                Err(
                    PgError::ParseError(
                        concat3("prepared statement \"", name, "\" does not exist"),
                    ),
                )
            },
        }
    }

    /// Records `DEALLOCATE name`, or `DEALLOCATE ALL` when `name` is `None`.
    pub fn deallocate(&mut self, name: Option<&str>)
        requires
            old(self).wf(),
        ensures
            final(self).wf(),
            final(self)@ == old(self)@.deallocate(
                match name {
                    Some(n) => Some(n@),
                    None => None,
                },
            ),
    {
        let ghost old_entries = self.prepared@;
        match name {
            None => {
                self.prepared = Vec::new();
                assert(entries_map(self.prepared@) =~= Map::<Seq<char>, Seq<char>>::empty());
            },
            Some(n) => {
                let key = owned(n);
                match self.find(&key) {
                    Some(i) => {
                        self.prepared.remove(i);
                        let ghost s = self.prepared@;
                        assert(s == old_entries.remove(i as int));
                        assert(unique_names(s)) by {
                            assert forall|a: int, b: int|
                                0 <= a < s.len() && 0 <= b < s.len() && a != b implies (
                                #[trigger] s[a]).0@ != (#[trigger] s[b]).0@ by {
                                let a2 = if a < i { a } else { a + 1 };
                                let b2 = if b < i { b } else { b + 1 };
                                assert(s[a] == old_entries[a2] && s[b] == old_entries[b2]);
                                assert(old_entries[a2].0@ != old_entries[b2].0@);
                            }
                        }
                        assert(entries_map(s) =~= entries_map(old_entries).remove(n@)) by {
                            assert forall|k: Seq<char>|
                                #[trigger] entries_map(s).contains_key(k) implies entries_map(
                                    old_entries,
                                ).remove(n@).contains_key(k) by {
                                let j = lemma_entries_map_key(s, k);
                                let j2 = if j < i { j } else { j + 1 };
                                assert(s[j] == old_entries[j2]);
                                assert(old_entries[j2].0@ != old_entries[i as int].0@);
                                lemma_entries_map_has(old_entries, j2);
                            }
                            assert forall|k: Seq<char>|
                                #[trigger] entries_map(old_entries).remove(n@).contains_key(
                                    k,
                                ) implies entries_map(s).contains_key(k) && entries_map(s)[k]
                                == entries_map(old_entries).remove(n@)[k] by {
                                let j2 = lemma_entries_map_key(old_entries, k);
                                assert(j2 != i);
                                let j = if j2 < i { j2 } else { j2 - 1 };
                                assert(s[j] == old_entries[j2]);
                                lemma_entries_map_has(old_entries, j2);
                                lemma_entries_map_has(s, j);
                            }
                        }
                    },
                    None => {
                        proof {
                            lemma_entries_map_lacks(old_entries, n@);
                        }
                        assert(entries_map(old_entries) =~= entries_map(old_entries).remove(n@));
                    },
                }
            },
        }
    }
}

/// A statement prepared under a name is found under that name, with the
/// query it was last prepared with.
pub proof fn law_lookup_after_prepare(s: SessionView, name: Seq<char>, query: Seq<char>)
    ensures
        s.prepare(name, query).lookup(name) == Ok::<Seq<char>, PgErrorView>(query),
{
}

/// Preparing a statement under one name leaves what every other name
/// looks up unchanged.
pub proof fn law_prepare_keeps_other_names(
    s: SessionView,
    name: Seq<char>,
    query: Seq<char>,
    other: Seq<char>,
)
    requires
        other != name,
    ensures
        s.prepare(name, query).lookup(other) == s.lookup(other),
{
}

/// Once a name is deallocated, looking it up fails with the error that the
/// prepared statement does not exist.
pub proof fn law_lookup_after_deallocate(s: SessionView, name: Seq<char>)
    ensures
        s.deallocate(Some(name)).lookup(name) == Err::<Seq<char>, PgErrorView>(
            PgErrorView::ParseError(missing_prepared_message(name)),
        ),
{
}

/// Deallocating one name leaves what every other name looks up unchanged.
pub proof fn law_deallocate_keeps_other_names(s: SessionView, name: Seq<char>, other: Seq<char>)
    requires
        other != name,
    ensures
        s.deallocate(Some(name)).lookup(other) == s.lookup(other),
{
}

/// After `DEALLOCATE ALL` no name can be looked up.
pub proof fn law_deallocate_all_forgets_every_name(s: SessionView, name: Seq<char>)
    ensures
        s.deallocate(None).lookup(name) == Err::<Seq<char>, PgErrorView>(
            PgErrorView::ParseError(missing_prepared_message(name)),
        ),
{
}

/// The search path and the prepared statements are independent: setting
/// the one leaves the other as it was.
pub proof fn law_search_path_and_statements_independent(
    s: SessionView,
    path: Seq<Seq<char>>,
    name: Seq<char>,
    query: Seq<char>,
)
    ensures
        s.with_search_path(path).lookup(name) == s.lookup(name),
        s.prepare(name, query).search_path == s.search_path,
        s.deallocate(Some(name)).search_path == s.search_path,
        s.deallocate(None).search_path == s.search_path,
{
}

/// The search path handed to the engine is the one last set, or none when
/// that one is empty.
pub proof fn law_search_path_option_after_set(s: SessionView, path: Seq<Seq<char>>)
    ensures
        s.with_search_path(path).search_path_option() == (if path.len() == 0 {
            None
        } else {
            Some(path)
        }),
{
}

} // verus!
