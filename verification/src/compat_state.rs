//! Per-connection compatibility state that lives beside the engine's
//! connection: the embedder's relation-size hook, kept in a registry keyed
//! by the connection's identity.
use vstd::prelude::*;
use std::collections::HashMap;

verus! {

broadcast use vstd::std_specs::hash::group_hash_axioms;

/// Frontend-only state for one connection: an optional hook, supplied by
/// the embedder, that reports the backing store's on-disk byte size.
pub struct CompatState<H> {
    relation_size_fn: Option<H>,
}

impl<H: Fn() -> i64> CompatState<H> {
    /// The registered hook, if any.
    pub closed spec fn hook(&self) -> Option<H> {
        self.relation_size_fn
    }

    /// A state with no hook.
    pub fn new() -> (s: Self)
        ensures
            s == fresh_state::<H>(),
            s.hook() is None,
    {
        CompatState { relation_size_fn: None }
    }

    /// The registered hook, if any, accepts a call.
    pub open spec fn hook_callable(&self) -> bool {
        match self.hook() {
            Some(f) => call_requires(f, ()),
            None => true,
        }
    }

    /// `size` is a relation size this state can report: one that a call of
    /// the registered hook may return, or 0 when there is no hook.
    pub open spec fn reports(&self, size: i64) -> bool {
        match self.hook() {
            Some(f) => call_ensures(f, (), size),
            None => size == 0,
        }
    }

    /// The backing store's on-disk byte size as the hook reports it, or 0
    /// when no hook is registered.
    pub fn relation_size(&self) -> (size: i64)
        requires
            self.hook_callable(),
        ensures
            self.reports(size),
    {
        match &self.relation_size_fn {
            Some(f) => f(),
            None => 0,
        }
    }

    /// Registers the relation-size hook, replacing any earlier one.
    pub fn set_relation_size_fn(&mut self, f: H)
        ensures
            final(self).hook() == Some(f),
    {
        self.relation_size_fn = Some(f);
    }
}

/// The states of all live connections, each under its connection's key.
pub struct CompatRegistry<H> {
    states: HashMap<usize, CompatState<H>>,
}

/// A state with no hook, as a connection starts with.
pub closed spec fn fresh_state<H>() -> CompatState<H> {
    CompatState { relation_size_fn: None }
}

/// The states after making sure that `key` has one: an existing state is
/// kept as it is, a missing one is created fresh.
pub open spec fn with_state_for<H>(
    states: Map<usize, CompatState<H>>,
    key: usize,
) -> Map<usize, CompatState<H>> {
    if states.contains_key(key) {
        states
    } else {
        states.insert(key, fresh_state())
    }
}

impl<H: Fn() -> i64> CompatRegistry<H> {
    /// The states, by key.
    pub closed spec fn states(&self) -> Map<usize, CompatState<H>> {
        self.states@
    }

    /// A registry with no state.
    pub fn new() -> (r: Self)
        ensures
            r.states() == Map::<usize, CompatState<H>>::empty(),
    {
        CompatRegistry { states: HashMap::new() }
    }

    /// Makes sure there is a state for `key`, creating a fresh one (without
    /// a hook) when there is none; an existing state is kept as it is.
    pub fn compat_state(&mut self, key: usize)
        ensures
            final(self).states() == with_state_for(old(self).states(), key),
    {
        if !self.states.contains_key(&key) {
            self.states.insert(key, CompatState::new());
        }
    }

    /// Registers the relation-size hook for `key`, creating its state first
    /// when there is none.
    pub fn set_relation_size_fn(&mut self, key: usize, f: H)
        ensures
            final(self).states().contains_key(key),
            final(self).states()[key].hook() == Some(f),
            forall|k: usize|
                k != key ==> #[trigger] final(self).states().contains_key(k) == old(self).states().contains_key(k),
            forall|k: usize|
                k != key && old(self).states().contains_key(k) ==> #[trigger] final(self).states()[k] == old(self).states()[k],
    {
        let mut state = match self.states.remove(&key) {
            Some(s) => s,
            None => CompatState::new(),
        };
        state.set_relation_size_fn(f);
        self.states.insert(key, state);
    }

    /// The relation size that the state of `key` reports: 0 when there is
    /// no state or it has no hook.
    pub fn relation_size(&self, key: usize) -> (size: i64)
        requires
            self.states().contains_key(key) ==> self.states()[key].hook_callable(),
        ensures
            !self.states().contains_key(key) ==> size == 0,
            self.states().contains_key(key) ==> self.states()[key].reports(size),
    {
        match self.states.get(&key) {
            Some(s) => s.relation_size(),
            None => 0,
        }
    }

    /// Removes the state of `key`; other keys keep theirs.
    pub fn drop_compat_state(&mut self, key: usize)
        ensures
            final(self).states() == old(self).states().remove(key),
    {
        self.states.remove(&key);
    }
}

/// A key whose state was dropped starts afresh: the next lookup of the
/// key creates a state without a hook, so a reused key never inherits an
/// earlier hook, whatever state the key had before.
pub proof fn law_dropped_key_starts_fresh<H: Fn() -> i64>(
    before: Map<usize, CompatState<H>>,
    key: usize,
)
    ensures
        with_state_for(before.remove(key), key)[key] == fresh_state::<H>(),
        fresh_state::<H>().hook() is None,
{
}

/// Making sure that a key has a state changes no other key's state.
pub proof fn law_state_lookup_keeps_other_keys<H: Fn() -> i64>(
    before: Map<usize, CompatState<H>>,
    key: usize,
    other: usize,
)
    requires
        other != key,
    ensures
        with_state_for(before, key).contains_key(other) == before.contains_key(other),
        before.contains_key(other) ==> with_state_for(before, key)[other] == before[other],
{
}

} // verus!
