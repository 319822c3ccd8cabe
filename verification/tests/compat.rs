use turso_pg::compat_state::{CompatRegistry, CompatState};

type Hook = Box<dyn Fn() -> i64 + Send + Sync>;

#[test]
fn compat_state_without_hook_reports_zero() {
    let s: CompatState<Hook> = CompatState::new();
    assert_eq!(s.relation_size(), 0);
}

#[test]
fn compat_state_uses_injected_hook() {
    let mut s: CompatState<Hook> = CompatState::new();
    s.set_relation_size_fn(Box::new(|| 4096));
    assert_eq!(s.relation_size(), 4096);
    s.set_relation_size_fn(Box::new(|| 8192));
    assert_eq!(s.relation_size(), 8192);
}

#[test]
fn compat_registry_keeps_states_apart() {
    let mut r: CompatRegistry<Hook> = CompatRegistry::new();
    r.compat_state(1);
    r.compat_state(2);
    r.set_relation_size_fn(1, Box::new(|| 4096));
    assert_eq!(r.relation_size(1), 4096);
    assert_eq!(r.relation_size(2), 0);
    assert_eq!(r.relation_size(3), 0);
}

#[test]
fn compat_registry_dropped_key_starts_fresh() {
    let mut r: CompatRegistry<Hook> = CompatRegistry::new();
    r.set_relation_size_fn(7, Box::new(|| 4096));
    r.drop_compat_state(7);
    assert_eq!(r.relation_size(7), 0);
    r.compat_state(7);
    assert_eq!(r.relation_size(7), 0);
}

#[test]
fn compat_registry_lookup_keeps_existing_hook() {
    let mut r: CompatRegistry<Hook> = CompatRegistry::new();
    r.set_relation_size_fn(5, Box::new(|| 12));
    r.compat_state(5);
    assert_eq!(r.relation_size(5), 12);
}
