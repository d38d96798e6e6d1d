use redeploy::lock::LockRegistry;

#[test]
fn fresh_registry_has_nothing_locked() {
    let r = LockRegistry::new();
    assert!(!r.is_locked("svc"));
    assert!(!r.is_locked(""));
}

#[test]
fn acquire_makes_is_locked_true() {
    let mut r = LockRegistry::new();
    r.lock("svc");
    assert!(r.is_locked("svc"));
}

#[test]
fn locked_name_stays_locked_until_its_release() {
    let mut r = LockRegistry::new();
    r.lock("svc");
    // operations on other names do not release it
    r.lock("other");
    r.unlock("other");
    r.lock("svc");
    assert!(r.is_locked("svc"));
    r.unlock("svc");
    assert!(!r.is_locked("svc"));
}

#[test]
fn release_makes_is_locked_false() {
    let mut r = LockRegistry::new();
    r.lock("svc");
    r.unlock("svc");
    assert!(!r.is_locked("svc"));
}

#[test]
fn release_of_unheld_name_is_a_no_op_on_others() {
    let mut r = LockRegistry::new();
    r.lock("svc");
    r.unlock("absent");
    assert!(r.is_locked("svc"));
    assert!(!r.is_locked("absent"));
}

#[test]
fn names_are_independent() {
    let mut r = LockRegistry::new();
    r.lock("a");
    assert!(r.is_locked("a"));
    assert!(!r.is_locked("b"));
    r.lock("b");
    r.unlock("a");
    assert!(!r.is_locked("a"));
    assert!(r.is_locked("b"));
}
