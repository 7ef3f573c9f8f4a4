//! Context registry behaviour: sharing, conflicts, lifetime.

use threadshare::AcquireError;
use threadshare::ContextRegistry;

#[test]
fn acquire_twice_shares_one_thread() {
    let mut reg = ContextRegistry::new();
    let h1 = reg.acquire("x", 10).unwrap();
    let h2 = reg.acquire("x", 10).unwrap();
    assert_eq!(h1.id, h2.id);
    assert_eq!(reg.threads_started, 1);
    let conflicting = reg.acquire("x", 20);
    assert_eq!(conflicting, Err(AcquireError::IntervalConflict));
    assert_eq!(reg.threads_started, 1);
}

#[test]
fn empty_name_is_private_and_unshared() {
    let mut reg = ContextRegistry::new();
    let h1 = reg.acquire("", 0).unwrap();
    let h2 = reg.acquire("", 0).unwrap();
    assert_ne!(h1.id, h2.id);
    assert_eq!(reg.threads_started, 2);
}

#[test]
fn different_names_get_different_threads() {
    let mut reg = ContextRegistry::new();
    let h1 = reg.acquire("a", 5).unwrap();
    let h2 = reg.acquire("b", 5).unwrap();
    assert_ne!(h1.id, h2.id);
    assert_eq!(reg.threads_started, 2);
}

#[test]
fn context_destroyed_when_last_handle_released() {
    let mut reg = ContextRegistry::new();
    let h1 = reg.acquire("x", 10).unwrap();
    let h2 = reg.acquire("x", 10).unwrap();
    reg.release(h1);
    assert!(reg.is_live(h1.id));
    reg.release(h2);
    assert!(!reg.is_live(h2.id));
    // With the old context gone the name can be re-acquired with a new
    // interval; the new context is a different one.
    let h3 = reg.acquire("x", 20).unwrap();
    assert_ne!(h3.id, h1.id);
    assert_eq!(reg.threads_started, 2);
}

#[test]
fn releasing_dead_handle_changes_nothing() {
    let mut reg = ContextRegistry::new();
    let h = reg.acquire("x", 10).unwrap();
    reg.release(h);
    reg.release(h);
    assert!(!reg.is_live(h.id));
    assert_eq!(reg.threads_started, 1);
}

#[test]
fn handle_carries_wait_interval() {
    let mut reg = ContextRegistry::new();
    let h = reg.acquire("throttled", 1000).unwrap();
    assert_eq!(h.wait_interval, 1000);
}
