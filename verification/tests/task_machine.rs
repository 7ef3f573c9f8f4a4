//! Task state machine transitions.

use threadshare::ContextHandle;
use threadshare::PrepareError;
use threadshare::Task;
use threadshare::TaskState;

fn handle() -> ContextHandle {
    ContextHandle { id: 7, wait_interval: 0 }
}

#[test]
fn prepare_start_pause_stop_lifecycle() {
    let mut t = Task::new();
    assert_eq!(t.lock_state(), TaskState::Stopped);
    assert!(t.prepare(handle()).is_ok());
    assert_eq!(t.lock_state(), TaskState::Prepared);
    assert!(t.start().is_ok());
    assert_eq!(t.lock_state(), TaskState::Started);
    assert!(t.pause().is_ok());
    assert_eq!(t.lock_state(), TaskState::Paused);
    assert!(t.start().is_ok());
    assert_eq!(t.lock_state(), TaskState::Started);
    t.stop();
    assert_eq!(t.lock_state(), TaskState::Stopped);
}

#[test]
fn double_prepare_fails() {
    let mut t = Task::new();
    assert!(t.prepare(handle()).is_ok());
    assert_eq!(t.prepare(handle()), Err(PrepareError::AlreadyPrepared));
    assert_eq!(t.lock_state(), TaskState::Prepared);
}

#[test]
fn start_before_prepare_fails() {
    let mut t = Task::new();
    assert!(t.start().is_err());
    assert_eq!(t.lock_state(), TaskState::Stopped);
}

#[test]
fn stop_keeps_binding_so_start_works_again() {
    let mut t = Task::new();
    assert!(t.prepare(handle()).is_ok());
    assert!(t.start().is_ok());
    t.stop();
    assert_eq!(t.lock_state(), TaskState::Stopped);
    assert!(t.start().is_ok());
    assert_eq!(t.lock_state(), TaskState::Started);
}

#[test]
fn stop_is_idempotent_and_clears_flushing() {
    let mut t = Task::new();
    assert!(t.prepare(handle()).is_ok());
    assert!(t.start().is_ok());
    assert!(t.flush_start().is_ok());
    assert!(t.flushing);
    t.stop();
    assert!(!t.flushing);
    t.stop();
    assert_eq!(t.lock_state(), TaskState::Stopped);
}

#[test]
fn pause_from_stopped_fails() {
    let mut t = Task::new();
    assert!(t.prepare(handle()).is_ok());
    assert!(t.pause().is_err());
}

#[test]
fn flush_toggles_only_when_bound() {
    let mut t = Task::new();
    assert!(t.flush_start().is_err());
    assert!(t.flush_stop().is_err());
    assert!(t.prepare(handle()).is_ok());
    assert!(t.flush_start().is_ok());
    assert!(t.flushing);
    assert!(t.flush_stop().is_ok());
    assert!(!t.flushing);
}

#[test]
fn unprepare_drops_binding() {
    let mut t = Task::new();
    assert!(t.prepare(handle()).is_ok());
    assert!(t.start().is_ok());
    t.unprepare();
    assert_eq!(t.lock_state(), TaskState::Stopped);
    assert!(t.context.is_none());
    assert!(t.start().is_err());
    assert!(t.prepare(handle()).is_ok());
}
