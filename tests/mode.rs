use guile::mode::{Entry, ThreadMode};

#[test]
fn fresh_thread_enters_under_bootstrap_lock() {
    let mode = ThreadMode::new();
    assert!(!mode.is_active());
    assert!(!mode.is_bootstrapped());
    assert_eq!(mode.entry(), Entry::Enter { serialize: true });
}

#[test]
fn entry_marks_thread_bootstrapped_and_active() {
    let mut mode = ThreadMode::new();
    mode.enter();
    assert!(mode.is_active());
    assert!(mode.is_bootstrapped());
}

#[test]
fn reentry_is_served_directly() {
    let mut mode = ThreadMode::new();
    mode.enter();
    assert_eq!(mode.entry(), Entry::Reenter);
    assert!(mode.is_active());
    assert!(mode.is_bootstrapped());
}

#[test]
fn blocking_restores_active_mode() {
    let mut mode = ThreadMode::new();
    mode.enter();
    mode.suspend();
    assert!(!mode.is_active());
    assert!(mode.is_bootstrapped());
    mode.resume();
    assert!(mode.is_active());
    assert!(mode.is_bootstrapped());
    assert_eq!(mode.entry(), Entry::Reenter);
}

#[test]
fn request_during_blocking_enters_without_lock() {
    let mut mode = ThreadMode::new();
    mode.enter();
    mode.suspend();
    assert_eq!(mode.entry(), Entry::Enter { serialize: false });
}

#[test]
fn later_entries_skip_bootstrap_lock() {
    let mut mode = ThreadMode::new();
    mode.enter();
    mode.leave();
    assert!(!mode.is_active());
    assert!(mode.is_bootstrapped());
    assert_eq!(mode.entry(), Entry::Enter { serialize: false });
    mode.enter();
    mode.leave();
    assert_eq!(mode.entry(), Entry::Enter { serialize: false });
}

#[test]
fn threads_keep_separate_records() {
    let mut first = ThreadMode::new();
    let second = ThreadMode::new();
    first.enter();
    assert_eq!(first.entry(), Entry::Reenter);
    assert_eq!(second.entry(), Entry::Enter { serialize: true });
}
