use guile::dynwind::Dynwind;
use std::cell::Cell;

struct CountOnDrop<'a>(&'a Cell<u32>);

impl Drop for CountOnDrop<'_> {
    fn drop(&mut self) {
        self.0.set(self.0.get() + 1);
    }
}

#[test]
fn unwind_hands_out_newest_first() {
    let mut guard = Dynwind::new();
    guard.protect(1u32);
    guard.protect(2);
    guard.protect(3);
    assert_eq!(guard.len(), 3);
    assert_eq!(guard.unwind(), vec![3, 2, 1]);
    assert_eq!(guard.len(), 0);
}

#[test]
fn empty_guard_unwinds_nothing() {
    let mut guard: Dynwind<u32> = Dynwind::new();
    assert_eq!(guard.unwind(), Vec::<u32>::new());
}

#[test]
fn records_run_at_most_once() {
    let mut guard = Dynwind::new();
    guard.protect('a');
    assert_eq!(guard.unwind(), vec!['a']);
    assert_eq!(guard.unwind(), Vec::<char>::new());
}

#[test]
fn nested_guards_unwind_innermost_first() {
    let mut outer = Dynwind::new();
    outer.protect(1u8);
    outer.protect(2);
    let mut inner = Dynwind::new();
    inner.protect(3);
    let mut order = inner.unwind();
    order.extend(outer.unwind());
    assert_eq!(order, vec![3, 2, 1]);
}

#[test]
fn unwound_resource_is_destroyed_once() {
    let counter = Cell::new(0u32);
    let mut guard = Dynwind::new();
    guard.protect(CountOnDrop(&counter));
    assert_eq!(counter.get(), 0);
    for cleanup in guard.unwind() {
        drop(cleanup);
    }
    drop(guard);
    assert_eq!(counter.get(), 1);
}
