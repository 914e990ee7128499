use std::sync::atomic::{AtomicUsize, Ordering};
use std::sync::Arc;
use std::task::{Wake, Waker};
use waker_slot::waker::AtomicWaker;

struct Task {
    wakes: AtomicUsize,
}

impl Wake for Task {
    fn wake(self: Arc<Self>) {
        self.wakes.fetch_add(1, Ordering::SeqCst);
    }

    fn wake_by_ref(self: &Arc<Self>) {
        self.wakes.fetch_add(1, Ordering::SeqCst);
    }
}

fn task() -> (Arc<Task>, Waker) {
    let t = Arc::new(Task { wakes: AtomicUsize::new(0) });
    let w = Waker::from(t.clone());
    (t, w)
}

fn wakes(t: &Arc<Task>) -> usize {
    t.wakes.load(Ordering::SeqCst)
}

#[test]
fn waker_register_then_take_twice() {
    let slot = AtomicWaker::new();
    let (ta, a) = task();
    slot.register(&a);
    let got = slot.take().expect("a waker is stored");
    assert!(got.will_wake(&a));
    assert!(slot.take().is_none());
    assert_eq!(wakes(&ta), 0);
}

#[test]
fn waker_second_register_releases_first() {
    let slot = AtomicWaker::new();
    let (ta, a) = task();
    let (tb, b) = task();
    slot.register(&a);
    assert_eq!(Arc::strong_count(&ta), 3);
    slot.register(&b);
    assert_eq!(Arc::strong_count(&ta), 2);
    assert_eq!(Arc::strong_count(&tb), 3);
    let got = slot.take().expect("a waker is stored");
    assert!(got.will_wake(&b));
    assert_eq!(wakes(&ta), 0);
    assert_eq!(wakes(&tb), 0);
}

#[test]
fn waker_wake_invokes_once() {
    let slot = AtomicWaker::new();
    let (ta, a) = task();
    slot.register(&a);
    slot.wake();
    slot.wake();
    assert_eq!(wakes(&ta), 1);
    assert_eq!(Arc::strong_count(&ta), 2);
}

#[test]
fn waker_take_on_empty_is_repeatable() {
    let slot = AtomicWaker::new();
    assert!(slot.take().is_none());
    assert!(slot.take().is_none());
    slot.wake();
    let (ta, a) = task();
    slot.register(&a);
    assert!(slot.take().is_some());
    assert_eq!(wakes(&ta), 0);
}

#[test]
fn waker_drop_releases_without_waking() {
    let (ta, a) = task();
    {
        let slot = AtomicWaker::new();
        slot.register(&a);
        assert_eq!(Arc::strong_count(&ta), 3);
    }
    assert_eq!(Arc::strong_count(&ta), 2);
    assert_eq!(wakes(&ta), 0);
}

#[test]
fn waker_registering_same_waker_again_keeps_one_reference() {
    let slot = AtomicWaker::new();
    let (ta, a) = task();
    slot.register(&a);
    slot.register(&a);
    assert_eq!(Arc::strong_count(&ta), 3);
    slot.wake();
    assert_eq!(wakes(&ta), 1);
    assert_eq!(Arc::strong_count(&ta), 2);
}

#[test]
fn waker_default_is_empty() {
    let slot = AtomicWaker::default();
    assert!(slot.take().is_none());
}
