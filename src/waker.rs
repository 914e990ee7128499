use vstd::prelude::*;
use crate::state::{
    decode, lock_val, register_lock_outcome, register_lock_spec, self_wake_needed,
    take_lock_outcome, take_lock_spec, to_mut, Key, RegisterLock, TakeLock, Word,
};
use core::sync::atomic::Ordering;
use core::task::Waker;
use portable_atomic::AtomicUsize;
use std::sync::Mutex;

verus! {

#[verifier::external_type_specification]
#[verifier::external_body]
pub struct ExAtomicUsize(portable_atomic::AtomicUsize);

#[verifier::external_type_specification]
#[verifier::external_body]
pub struct ExWaker(core::task::Waker);

#[verifier::external_type_specification]
#[verifier::external_body]
#[verifier::reject_recursive_types(T)]
pub struct ExMutex<T: ?Sized>(std::sync::Mutex<T>);

/// portable_atomic's `AtomicUsize::new`: a fresh atomic word.
pub assume_specification[ portable_atomic::AtomicUsize::new ](v: usize) -> portable_atomic::AtomicUsize;

/// portable_atomic's `AtomicUsize::swap`: stores `val` and returns the value it
/// replaced; under concurrency nothing more is known of that value.
pub assume_specification[ portable_atomic::AtomicUsize::swap ](
    atomic: &portable_atomic::AtomicUsize,
    val: usize,
    order: core::sync::atomic::Ordering,
) -> usize;

/// portable_atomic's `AtomicUsize::compare_exchange`; it panics on a failure
/// ordering of `Release` or `AcqRel`.
pub assume_specification[ portable_atomic::AtomicUsize::compare_exchange ](
    atomic: &portable_atomic::AtomicUsize,
    current: usize,
    new: usize,
    success: core::sync::atomic::Ordering,
    failure: core::sync::atomic::Ordering,
) -> (r: Result<usize, usize>)
    requires
        failure != core::sync::atomic::Ordering::Release,
        failure != core::sync::atomic::Ordering::AcqRel,
    ensures
        r matches Ok(v) ==> v == current,
        r matches Err(v) ==> v != current,
;

/// portable_atomic's `AtomicUsize::store`; it panics on an ordering of
/// `Acquire` or `AcqRel`.
pub assume_specification[ portable_atomic::AtomicUsize::store ](
    atomic: &portable_atomic::AtomicUsize,
    val: usize,
    order: core::sync::atomic::Ordering,
)
    requires
        order != core::sync::atomic::Ordering::Acquire,
        order != core::sync::atomic::Ordering::AcqRel,
;

/// `Waker::wake_by_ref`: signals the waker's task without consuming it.
pub assume_specification[ core::task::Waker::wake_by_ref ](w: &core::task::Waker);

/// `Waker::wake`: signals the waker's task, consuming the waker.
pub assume_specification[ core::task::Waker::wake ](w: core::task::Waker);

/// `Waker`'s `Clone`: another reference to the same task.
pub assume_specification[ <core::task::Waker as core::clone::Clone>::clone ](
    w: &core::task::Waker,
) -> core::task::Waker;

/// `Mutex::new`: a cell that holds `v`.
pub assume_specification<T>[ std::sync::Mutex::<T>::new ](v: T) -> std::sync::Mutex<T>;

/// Relies on `std::sync::Mutex::lock` to reach the payload cell, whose content
/// is exchanged for `v` (`core::mem::replace` on the guarded value). The slot's own lock protocol gives the caller
/// exclusive use of the cell, so the mutex is never contended and no code
/// panics while holding it.
#[verifier::external_body]
fn exchange(cell: &Mutex<Option<Waker>>, v: Option<Waker>) -> Option<Waker> {
    match cell.lock() {
        Ok(mut guard) => core::mem::replace(&mut *guard, v),
        Err(poisoned) => core::mem::replace(&mut *poisoned.into_inner(), v),
    }
}

/// A lock-free slot for one waker. `register` stores a waker, replacing and
/// releasing the previous one; `take` and `wake` retrieve it, at most once.
///
/// `state` is the lock word (`EMPTY`, `REGISTERING`, `TAKING` or `HOLDING`);
/// `payload` is touched only by the thread whose swap acquired the lock. The
/// decisions each operation takes after an atomic step are the verified
/// functions of `state`, which `model::Slot` shares. The model mirrors the
/// atomic steps taken here and `laws` proves the protocol on the model; that
/// the steps here match the model's is checked by reading, not by Verus.
#[derive(Debug)]
pub struct AtomicWaker {
    state: AtomicUsize,
    payload: Mutex<Option<Waker>>,
}

impl Default for AtomicWaker {
    fn default() -> (r: AtomicWaker) {
        AtomicWaker::new()
    }
}

impl AtomicWaker {
    /// An empty slot.
    pub fn new() -> (r: AtomicWaker) {
        AtomicWaker { state: AtomicUsize::new(lock_val(Word::Empty)), payload: Mutex::new(None) }
    }

    /// Swaps in the write lock and decides from the word it replaced, which
    /// is returned with the decision; a winner releases the superseded waker.
    fn begin_register(&self) -> (r: (Word, RegisterLock))
        ensures
            r.1 == register_lock_spec(r.0),
    {
        let old = decode(self.state.swap(to_mut(Key::Registering), Ordering::AcqRel));
        let lock = register_lock_outcome(old);
        if let RegisterLock::Acquired { superseded: true } = lock {
            // the superseded waker is released here, never woken
            let _ = exchange(&self.payload, None);
        }
        (old, lock)
    }

    /// Publishes a clone of `waker` and releases the write lock in one step,
    /// provided the word still holds that lock; returns the word observed and
    /// whether the waker was published. When a taker arrived meanwhile the
    /// lock is released to empty and the clone dropped, and the caller must
    /// wake.
    fn end_register(&self, waker: &Waker) -> (r: (Word, bool))
        ensures
            r.1 == (r.0 == Word::Registering),
    {
        let _ = exchange(&self.payload, Some(waker.clone()));
        match self.state.compare_exchange(
            to_mut(Key::Registering),
            lock_val(Word::Holding),
            Ordering::AcqRel,
            Ordering::Acquire,
        ) {
            Ok(v) => (decode(v), true),
            Err(v) => {
                let _ = exchange(&self.payload, None);
                self.state.swap(lock_val(Word::Empty), Ordering::Release);
                (decode(v), false)
            },
        }
    }

    /// Records `waker` as the one to wake. Unless it is stored durably for a
    /// later `take` or `wake`, it is woken before this returns.
    pub fn register(&self, waker: &Waker) {
        let (_, lock) = self.begin_register();
        let published = match lock {
            RegisterLock::Acquired { .. } => self.end_register(waker).1,
            _ => false,
        };
        if self_wake_needed(lock, published) {
            waker.wake_by_ref();
        }
    }

    /// Removes and returns the stored waker; `None` when none is stored or
    /// another operation holds the lock.
    pub fn take(&self) -> (r: Option<Waker>) {
        let (_, lock) = self.begin_take();
        self.finish_take(lock)
    }

    /// What follows the locking swap of `take`. A loser neither reads the
    /// payload nor unlocks, and returns nothing; a winner removes whatever is
    /// stored, unlocks to empty and returns what it removed, which is nothing
    /// when the word said that no waker was stored.
    fn finish_take(&self, lock: TakeLock) -> (r: Option<Waker>)
        ensures
            lock == TakeLock::Lost ==> r is None,
            lock == (TakeLock::Acquired { present: false }) ==> r is None,
    {
        match lock {
            TakeLock::Lost => None,
            TakeLock::Acquired { present } => {
                let r = if present {
                    exchange(&self.payload, None)
                } else {
                    None
                };
                self.state.store(lock_val(Word::Empty), Ordering::Release);
                r
            },
        }
    }

    /// Swaps in the read lock and decides from the word it replaced.
    fn begin_take(&self) -> (r: (Word, TakeLock))
        ensures
            r.1 == take_lock_spec(r.0),
    {
        let old = decode(self.state.swap(to_mut(Key::Taking), Ordering::AcqRel));
        (old, take_lock_outcome(old))
    }

    /// Takes the stored waker, if any, and wakes it once.
    pub fn wake(&self) {
        if let Some(w) = self.take() {
            w.wake();
        }
    }
}

} // verus!
