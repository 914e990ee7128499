use vstd::prelude::*;

verus! {

/// The four classes of value that the slot's state word can take.
#[derive(Clone, Copy, Debug, PartialEq, Eq, Structural)]
pub enum Word {
    /// No handle is stored.
    Empty,
    /// A `register` holds the write lock.
    Registering,
    /// A `take` holds the read lock.
    Taking,
    /// A handle is stored.
    Holding,
}

/// Encoding of `Word::Empty` in the atomic state word.
pub const EMPTY: usize = 0;

/// Encoding of `Word::Registering` in the atomic state word.
pub const REGISTERING: usize = 1;

/// Encoding of `Word::Taking` in the atomic state word.
pub const TAKING: usize = 2;

/// Encoding of `Word::Holding` in the atomic state word.
pub const HOLDING: usize = 3;

/// The machine value that stands for a word.
pub open spec fn value_of(w: Word) -> usize {
    match w {
        Word::Empty => EMPTY,
        Word::Registering => REGISTERING,
        Word::Taking => TAKING,
        Word::Holding => HOLDING,
    }
}

/// The word that a machine value stands for; every value above the lock
/// sentinels denotes a stored handle.
pub open spec fn word_of(v: usize) -> Word {
    if v == EMPTY {
        Word::Empty
    } else if v == REGISTERING {
        Word::Registering
    } else if v == TAKING {
        Word::Taking
    } else {
        Word::Holding
    }
}

/// The value that the state word holds to denote `w`.
pub fn lock_val(w: Word) -> (v: usize)
    ensures
        v == value_of(w),
        word_of(v) == w,
{
    match w {
        Word::Empty => EMPTY,
        Word::Registering => REGISTERING,
        Word::Taking => TAKING,
        Word::Holding => HOLDING,
    }
}

pub fn decode(v: usize) -> (w: Word)
    ensures
        w == word_of(v),
{
    if v == EMPTY {
        Word::Empty
    } else if v == REGISTERING {
        Word::Registering
    } else if v == TAKING {
        Word::Taking
    } else {
        Word::Holding
    }
}

/// The two lock sentinels.
#[derive(Clone, Copy, Debug, PartialEq, Eq, Structural)]
pub enum Key {
    Registering,
    Taking,
}

/// The word that a lock sentinel denotes.
pub open spec fn key_word(k: Key) -> Word {
    match k {
        Key::Registering => Word::Registering,
        Key::Taking => Word::Taking,
    }
}

/// The value that the state word holds while the lock `k` is held.
pub fn to_mut(k: Key) -> (v: usize)
    ensures
        v == value_of(key_word(k)),
        word_of(v) == key_word(k),
        !acquires(word_of(v)),
{
    match k {
        Key::Registering => lock_val(Word::Registering),
        Key::Taking => lock_val(Word::Taking),
    }
}

/// Decoding undoes encoding.
pub proof fn lemma_word_round_trip(w: Word)
    ensures
        word_of(value_of(w)) == w,
{
}

/// What a `register` learns from its locking swap.
#[derive(Clone, Copy, Debug, PartialEq, Eq, Structural)]
pub enum RegisterLock {
    /// Another `register` holds the lock: nothing is stored by this call.
    LostToRegister,
    /// A `take` holds the lock: nothing is stored by this call.
    LostToTaker,
    /// The lock is acquired; `superseded` tells whether a stored handle must
    /// be released.
    Acquired { superseded: bool },
}

/// What a `take` learns from its locking swap.
#[derive(Clone, Copy, Debug, PartialEq, Eq, Structural)]
pub enum TakeLock {
    /// Another operation holds the lock: this call returns nothing.
    Lost,
    /// The lock is acquired; `present` tells whether a handle is stored.
    Acquired { present: bool },
}

/// Whether an operation that swaps a lock sentinel in over `old` acquires
/// the lock: only a slot at rest can be locked.
pub open spec fn acquires(old: Word) -> bool {
    old == Word::Empty || old == Word::Holding
}

pub open spec fn register_lock_spec(old: Word) -> RegisterLock {
    if old == Word::Registering {
        RegisterLock::LostToRegister
    } else if old == Word::Taking {
        RegisterLock::LostToTaker
    } else {
        RegisterLock::Acquired { superseded: old == Word::Holding }
    }
}

pub open spec fn take_lock_spec(old: Word) -> TakeLock {
    if acquires(old) {
        TakeLock::Acquired { present: old == Word::Holding }
    } else {
        TakeLock::Lost
    }
}

/// Decides the outcome of a `register` from the word its locking swap
/// replaced.
pub fn register_lock_outcome(old: Word) -> (r: RegisterLock)
    ensures
        r == register_lock_spec(old),
        (r is Acquired) <==> acquires(old),
{
    match old {
        Word::Registering => RegisterLock::LostToRegister,
        Word::Taking => RegisterLock::LostToTaker,
        Word::Empty => RegisterLock::Acquired { superseded: false },
        Word::Holding => RegisterLock::Acquired { superseded: true },
    }
}

/// Decides the outcome of a `take` from the word its locking swap replaced.
pub fn take_lock_outcome(old: Word) -> (r: TakeLock)
    ensures
        r == take_lock_spec(old),
        (r is Acquired) <==> acquires(old),
{
    match old {
        Word::Empty => TakeLock::Acquired { present: false },
        Word::Holding => TakeLock::Acquired { present: true },
        _ => TakeLock::Lost,
    }
}

/// Whether a `register` must invoke the caller's handle itself: when it lost
/// the lock, or when a taker arrived before it could publish. In every other
/// case the handle was published.
pub open spec fn must_self_wake(lock: RegisterLock, published: bool) -> bool {
    !(lock is Acquired) || !published
}

pub fn self_wake_needed(lock: RegisterLock, published: bool) -> (r: bool)
    ensures
        r == must_self_wake(lock, published),
{
    match lock {
        RegisterLock::Acquired { .. } => !published,
        _ => true,
    }
}

} // verus!
