use waker_slot::model::{Event, Slot};
use waker_slot::state::{
    decode, lock_val, register_lock_outcome, self_wake_needed, take_lock_outcome, to_mut, Key,
    RegisterLock, TakeLock, Word,
};

const A: u64 = 10;
const B: u64 = 20;

#[test]
fn register_then_take_twice() {
    let mut s = Slot::new();
    s.register(A);
    assert_eq!(s.take(), Some(A));
    assert_eq!(s.take(), None);
    assert!(s.events().is_empty());
}

#[test]
fn second_register_releases_first_once() {
    let mut s = Slot::new();
    s.register(A);
    s.register(B);
    assert_eq!(s.events(), vec![Event::Released(A)]);
    assert_eq!(s.take(), Some(B));
    assert_eq!(s.events(), vec![Event::Released(A)]);
}

#[test]
fn take_during_register_forces_self_wake() {
    let mut s = Slot::new();
    // the take locks and gives up between the register's lock and its publish
    let (taken, self_woken) = s.race_register_take(A, 1, 1);
    assert_eq!(taken, None);
    assert!(self_woken);
    assert_eq!(s.events(), vec![Event::Invoked(A)]);
    assert_eq!(s.stored(), None);
    // the slot is usable again afterwards
    s.register(B);
    assert_eq!(s.take(), Some(B));
}

#[test]
fn take_before_register_lets_register_store() {
    let mut s = Slot::new();
    let (taken, self_woken) = s.race_register_take(A, 0, 0);
    assert_eq!(taken, None);
    assert!(!self_woken);
    assert_eq!(s.stored(), Some(A));
    assert!(s.events().is_empty());
}

#[test]
fn take_after_register_gets_handle() {
    let mut s = Slot::new();
    s.register(B);
    let (taken, self_woken) = s.race_register_take(A, 2, 2);
    assert_eq!(taken, Some(A));
    assert!(!self_woken);
    assert_eq!(s.stored(), None);
    assert_eq!(s.events(), vec![Event::Released(B)]);
}

#[test]
fn register_during_held_take_lock_self_wakes() {
    let mut s = Slot::new();
    s.register(B);
    // the take holds its lock across the whole register
    let (taken, self_woken) = s.race_register_take(A, 0, 2);
    assert_eq!(taken, Some(B));
    assert!(self_woken);
    assert_eq!(s.stored(), None);
    assert_eq!(s.events(), vec![Event::Invoked(A)]);
}

#[test]
fn every_interleaving_keeps_the_handle_alive() {
    for lock_at in 0u8..3 {
        for unlock_at in lock_at..3 {
            let mut s = Slot::new();
            s.register(B);
            let (taken, self_woken) = s.race_register_take(A, lock_at, unlock_at);
            let invoked = s.events().last() == Some(&Event::Invoked(A));
            assert!(s.stored() == Some(A) || taken == Some(A) || (self_woken && invoked));
        }
    }
}

#[test]
fn take_on_empty_slot_is_repeatable() {
    let mut s = Slot::new();
    for _ in 0..3 {
        assert_eq!(s.take(), None);
        assert_eq!(s.stored(), None);
    }
    assert!(s.events().is_empty());
}

#[test]
fn wake_invokes_exactly_once() {
    let mut s = Slot::new();
    s.register(A);
    s.wake();
    s.wake();
    assert_eq!(s.events(), vec![Event::Invoked(A)]);
}

#[test]
fn register_then_wake_releases_superseded_and_invokes_new() {
    let mut s = Slot::new();
    s.register(A);
    s.register(B);
    s.wake();
    assert_eq!(s.events(), vec![Event::Released(A), Event::Invoked(B)]);
}

#[test]
fn many_registers_release_each_superseded_once() {
    let mut s = Slot::new();
    for h in 1u64..=5 {
        s.register(h);
    }
    assert_eq!(s.stored(), Some(5));
    assert_eq!(
        s.events(),
        vec![Event::Released(1), Event::Released(2), Event::Released(3), Event::Released(4)]
    );
}

#[test]
fn discard_releases_never_invokes() {
    let mut s = Slot::new();
    s.register(A);
    assert_eq!(s.discard(), vec![Event::Released(A)]);
}

#[test]
fn discard_of_empty_slot_records_nothing() {
    let s = Slot::new();
    assert!(s.discard().is_empty());
}

#[test]
fn words_round_trip() {
    for w in [Word::Empty, Word::Registering, Word::Taking, Word::Holding] {
        assert_eq!(decode(lock_val(w)), w);
    }
    assert_eq!(lock_val(Word::Empty), 0);
    assert_eq!(to_mut(Key::Registering), lock_val(Word::Registering));
    assert_eq!(to_mut(Key::Taking), lock_val(Word::Taking));
    assert_ne!(to_mut(Key::Registering), to_mut(Key::Taking));
    assert_eq!(decode(usize::MAX), Word::Holding);
}

#[test]
fn lock_decisions() {
    assert_eq!(register_lock_outcome(Word::Registering), RegisterLock::LostToRegister);
    assert_eq!(register_lock_outcome(Word::Taking), RegisterLock::LostToTaker);
    assert_eq!(register_lock_outcome(Word::Empty), RegisterLock::Acquired { superseded: false });
    assert_eq!(register_lock_outcome(Word::Holding), RegisterLock::Acquired { superseded: true });
    assert_eq!(take_lock_outcome(Word::Registering), TakeLock::Lost);
    assert_eq!(take_lock_outcome(Word::Taking), TakeLock::Lost);
    assert_eq!(take_lock_outcome(Word::Empty), TakeLock::Acquired { present: false });
    assert_eq!(take_lock_outcome(Word::Holding), TakeLock::Acquired { present: true });
}

#[test]
fn self_wake_decisions() {
    assert!(self_wake_needed(RegisterLock::LostToRegister, false));
    assert!(self_wake_needed(RegisterLock::LostToTaker, false));
    assert!(self_wake_needed(RegisterLock::Acquired { superseded: false }, false));
    assert!(!self_wake_needed(RegisterLock::Acquired { superseded: true }, true));
}

#[test]
fn second_register_losing_the_lock_invokes_itself() {
    let mut s = Slot::new();
    // the second register locks while the first holds the lock
    s.race_registers(A, B, 1, 1);
    assert_eq!(s.stored(), Some(A));
    assert_eq!(s.events(), vec![Event::Invoked(B)]);
}

#[test]
fn first_register_losing_the_lock_invokes_itself() {
    let mut s = Slot::new();
    s.register(3);
    // the second register locks first and publishes after the first lost
    s.race_registers(A, B, 0, 2);
    assert_eq!(s.stored(), Some(B));
    assert_eq!(s.events(), vec![Event::Released(3), Event::Invoked(A)]);
}

#[test]
fn sequential_registers_in_either_order() {
    let mut s = Slot::new();
    s.race_registers(A, B, 0, 0);
    assert_eq!(s.stored(), Some(A));
    assert_eq!(s.events(), vec![Event::Released(B)]);
    let mut t = Slot::new();
    t.race_registers(A, B, 2, 2);
    assert_eq!(t.stored(), Some(B));
    assert_eq!(t.events(), vec![Event::Released(A)]);
}

#[test]
fn concurrent_registers_store_exactly_one() {
    for lock_at in 0u8..3 {
        for publish_at in lock_at..3 {
            let mut s = Slot::new();
            s.race_registers(A, B, lock_at, publish_at);
            let ev = s.events();
            assert_eq!(ev.len(), 1);
            match s.stored() {
                Some(A) => assert!(ev[0] == Event::Released(B) || ev[0] == Event::Invoked(B)),
                Some(B) => assert!(ev[0] == Event::Released(A) || ev[0] == Event::Invoked(A)),
                other => panic!("unexpected stored handle {:?}", other),
            }
        }
    }
}
