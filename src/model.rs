use vstd::prelude::*;
use crate::laws::law_concurrent_registers;
use crate::state::{acquires, register_lock_outcome, register_lock_spec, self_wake_needed, take_lock_outcome, RegisterLock, TakeLock, Word};

verus! {

/// What the slot does to a handle, named by the handle's identity.
#[derive(Clone, Copy, Debug, PartialEq, Eq, Structural)]
pub enum Event {
    /// One reference to the handle was dropped without signalling.
    Released(u64),
    /// The handle was signalled (one reference consumed).
    Invoked(u64),
}

/// The mathematical state of a slot: its state word, the handle it owns (if
/// any) and every release and invocation it has performed so far.
pub ghost struct SlotView {
    pub word: Word,
    pub payload: Option<u64>,
    pub log: Seq<Event>,
}

impl SlotView {
    /// A slot at rest: no lock is held, and a handle is owned exactly when the
    /// word says one is stored.
    pub open spec fn at_rest(self) -> bool {
        &&& acquires(self.word)
        &&& (self.payload is Some <==> self.word == Word::Holding)
    }

    /// The events of dropping whatever the slot owns.
    pub open spec fn released_payload(self) -> Seq<Event> {
        match self.payload {
            Some(p) => seq![Event::Released(p)],
            None => Seq::empty(),
        }
    }

    /// First atomic step of `register`: swap in the write lock; a winner
    /// releases the superseded handle.
    pub open spec fn register_lock(self) -> SlotView {
        if self.word == Word::Holding {
            SlotView {
                word: Word::Registering,
                payload: None,
                log: self.log + self.released_payload(),
            }
        } else {
            SlotView { word: Word::Registering, payload: self.payload, log: self.log }
        }
    }

    /// Second atomic step of a winning `register`: publish `h` if the lock is
    /// still ours, else unlock to empty and invoke `h`.
    pub open spec fn register_publish(self, h: u64) -> SlotView {
        if self.word == Word::Registering {
            SlotView { word: Word::Holding, payload: Some(h), log: self.log }
        } else {
            SlotView { word: Word::Empty, payload: self.payload, log: self.log.push(Event::Invoked(h)) }
        }
    }

    /// The first atomic step of `register(h)` with what follows it at once
    /// when the lock is lost: the handle is invoked.
    pub open spec fn register_begin(self, h: u64) -> SlotView {
        if acquires(self.word) {
            self.register_lock()
        } else {
            self.register_lock().register_lost(h)
        }
    }

    /// A losing `register` invokes its own handle.
    pub open spec fn register_lost(self, h: u64) -> SlotView {
        SlotView { word: self.word, payload: self.payload, log: self.log.push(Event::Invoked(h)) }
    }

    /// First atomic step of `take`: swap in the read lock; a winner removes
    /// the stored handle.
    pub open spec fn take_lock(self) -> SlotView {
        if acquires(self.word) {
            SlotView { word: Word::Taking, payload: None, log: self.log }
        } else {
            SlotView { word: Word::Taking, payload: self.payload, log: self.log }
        }
    }

    /// What the first step of `take` hands out.
    pub open spec fn taken(self) -> Option<u64> {
        if acquires(self.word) {
            self.payload
        } else {
            None
        }
    }

    /// Second atomic step of a winning `take`: unlock to empty.
    pub open spec fn take_unlock(self) -> SlotView {
        SlotView { word: Word::Empty, payload: self.payload, log: self.log }
    }

    /// A whole `register(h)` that runs alone.
    pub open spec fn register(self, h: u64) -> SlotView {
        if acquires(self.word) {
            self.register_lock().register_publish(h)
        } else {
            self.register_lock().register_lost(h)
        }
    }

    /// A whole `take` that runs alone.
    pub open spec fn take(self) -> SlotView {
        if acquires(self.word) {
            self.take_lock().take_unlock()
        } else {
            self.take_lock()
        }
    }

    /// A whole `wake` that runs alone: `take`, then invoke what was taken.
    pub open spec fn wake(self) -> SlotView {
        let t = self.take();
        match self.taken() {
            Some(p) => SlotView { word: t.word, payload: t.payload, log: t.log.push(Event::Invoked(p)) },
            None => t,
        }
    }

    /// The complete record of a slot that is destroyed now.
    pub open spec fn discard(self) -> Seq<Event> {
        self.log + self.released_payload()
    }

    /// `register` of each handle of `hs` in turn, with nothing in between.
    pub open spec fn register_all(self, hs: Seq<u64>) -> SlotView
        decreases hs.len(),
    {
        if hs.len() == 0 {
            self
        } else {
            self.register_all(hs.drop_last()).register(hs.last())
        }
    }

    /// `register(h2)` with its lock at moment `lock_at` and its publish at
    /// moment `publish_at` of a concurrent `register(h1)`, moments counted
    /// as for `race_register_take`.
    pub open spec fn race_registers(self, h1: u64, h2: u64, lock_at: int, publish_at: int) -> SlotView {
        // moment 0
        let won0 = lock_at == 0 && acquires(self.word);
        let s0 = if lock_at == 0 { self.register_begin(h2) } else { self };
        let s0 = if publish_at == 0 && won0 { s0.register_publish(h2) } else { s0 };
        // first register's lock
        let won = acquires(s0.word);
        let s1 = s0.register_begin(h1);
        // moment 1
        let won1 = lock_at == 1 && acquires(s1.word);
        let s1 = if lock_at == 1 { s1.register_begin(h2) } else { s1 };
        let s1 = if publish_at == 1 && (won0 || won1) { s1.register_publish(h2) } else { s1 };
        // first register's publish
        let s2 = if won { s1.register_publish(h1) } else { s1 };
        // moment 2
        let won2 = lock_at == 2 && acquires(s2.word);
        let s2 = if lock_at == 2 { s2.register_begin(h2) } else { s2 };
        if publish_at == 2 && (won0 || won1 || won2) { s2.register_publish(h2) } else { s2 }
    }

    /// `take` at the moment `lock_at` and unlock at the moment `unlock_at` of
    /// a concurrent `register(h)`, each moment counted in the register's own
    /// atomic steps done: 0 before its lock, 1 between lock and publish, 2
    /// after it returned.
    pub open spec fn race_register_take(self, h: u64, lock_at: int, unlock_at: int) -> (SlotView, Option<u64>) {
        let acq = acquires(self.word);
        // moment 0
        let s0 = if lock_at == 0 { self.take_lock() } else { self };
        let got0 = if lock_at == 0 { self.taken() } else { None };
        let tacq0 = lock_at == 0 && acq;
        let s0 = if unlock_at == 0 && tacq0 { s0.take_unlock() } else { s0 };
        // register's lock
        let racq = acquires(s0.word);
        let s1 = if racq { s0.register_lock() } else { s0.register_lock().register_lost(h) };
        // moment 1
        let tacq1 = lock_at == 1 && acquires(s1.word);
        let got1 = if lock_at == 1 { s1.taken() } else { got0 };
        let s1 = if lock_at == 1 { s1.take_lock() } else { s1 };
        let s1 = if unlock_at == 1 && (tacq0 || tacq1) { s1.take_unlock() } else { s1 };
        // register's publish
        let s2 = if racq { s1.register_publish(h) } else { s1 };
        // moment 2
        let tacq2 = lock_at == 2 && acquires(s2.word);
        let got2 = if lock_at == 2 { s2.taken() } else { got1 };
        let s2 = if lock_at == 2 { s2.take_lock() } else { s2 };
        let s2 = if unlock_at == 2 && (tacq0 || tacq1 || tacq2) { s2.take_unlock() } else { s2 };
        (s2, got2)
    }
}

/// An executable model of the slot over handle identities. Each of its
/// operations performs the slot's atomic steps in order and records every
/// release and invocation, so that the protocol can be run and inspected
/// deterministically, races included.
pub struct Slot {
    word: Word,
    payload: Option<u64>,
    log: Vec<Event>,
}

impl View for Slot {
    type V = SlotView;

    closed spec fn view(&self) -> SlotView {
        SlotView { word: self.word, payload: self.payload, log: self.log@ }
    }
}

impl Slot {
    /// The slot is always at rest between its public operations.
    pub closed spec fn wf(&self) -> bool {
        self@.at_rest()
    }

    pub fn new() -> (r: Slot)
        ensures
            r.wf(),
            r@.word == Word::Empty,
            r@.payload is None,
            r@.log == Seq::<Event>::empty(),
    {
        Slot { word: Word::Empty, payload: None, log: Vec::new() }
    }

    fn step_register_lock(&mut self) -> (r: RegisterLock)
        ensures
            r == register_lock_spec(old(self)@.word),
            final(self)@ == old(self)@.register_lock(),
    {
        let r = register_lock_outcome(self.word);
        if let RegisterLock::Acquired { superseded: true } = r {
            if let Some(p) = self.payload {
                self.log.push(Event::Released(p));
            }
            self.payload = None;
            proof {
                assert(self.log@ =~= old(self)@.log + old(self)@.released_payload());
            }
        }
        self.word = Word::Registering;
        r
    }

    fn step_register_begin(&mut self, h: u64) -> (won: bool)
        ensures
            won == acquires(old(self)@.word),
            final(self)@ == old(self)@.register_begin(h),
    {
        let lock = self.step_register_lock();
        match lock {
            RegisterLock::Acquired { .. } => true,
            _ => {
                self.log.push(Event::Invoked(h));
                false
            },
        }
    }

    fn step_register_publish(&mut self, h: u64) -> (published: bool)
        ensures
            published == (old(self)@.word == Word::Registering),
            final(self)@ == old(self)@.register_publish(h),
    {
        if self.word == Word::Registering {
            self.word = Word::Holding;
            self.payload = Some(h);
            true
        } else {
            self.word = Word::Empty;
            self.log.push(Event::Invoked(h));
            false
        }
    }

    fn step_take_lock(&mut self) -> (r: (bool, Option<u64>))
        ensures
            r.0 == acquires(old(self)@.word),
            r.1 == old(self)@.taken(),
            final(self)@ == old(self)@.take_lock(),
    {
        let lock = take_lock_outcome(self.word);
        self.word = Word::Taking;
        match lock {
            TakeLock::Acquired { .. } => {
                let got = self.payload;
                self.payload = None;
                (true, got)
            },
            TakeLock::Lost => (false, None),
        }
    }

    fn step_take_unlock(&mut self)
        ensures
            final(self)@ == old(self)@.take_unlock(),
    {
        self.word = Word::Empty;
    }

    /// Stores `h` as the interesting handle. A handle stored before is
    /// released exactly once; nothing is invoked.
    pub fn register(&mut self, h: u64)
        requires
            old(self).wf(),
        ensures
            final(self).wf(),
            final(self)@ == old(self)@.register(h),
            final(self)@.word == Word::Holding,
            final(self)@.payload == Some(h),
            final(self)@.log == old(self)@.log + old(self)@.released_payload(),
    {
        let lock = self.step_register_lock();
        if let RegisterLock::Acquired { .. } = lock {
            self.step_register_publish(h);
        }
    }

    /// Removes and returns the stored handle, if any.
    pub fn take(&mut self) -> (r: Option<u64>)
        requires
            old(self).wf(),
        ensures
            final(self).wf(),
            final(self)@ == old(self)@.take(),
            r == old(self)@.payload,
            final(self)@.word == Word::Empty,
            final(self)@.payload is None,
            final(self)@.log == old(self)@.log,
    {
        let (acquired, got) = self.step_take_lock();
        if acquired {
            self.step_take_unlock();
        }
        got
    }

    /// Takes the stored handle, if any, and invokes it once.
    pub fn wake(&mut self)
        requires
            old(self).wf(),
        ensures
            final(self).wf(),
            final(self)@ == old(self)@.wake(),
            final(self)@.word == Word::Empty,
            final(self)@.payload is None,
            final(self)@.log == match old(self)@.payload {
                Some(p) => old(self)@.log.push(Event::Invoked(p)),
                None => old(self)@.log,
            },
    {
        if let Some(p) = self.take() {
            self.log.push(Event::Invoked(p));
        }
    }

    /// Runs one `register(h)` against one concurrent `take`. The take's lock
    /// happens at moment `lock_at` and its unlock at moment `unlock_at` of the
    /// register, counted in the register's atomic steps done (0: before its
    /// lock; 1: between its lock and its publish; 2: after it returned).
    /// Returns what the take obtained and whether the register invoked `h`
    /// itself.
    pub fn race_register_take(&mut self, h: u64, lock_at: u8, unlock_at: u8) -> (r: (Option<u64>, bool))
        requires
            old(self).wf(),
            lock_at <= unlock_at <= 2,
        ensures
            final(self).wf(),
            (final(self)@, r.0) == old(self)@.race_register_take(h, lock_at as int, unlock_at as int),
            final(self)@.payload == Some(h) || r.0 == Some(h) || r.1,
            r.1 ==> final(self)@.log.len() > 0 && final(self)@.log.last() == Event::Invoked(h),
    {
        let mut taker_holds = false;
        let mut got: Option<u64> = None;
        let mut self_woken = false;
        if lock_at == 0 {
            let (a, g) = self.step_take_lock();
            taker_holds = a;
            got = g;
        }
        if unlock_at == 0 && taker_holds {
            self.step_take_unlock();
        }
        let lock = self.step_register_lock();
        if !matches!(lock, RegisterLock::Acquired { .. }) {
            self.log.push(Event::Invoked(h));
            self_woken = true;
        }
        if lock_at == 1 {
            let (a, g) = self.step_take_lock();
            taker_holds = a;
            got = g;
        }
        if unlock_at == 1 && taker_holds {
            self.step_take_unlock();
        }
        if let RegisterLock::Acquired { .. } = lock {
            let published = self.step_register_publish(h);
            self_woken = self_wake_needed(lock, published);
        }
        if lock_at == 2 {
            let (a, g) = self.step_take_lock();
            taker_holds = a;
            got = g;
        }
        if unlock_at == 2 && taker_holds {
            self.step_take_unlock();
        }
        (got, self_woken)
    }

    /// Runs `register(h1)` against a concurrent `register(h2)`, whose lock
    /// happens at moment `lock_at` and whose publish at moment `publish_at`
    /// of the first, moments counted as for `race_register_take`.
    pub fn race_registers(&mut self, h1: u64, h2: u64, lock_at: u8, publish_at: u8)
        requires
            old(self).wf(),
            lock_at <= publish_at <= 2,
        ensures
            final(self).wf(),
            final(self)@ == old(self)@.race_registers(h1, h2, lock_at as int, publish_at as int),
            ({
                let base = old(self)@.log + old(self)@.released_payload();
                let t = final(self)@;
                ||| t.payload == Some(h1) && (t.log == base.push(Event::Released(h2)) || t.log
                    == base.push(Event::Invoked(h2)))
                ||| t.payload == Some(h2) && (t.log == base.push(Event::Released(h1)) || t.log
                    == base.push(Event::Invoked(h1)))
            }),
    {
        let mut second_won = false;
        if lock_at == 0 {
            second_won = self.step_register_begin(h2);
        }
        if publish_at == 0 && second_won {
            self.step_register_publish(h2);
        }
        let first_won = self.step_register_begin(h1);
        if lock_at == 1 {
            second_won = self.step_register_begin(h2);
        }
        if publish_at == 1 && second_won {
            self.step_register_publish(h2);
        }
        if first_won {
            self.step_register_publish(h1);
        }
        if lock_at == 2 {
            second_won = self.step_register_begin(h2);
        }
        if publish_at == 2 && second_won {
            self.step_register_publish(h2);
        }
        proof {
            law_concurrent_registers(old(self)@, h1, h2, lock_at as int, publish_at as int);
        }
    }

    /// The handle that the slot owns, if any.
    pub fn stored(&self) -> (r: Option<u64>)
        ensures
            r == self@.payload,
    {
        self.payload
    }

    /// Every release and invocation so far, in order.
    pub fn events(&self) -> (r: Vec<Event>)
        ensures
            r@ == self@.log,
    {
        self.log.clone()
    }

    /// Destroys the slot: whatever it still owns is released, never invoked.
    /// Returns the complete record of events.
    pub fn discard(self) -> (r: Vec<Event>)
        requires
            self.wf(),
        ensures
            r@ == self@.discard(),
            r@ == self@.log + self@.released_payload(),
    {
        let mut s = self;
        let mut log = s.log.clone();
        if let Some(p) = s.take() {
            log.push(Event::Released(p));
        }
        proof {
            assert(log@ =~= self@.log + self@.released_payload());
        }
        log
    }
}

} // verus!
