use vstd::prelude::*;
use crate::model::{Event, SlotView};
use crate::state::Word;

verus! {

/// Registering the handles `hs` one after another leaves exactly one handle
/// owned, the last one, and releases every superseded handle exactly once, in
/// the order in which they were superseded; nothing is invoked.
pub proof fn law_single_owner(s: SlotView, hs: Seq<u64>)
    requires
        s.at_rest(),
        hs.len() > 0,
    ensures
        s.register_all(hs).at_rest(),
        s.register_all(hs).payload == Some(hs.last()),
        s.register_all(hs).log == s.log + s.released_payload() + hs.drop_last().map_values(
            |h: u64| Event::Released(h),
        ),
    decreases hs.len(),
{
    let init = hs.drop_last();
    if init.len() == 0 {
        assert(init.map_values(|h: u64| Event::Released(h)) =~= Seq::<Event>::empty());
        assert(s.register_all(init) == s);
        assert(s.log + s.released_payload() + Seq::<Event>::empty() =~= s.log + s.released_payload());
    } else {
        law_single_owner(s, init);
        let mid = s.register_all(init);
        assert(init.drop_last().push(init.last()) =~= init);
        assert(init.map_values(|h: u64| Event::Released(h)) =~= init.drop_last().map_values(
            |h: u64| Event::Released(h),
        ).push(Event::Released(init.last())));
        assert(mid.released_payload() =~= seq![Event::Released(init.last())]);
        assert(s.register_all(hs).log =~= s.log + s.released_payload() + init.map_values(
            |h: u64| Event::Released(h),
        ));
    }
}

/// Two concurrent `register` calls, in every interleaving, leave exactly one
/// of their handles stored. The handle stored before is released once, and
/// the other handle sees exactly one event: it is released when superseded,
/// or invoked when its register lost the lock.
pub proof fn law_concurrent_registers(s: SlotView, h1: u64, h2: u64, lock_at: int, publish_at: int)
    requires
        s.at_rest(),
        0 <= lock_at <= publish_at <= 2,
    ensures
        ({
            let t = s.race_registers(h1, h2, lock_at, publish_at);
            let base = s.log + s.released_payload();
            &&& t.at_rest()
            &&& {
                ||| t.payload == Some(h1) && (t.log == base.push(Event::Released(h2)) || t.log
                    == base.push(Event::Invoked(h2)))
                ||| t.payload == Some(h2) && (t.log == base.push(Event::Released(h1)) || t.log
                    == base.push(Event::Invoked(h1)))
            }
        }),
{
    let t = s.race_registers(h1, h2, lock_at, publish_at);
    let base = s.log + s.released_payload();
    if lock_at == 2 {
        assert(t.log =~= base.push(Event::Released(h1)));
    } else if lock_at == 1 {
        assert(t.log =~= base.push(Event::Invoked(h2)));
    } else if publish_at == 0 {
        assert(t.log =~= base.push(Event::Released(h2)));
    } else {
        assert(t.log =~= base.push(Event::Invoked(h1)));
    }
}

/// Against one concurrent `take`, in every interleaving, `register(h)` either
/// leaves `h` stored, or hands it to that `take`, or invokes `h` itself
/// before it returns; and the slot is back at rest afterwards.
pub proof fn law_no_lost_wakeup(s: SlotView, h: u64, lock_at: int, unlock_at: int)
    requires
        s.at_rest(),
        0 <= lock_at <= unlock_at <= 2,
    ensures
        ({
            let (t, got) = s.race_register_take(h, lock_at, unlock_at);
            &&& t.at_rest()
            &&& t.payload == Some(h) || got == Some(h) || (t.log.len() > 0 && t.log.last() == Event::Invoked(h))
        }),
{
}

/// A stored handle that `wake` retrieves is invoked exactly once and never
/// released; the handle it superseded was released once and never invoked.
pub proof fn law_invoked_once(s: SlotView, h: u64)
    requires
        s.at_rest(),
    ensures
        s.register(h).wake().log == s.log + s.released_payload() + seq![Event::Invoked(h)],
        s.register(h).wake().payload is None,
{
    assert(s.register(h).wake().log =~= s.log + s.released_payload() + seq![Event::Invoked(h)]);
}

/// `take` on an empty slot returns nothing and changes nothing, however often
/// it is repeated.
pub proof fn law_empty_take(s: SlotView)
    requires
        s.at_rest(),
        s.payload is None,
    ensures
        s.taken() is None,
        s.take() == s,
        s.take().taken() is None,
        s.take().take() == s,
{
}

/// `register(h1)` then `register(h2)` releases `h1` once and stores `h2`; the
/// next `take` hands out `h2` and leaves the slot empty.
pub proof fn law_overwrite_releases(s: SlotView, h1: u64, h2: u64)
    requires
        s.at_rest(),
    ensures
        s.register(h1).register(h2).log == s.log + s.released_payload() + seq![Event::Released(h1)],
        s.register(h1).register(h2).taken() == Some(h2),
        s.register(h1).register(h2).take().payload is None,
        s.register(h1).register(h2).take().word == Word::Empty,
{
    assert(s.register(h1).register(h2).log =~= s.log + s.released_payload() + seq![Event::Released(h1)]);
}

/// Destroying a slot that holds `h` releases `h` once and invokes nothing.
pub proof fn law_discard_releases(s: SlotView, h: u64)
    requires
        s.at_rest(),
    ensures
        s.register(h).discard() == s.log + s.released_payload() + seq![Event::Released(h)],
{
    assert(s.register(h).discard() =~= s.log + s.released_payload() + seq![Event::Released(h)]);
}

} // verus!
