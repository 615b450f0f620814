//! The registry behind the event emitter: which handlers an event runs, in order.
use vstd::prelude::*;
use crate::text::{owned, str_eq};

verus! {

/// The handlers registered for event `e`, in the order of registration,
/// given the registrations `reg` as (event, handler) pairs in order.
pub open spec fn handlers_for<H>(reg: Seq<(Seq<char>, H)>, e: Seq<char>) -> Seq<H>
    decreases reg.len(),
{
    if reg.len() == 0 {
        Seq::empty()
    } else {
        let rest = handlers_for(reg.drop_last(), e);
        if reg.last().0 == e {
            rest.push(reg.last().1)
        } else {
            rest
        }
    }
}

/// Event handlers keyed by event name.
pub struct HandlerRegistry<H> {
    entries: Vec<(String, H)>,
}

impl<H> View for HandlerRegistry<H> {
    type V = Seq<(Seq<char>, H)>;

    /// The registrations, as (event, handler) pairs in the order they were made.
    closed spec fn view(&self) -> Seq<(Seq<char>, H)> {
        self.entries@.map_values(|p: (String, H)| (p.0@, p.1))
    }
}

impl<H> HandlerRegistry<H> {
    /// An empty registry.
    pub fn new() -> (r: Self)
        ensures
            r@ == Seq::<(Seq<char>, H)>::empty(),
    {
        let r = HandlerRegistry { entries: Vec::new() };
        assert(r@ =~= Seq::<(Seq<char>, H)>::empty());
        r
    }

    /// Register `handler` for `event`, after the ones registered before.
    pub fn on(&mut self, event: &str, handler: H)
        ensures
            final(self)@ == old(self)@.push((event@, handler)),
            handlers_for(final(self)@, event@) == handlers_for(old(self)@, event@).push(handler),
            forall|e: Seq<char>| e != event@ ==> handlers_for(final(self)@, e) == handlers_for(old(self)@, e),
    {
        self.entries.push((owned(event), handler));
        proof {
            assert(self@ =~= old(self)@.push((event@, handler)));
            assert(self@.drop_last() =~= old(self)@);
        }
    }

    /// The handlers registered for `event`, in the order of registration.
    pub fn handlers(&self, event: &str) -> (r: Vec<&H>)
        ensures
            r@.map_values(|h: &H| *h) == handlers_for(self@, event@),
    {
        let mut r: Vec<&H> = Vec::new();
        let mut i: usize = 0;
        while i < self.entries.len()
            invariant
                i <= self.entries.len(),
                r@.map_values(|h: &H| *h) == handlers_for(self@.take(i as int), event@),
            decreases self.entries.len() - i,
        {
            let entry = &self.entries[i];
            if str_eq(entry.0.as_str(), event) {
                r.push(&entry.1);
            }
            i = i + 1;
            proof {
                assert(self@.take(i as int).drop_last() =~= self@.take(i - 1));
                assert(r@.map_values(|h: &H| *h) =~= handlers_for(self@.take(i as int), event@));
            }
        }
        assert(self@.take(self.entries.len() as int) =~= self@);
        r
    }
}

/// Registering a handler for one event runs it, after the earlier ones,
/// when that event is emitted, and changes nothing for other events.
pub proof fn lemma_on_then_emit<H>(reg: Seq<(Seq<char>, H)>, event: Seq<char>, handler: H, other: Seq<char>)
    ensures
        handlers_for(reg.push((event, handler)), event) == handlers_for(reg, event).push(handler),
        other != event ==> handlers_for(reg.push((event, handler)), other) == handlers_for(reg, other),
{
    assert(reg.push((event, handler)).drop_last() =~= reg);
}

/// An event that nobody registered for runs no handler.
pub proof fn lemma_unregistered_event<H>(reg: Seq<(Seq<char>, H)>, event: Seq<char>)
    requires
        forall|i: int| 0 <= i < reg.len() ==> (#[trigger] reg[i]).0 != event,
    ensures
        handlers_for(reg, event) == Seq::<H>::empty(),
    decreases reg.len(),
{
    if reg.len() > 0 {
        let rest = reg.drop_last();
        assert forall|i: int| 0 <= i < rest.len() implies (#[trigger] rest[i]).0 != event by {
            assert(rest[i] == reg[i]);
        }
        lemma_unregistered_event(rest, event);
    }
}

} // verus!
