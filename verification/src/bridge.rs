//! The event bridge: the strict-FIFO queue between the relay thread
//! and the single-threaded consumer.  Events leave in exactly the
//! order they arrived, none lost, none duplicated; the surrounding
//! application adds the lock that lets the relay thread post into it.

use crate::event::Event;
use vstd::prelude::*;

verus! {

/// A first-in-first-out queue of events.  Its view is the sequence of
/// queued events, oldest first.
pub struct EventBridge {
    queue: Vec<Event>,
}

impl View for EventBridge {
    type V = Seq<Event>;

    closed spec fn view(&self) -> Seq<Event> {
        self.queue@
    }
}

impl EventBridge {
    /// An empty bridge.
    pub fn new() -> (b: EventBridge)
        ensures
            b@ == Seq::<Event>::empty(),
    {
        EventBridge { queue: Vec::new() }
    }

    /// The relay side: append one event behind all earlier ones.
    pub fn post(&mut self, e: Event)
        ensures
            final(self)@ == old(self)@.push(e),
    {
        self.queue.push(e);
    }

    /// The consumer side: take the oldest queued event, if any.  The
    /// rest keep their order.
    pub fn poll(&mut self) -> (e: Option<Event>)
        ensures
            old(self)@.len() == 0 ==> e is None && *final(self) == *old(self),
            old(self)@.len() > 0 ==> e == Some(old(self)@[0]) && final(self)@ == old(
                self,
            )@.drop_first(),
    {
        if self.queue.len() == 0 {
            None
        } else {
            let first = self.queue.remove(0);
            proof {
                assert(self@ =~= old(self)@.drop_first());
            }
            Some(first)
        }
    }

    /// How many events wait in the bridge.
    pub fn len(&self) -> (n: usize)
        ensures
            n == self@.len(),
    {
        self.queue.len()
    }

    /// Whether the bridge is drained.
    pub fn is_empty(&self) -> (r: bool)
        ensures
            r == (self@.len() == 0),
    {
        self.queue.len() == 0
    }
}

} // verus!
