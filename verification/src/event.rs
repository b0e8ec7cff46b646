//! The event channel model: a multi-producer, single-consumer FIFO queue of
//! loop events.

use vstd::prelude::*;

verus! {

/// An event delivered to the worker loop over the channel.
#[derive(Clone, Copy, Debug, PartialEq, Eq, Structural)]
pub enum Event {
    /// Re-read the configuration and apply the payload once.
    ExecutePayload,
    /// Shut the loop down.
    StopService,
}

/// FIFO queue of pending loop events. This models the event channel: events
/// come out in exactly the order they were sent, with no coalescing and no
/// priority between the two kinds.
pub struct EventQueue {
    events: Vec<Event>,
}

impl View for EventQueue {
    type V = Seq<Event>;

    closed spec fn view(&self) -> Seq<Event> {
        self.events@
    }
}

impl EventQueue {
    /// An empty queue.
    pub fn new() -> (q: EventQueue)
        ensures
            q@ == Seq::<Event>::empty(),
    {
        EventQueue { events: Vec::new() }
    }

    /// Appends an event at the back of the queue.
    pub fn send(&mut self, e: Event)
        ensures
            final(self)@ == old(self)@.push(e),
    {
        self.events.push(e);
    }

    /// Takes the oldest pending event, or `None` when the queue is empty.
    pub fn recv(&mut self) -> (r: Option<Event>)
        ensures
            old(self)@.len() == 0 ==> r is None && final(self)@ == old(self)@,
            old(self)@.len() > 0 ==> r == Some(old(self)@[0]) && final(self)@ == old(
                self,
            )@.subrange(1, old(self)@.len() as int),
    {
        if self.events.len() == 0 {
            None
        } else {
            let e = self.events.remove(0);
            Some(e)
        }
    }

    /// How many events are pending.
    pub fn len(&self) -> (n: usize)
        ensures
            n == self@.len(),
    {
        self.events.len()
    }

    /// Whether no event is pending.
    pub fn is_empty(&self) -> (r: bool)
        ensures
            r == (self@.len() == 0),
    {
        self.events.len() == 0
    }
}

} // verus!
