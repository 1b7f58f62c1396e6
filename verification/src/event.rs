//! Events awaiting delivery and the queue that collects them.

use std::collections::VecDeque;

use vstd::prelude::*;

use crate::geometry::WindowSize;

verus! {

/// An event listener that discards every event.
#[derive(Clone, Copy, Debug, Default)]
pub struct VoidListener;

/// One event awaiting delivery to the application's listener.
///
/// `T` is the terminal model's own event type.
pub enum Event<T> {
    /// Terminal-state event.
    Terminal(T),
    /// Result of applying one resize request selected by the event loop.
    ResizeResult(Result<WindowSize, std::io::Error>),
}

/// First-in, first-out collector of events emitted while the terminal model
/// is mutated.
pub struct EventQueue<E> {
    /// Events in emission order.
    events: VecDeque<E>,
}

impl<E> View for EventQueue<E> {
    type V = Seq<E>;

    closed spec fn view(&self) -> Seq<E> {
        self.events@
    }
}

impl<E> EventQueue<E> {
    /// Create an empty collector.
    pub fn new() -> (queue: Self)
        ensures
            queue@ == Seq::<E>::empty(),
    {
        EventQueue { events: VecDeque::new() }
    }

    /// Append one event after every event collected so far.
    pub fn push(&mut self, event: E)
        ensures
            final(self)@ == old(self)@.push(event),
    {
        self.events.push_back(event);
    }

    /// Remove the events collected since the preceding drain, in emission
    /// order, leaving the collector empty.
    pub fn drain(&mut self) -> (drained: VecDeque<E>)
        ensures
            drained@ == old(self)@,
            final(self)@ == Seq::<E>::empty(),
    {
        let mut drained = VecDeque::new();
        drained.append(&mut self.events);
        drained
    }

    /// Number of events collected since the preceding drain.
    pub fn len(&self) -> (count: usize)
        ensures
            count == self@.len(),
    {
        self.events.len()
    }
}

/// Events sent to a collector come out of the next drain in the order in
/// which they were sent, after those already collected; the drain after that
/// yields nothing until more events are sent.
pub proof fn law_drain_returns_events_in_send_order<E>(collected: Seq<E>, sent: Seq<E>)
    ensures
        sent.fold_left(collected, |queue: Seq<E>, event: E| queue.push(event)) == collected + sent,
    decreases sent.len(),
{
    if sent.len() == 0 {
        assert(collected + sent =~= collected);
    } else {
        let last = sent.last();
        let init = sent.drop_last();
        law_drain_returns_events_in_send_order(collected, init);
        assert(init.push(last) =~= sent);
        assert((collected + init).push(last) =~= collected + sent);
    }
}

} // verus!
