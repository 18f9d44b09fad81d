//! Bounded first-in first-out channel that carries events to a pane.

use vstd::prelude::*;

verus! {

/// A queue that holds at most `limit()` events. Sending never waits: an
/// event that does not fit comes back to the sender.
#[derive(Debug, PartialEq, Eq)]
pub struct EventQueue<T> {
    buffer: Vec<T>,
    capacity: usize,
}

impl<T> View for EventQueue<T> {
    type V = Seq<T>;

    /// The events that wait, oldest first.
    closed spec fn view(&self) -> Seq<T> {
        self.buffer@
    }
}

impl<T> EventQueue<T> {
    /// The queue holds no more events than its limit. Every queue made by
    /// `new` is bounded, and sending and receiving keep it so.
    pub closed spec fn bounded(&self) -> bool {
        self.buffer@.len() <= self.capacity
    }

    /// How many events the queue holds at most.
    pub closed spec fn limit(&self) -> nat {
        self.capacity as nat
    }

    /// An empty queue for at most `capacity` events.
    pub fn new(capacity: usize) -> (queue: Self)
        ensures
            queue@ == Seq::<T>::empty(),
            queue.limit() == capacity,
            queue.bounded(),
    {
        EventQueue { buffer: Vec::new(), capacity }
    }

    /// Number of events that wait.
    pub fn len(&self) -> (n: usize)
        ensures
            n == self@.len(),
            self.bounded() ==> n <= self.limit(),
    {
        self.buffer.len()
    }

    /// Whether no event waits.
    pub fn is_empty(&self) -> (empty: bool)
        ensures
            empty == (self@.len() == 0),
    {
        self.buffer.len() == 0
    }

    /// Whether the next `try_send` would be refused.
    pub fn is_full(&self) -> (full: bool)
        ensures
            full == (self@.len() >= self.limit()),
    {
        self.buffer.len() >= self.capacity
    }

    /// Appends `event` if there is room, and hands it back if there is
    /// none.
    pub fn try_send(&mut self, event: T) -> (result: Result<(), T>)
        ensures
            final(self).limit() == old(self).limit(),
            old(self).bounded() ==> final(self).bounded(),
            old(self)@.len() < old(self).limit() ==> result is Ok && final(self)@ == old(self)@.push(
                event,
            ),
            old(self)@.len() >= old(self).limit() ==> result == Err::<(), T>(event) && final(self)@
                == old(self)@,
    {
        if self.buffer.len() < self.capacity {
            self.buffer.push(event);
            Ok(())
        } else {
            Err(event)
        }
    }

    /// Takes the oldest event, if one waits.
    pub fn try_recv(&mut self) -> (event: Option<T>)
        ensures
            final(self).limit() == old(self).limit(),
            old(self).bounded() ==> final(self).bounded(),
            old(self)@.len() > 0 ==> event == Some(old(self)@[0]) && final(self)@ == old(self)@.drop_first(),
            old(self)@.len() == 0 ==> event is None && final(self)@ == old(self)@,
    {
        if self.buffer.len() > 0 {
            let first = self.buffer.remove(0);
            assert(self.buffer@ =~= old(self)@.drop_first());
            Some(first)
        } else {
            None
        }
    }
}

} // verus!
