//! The bounded FIFO mailbox: the ordered transport that carries pending
//! items from producers to an actor's single consumer. Items are delivered
//! in the order they were successfully enqueued.

use vstd::prelude::*;

verus! {

/// A bounded first-in-first-out queue. Its view is the sequence of queued
/// items, oldest first; `enqueue` appends at the back and `dequeue` removes
/// from the front, so delivery order equals enqueue order.
pub struct Mailbox<T> {
    items: Vec<T>,
    capacity: usize,
}

impl<T> View for Mailbox<T> {
    type V = Seq<T>;

    closed spec fn view(&self) -> Seq<T> {
        self.items@
    }
}

impl<T> Mailbox<T> {
    /// The fixed bound this mailbox was created with.
    pub closed spec fn capacity(&self) -> usize {
        self.capacity
    }

    /// A new, empty mailbox with the given bound.
    pub fn new(capacity: usize) -> (m: Self)
        ensures
            m@ == Seq::<T>::empty(),
            m.capacity() == capacity,
    {
        Mailbox { items: Vec::new(), capacity }
    }

    /// How many items are waiting.
    pub fn len(&self) -> (n: usize)
        ensures
            n == self@.len(),
    {
        self.items.len()
    }

    /// True when nothing is waiting.
    pub fn is_empty(&self) -> (b: bool)
        ensures
            b == (self@.len() == 0),
    {
        self.items.len() == 0
    }

    /// True when the mailbox has reached its bound, so an enqueue would
    /// have to wait for the consumer to make room.
    pub fn is_full(&self) -> (b: bool)
        ensures
            b == (self@.len() >= self.capacity()),
    {
        self.items.len() >= self.capacity
    }

    /// Append an item at the back of the queue.
    pub fn enqueue(&mut self, item: T)
        requires
            old(self)@.len() < old(self).capacity(),
        ensures
            final(self)@ == old(self)@.push(item),
            final(self).capacity() == old(self).capacity(),
    {
        self.items.push(item);
    }

    /// Remove and return the oldest item, or `None` when the queue is empty.
    pub fn dequeue(&mut self) -> (r: Option<T>)
        ensures
            final(self).capacity() == old(self).capacity(),
            old(self)@.len() == 0 ==> r is None && final(self)@ == old(self)@,
            old(self)@.len() > 0 ==> r == Some(old(self)@.first()) && final(self)@ == old(self)@.skip(1),
    {
        if self.items.len() == 0 {
            None
        } else {
            let item = self.items.remove(0);
            Some(item)
        }
    }
}

} // verus!
