//! A first-in-first-out queue.
//!
//! The queue is the sequential core of a producer/consumer queue: it keeps the
//! items in the order in which they were pushed and gives them back in that
//! order. It does not lock and it does not wait. A program that shares one
//! between threads puts it behind a lock, and lets a consumer that finds it
//! empty wait until a producer has pushed.

use std::collections::VecDeque;
use vstd::prelude::*;

verus! {

/// A queue of items, oldest first.
pub struct Queue<T> {
    items: VecDeque<T>,
}

impl<T> View for Queue<T> {
    type V = Seq<T>;

    /// The items in the order in which they will be popped.
    closed spec fn view(&self) -> Seq<T> {
        self.items@
    }
}

impl<T> Queue<T> {
    /// A queue without items.
    pub fn new() -> (queue: Self)
        ensures
            queue@ == Seq::<T>::empty(),
    {
        Self { items: VecDeque::new() }
    }

    /// Puts `item` behind all items that are in the queue.
    pub fn push(&mut self, item: T)
        ensures
            final(self)@ == old(self)@.push(item),
    {
        self.items.push_back(item);
    }

    /// Takes the oldest item out of the queue and returns it, or returns
    /// `None` and leaves the queue as it is when there is no item.
    pub fn pop(&mut self) -> (front: Option<T>)
        ensures
            match front {
                Some(item) => {
                    &&& old(self)@.len() > 0
                    &&& item == old(self)@[0]
                    &&& final(self)@ == old(self)@.drop_first()
                },
                None => {
                    &&& old(self)@.len() == 0
                    &&& final(self)@ == old(self)@
                },
            },
    {
        let value = self.items.pop_front()?;
        Some(value)
    }

    /// The number of items in the queue.
    pub fn len(&self) -> (count: usize)
        ensures
            count == self@.len(),
    {
        self.items.len()
    }
}

} // verus!
