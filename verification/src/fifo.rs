use vstd::prelude::*;
use std::collections::VecDeque;

verus! {

/// Bounded first-in first-out queue, as used for hardware FIFOs.
pub struct Fifo<T> {
    pub items: VecDeque<T>,
    pub capacity: usize,
}

impl<T> View for Fifo<T> {
    type V = Seq<T>;

    open spec fn view(&self) -> Seq<T> {
        self.items@
    }
}

impl<T> Fifo<T> {
    /// The queue never holds more than its capacity.
    pub open spec fn wf(&self) -> bool {
        self@.len() <= self.capacity
    }

    pub fn new(capacity: usize) -> (f: Fifo<T>)
        ensures
            f.wf(),
            f@ == Seq::<T>::empty(),
            f.capacity == capacity,
    {
        Fifo { items: VecDeque::new(), capacity }
    }

    pub fn len(&self) -> (n: usize)
        ensures
            n == self@.len(),
    {
        self.items.len()
    }

    pub fn is_empty(&self) -> (b: bool)
        ensures
            b == (self@.len() == 0),
    {
        self.items.len() == 0
    }

    pub fn is_full(&self) -> (b: bool)
        ensures
            b == (self@.len() >= self.capacity),
    {
        self.items.len() >= self.capacity
    }

    /// Removes and returns the oldest item; fails when the queue is empty.
    pub fn read_one(&mut self) -> (r: Result<T, ()>)
        ensures
            final(self).capacity == old(self).capacity,
            old(self)@.len() == 0 ==> r is Err && final(self)@ == old(self)@,
            old(self)@.len() > 0 ==> r == Ok::<T, ()>(old(self)@[0]) && final(self)@ == old(self)@.drop_first(),
    {
        match self.items.pop_front() {
            Some(v) => Ok(v),
            None => Err(()),
        }
    }

    /// Appends an item; fails, leaving the queue as it was, when it is full.
    pub fn write_one(&mut self, value: T) -> (r: Result<(), ()>)
        ensures
            final(self).capacity == old(self).capacity,
            old(self)@.len() >= old(self).capacity ==> r is Err && final(self)@ == old(self)@,
            old(self)@.len() < old(self).capacity ==> r is Ok && final(self)@ == old(self)@.push(
                value,
            ),
    {
        if self.items.len() >= self.capacity {
            return Err(());
        }
        self.items.push_back(value);
        Ok(())
    }

    pub fn clear(&mut self)
        ensures
            final(self).capacity == old(self).capacity,
            final(self)@ == Seq::<T>::empty(),
    {
        self.items = VecDeque::new();
    }
}

/// Items leave a FIFO in the order they entered: after writing `value` to a
/// queue that had room, reading gives the old head if there was one, else `value`.
pub proof fn lemma_fifo_order<T>(before: Seq<T>, value: T)
    ensures
        before.len() > 0 ==> before.push(value)[0] == before[0],
        before.len() == 0 ==> before.push(value)[0] == value,
        before.len() > 0 ==> before.push(value).drop_first() == before.drop_first().push(value),
{
    if before.len() > 0 {
        assert(before.push(value).drop_first() =~= before.drop_first().push(value));
    }
}

} // verus!
