//! Sequential models of the synchronisation primitives the scheduler uses:
//! a counting semaphore and a bounded first-in first-out queue.

use vstd::prelude::*;

verus! {

/// Counting semaphore. `signal` adds a permit; `try_wait` takes one if there
/// is one. Blocking is left to the caller: a failed `try_wait` means "wait
/// and ask again".
#[derive(Debug, Copy, Clone, PartialEq, Eq, Structural)]
pub struct Semaphore {
    pub value: usize,
}

impl Semaphore {
    pub fn new(value: usize) -> (r: Self)
        ensures
            r.value == value,
    {
        Semaphore { value }
    }

    /// The semaphore after one more signal; the count stays at the largest
    /// representable value once it got there.
    pub open spec fn signaled(self) -> Semaphore {
        if self.value < usize::MAX {
            Semaphore { value: (self.value + 1) as usize }
        } else {
            self
        }
    }

    pub fn signal(&mut self)
        ensures
            *final(self) == old(self).signaled(),
    {
        if self.value < usize::MAX {
            self.value = self.value + 1;
        }
    }

    /// Takes a permit if one is there.
    pub fn try_wait(&mut self) -> (taken: bool)
        ensures
            taken == (old(self).value > 0),
            taken ==> final(self).value == old(self).value - 1,
            !taken ==> *final(self) == *old(self),
    {
        if self.value > 0 {
            self.value = self.value - 1;
            true
        } else {
            false
        }
    }
}

/// Bounded first-in first-out queue. The view is the queued items, oldest
/// first.
pub struct ConcurrentFifo<T> {
    pub items: Vec<T>,
    pub capacity: usize,
}

impl<T> View for ConcurrentFifo<T> {
    type V = Seq<T>;

    open spec fn view(&self) -> Seq<T> {
        self.items@
    }
}

impl<T> ConcurrentFifo<T> {
    /// The queue never holds more than its capacity.
    pub open spec fn wf(&self) -> bool {
        self@.len() <= self.capacity
    }

    pub open spec fn is_full(&self) -> bool {
        self@.len() >= self.capacity
    }

    pub fn with_capacity(capacity: usize) -> (r: Self)
        ensures
            r@ == Seq::<T>::empty(),
            r.capacity == capacity,
            r.wf(),
    {
        ConcurrentFifo { items: Vec::new(), capacity }
    }

    pub fn len(&self) -> (r: usize)
        ensures
            r == self@.len(),
    {
        self.items.len()
    }

    /// Appends `data`, or hands it back when the queue is full.
    pub fn enqueue(&mut self, data: T) -> (r: Result<(), T>)
        requires
            old(self).wf(),
        ensures
            final(self).wf(),
            final(self).capacity == old(self).capacity,
            old(self).is_full() ==> r == Err::<(), T>(data) && final(self)@ == old(self)@,
            !old(self).is_full() ==> r == Ok::<(), T>(()) && final(self)@ == old(self)@.push(data),
    {
        if self.items.len() >= self.capacity {
            Err(data)
        } else {
            self.items.push(data);
            Ok(())
        }
    }

    /// Takes the oldest item, if there is one.
    pub fn dequeue(&mut self) -> (r: Option<T>)
        requires
            old(self).wf(),
        ensures
            final(self).wf(),
            final(self).capacity == old(self).capacity,
            old(self)@.len() == 0 ==> r.is_none() && final(self)@ == old(self)@,
            old(self)@.len() > 0 ==> r == Some(old(self)@[0]) && final(self)@ == old(self)@.drop_first(),
    {
        if self.items.len() == 0 {
            None
        } else {
            let head = self.items.remove(0);
            assert(self.items@ =~= old(self).items@.drop_first());
            Some(head)
        }
    }
}

} // verus!
