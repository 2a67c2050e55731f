use crate::queue_traits::FifoQueue;
use vstd::prelude::*;

use super::internal_queue::ReallocatingQueue;

verus! {

/// A first-in-first-out queue based on a ring buffer that reallocates when
/// full.  The abstract content `self@` is the sequence of elements in
/// front-to-back order; the oldest element is the first of the sequence.
pub struct ReallocatingFifo<T: Clone + Sized> {
    /// Delegate operations to the shared ring-buffer engine, narrowed to
    /// back-insertions and front-removals.
    queue: ReallocatingQueue<T>,
}

impl<T: Clone + Sized> View for ReallocatingFifo<T> {
    type V = Seq<T>;

    closed spec fn view(&self) -> Seq<T> {
        self.queue@
    }
}

impl<T: Sized + Clone> ReallocatingFifo<T> {
    /// Internal validity, established by the constructors and preserved by
    /// every operation.
    pub closed spec fn well_formed(&self) -> bool {
        self.queue.well_formed()
    }

    /// Capacity of the underlying store: how many elements the queue holds
    /// before it must reallocate.  It only grows, never shrinks.
    pub closed spec fn cap(&self) -> int {
        self.queue.cap()
    }

    /// Enqueues an item into the queue.  The store is reallocated to twice
    /// the element count if and only if it is full at entry.
    pub fn enqueue(&mut self, item: T)
        requires
            old(self).well_formed(),
            old(self)@.len() < usize::MAX / 2,
        ensures
            final(self).well_formed(),
            final(self)@ == old(self)@.push(item),
            final(self).cap() == if old(self)@.len() < old(self).cap() {
                old(self).cap()
            } else {
                2 * old(self)@.len() as int
            },
            old(self).cap() <= final(self).cap(),
    {
        self.queue.enqueue_last(item)
    }

    /// Tries to dequeue the oldest item in the queue.
    pub fn dequeue(&mut self) -> (r: Option<T>)
        requires
            old(self).well_formed(),
        ensures
            final(self).well_formed(),
            final(self).cap() == old(self).cap(),
            old(self)@.len() == 0 ==> r is None && final(self)@ == old(self)@,
            old(self)@.len() > 0 ==> r == Some(old(self)@.first()) && final(self)@ == old(
                self,
            )@.drop_first(),
    {
        self.queue.dequeue_first()
    }

    /// The number of items currently in the queue.
    pub fn len(&self) -> (r: usize)
        ensures
            r == self@.len(),
    {
        self.queue.len()
    }

    /// Tries to peek at the oldest item in the queue.
    pub fn peek(&self) -> (r: Option<&T>)
        requires
            self.well_formed(),
        ensures
            self@.len() == 0 ==> r is None,
            self@.len() > 0 ==> (r matches Some(item) && *item == self@.first()),
    {
        self.queue.peek_first()
    }

    /// Creates a new, empty queue with a default capacity of 64.
    pub fn new() -> (r: Self)
        ensures
            r.well_formed(),
            r@ == Seq::<T>::empty(),
            r.cap() == 64,
    {
        ReallocatingFifo { queue: ReallocatingQueue::new() }
    }

    /// Creates a new, empty queue that can enqueue at least `capacity` items
    /// before reallocating memory; a zero request is raised to one.
    pub fn with_capacity(capacity: usize) -> (r: Self)
        ensures
            r.well_formed(),
            r@ == Seq::<T>::empty(),
            r.cap() == if capacity == 0 {
                1int
            } else {
                capacity as int
            },
    {
        ReallocatingFifo { queue: ReallocatingQueue::with_capacity(capacity) }
    }
}

impl<T: Clone + Sized> FifoQueue<T> for ReallocatingFifo<T> {
    closed spec fn well_formed(&self) -> bool {
        self.queue.well_formed()
    }

    fn enqueue(&mut self, item: T) {
        self.enqueue(item)
    }

    fn dequeue(&mut self) -> Option<T> {
        self.dequeue()
    }

    fn len(&self) -> usize {
        self.len()
    }

    fn peek(&self) -> Option<&T> {
        self.peek()
    }

    fn new() -> Self {
        Self::new()
    }

    fn with_capacity(capacity: usize) -> Self {
        Self::with_capacity(capacity)
    }
}

} // verus!
