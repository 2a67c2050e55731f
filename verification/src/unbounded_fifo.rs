use crate::reallocating_queues::internal_queue::ReallocatingQueue;
use vstd::prelude::*;

verus! {

/// A simple unbounded first-in-first-out queue over the shared ring-buffer
/// engine, with a larger default capacity than [`crate::ReallocatingFifo`].
/// The abstract content `self@` is the sequence of elements in
/// front-to-back order; the oldest element is the first of the sequence.
pub struct UnboundedFifo<T: Sized + Clone> {
    /// Delegate operations to the shared ring-buffer engine.
    queue: ReallocatingQueue<T>,
}

impl<T: Sized + Clone> View for UnboundedFifo<T> {
    type V = Seq<T>;

    closed spec fn view(&self) -> Seq<T> {
        self.queue@
    }
}

impl<T: Sized + Clone> UnboundedFifo<T> {
    /// Internal validity, established by the constructor and preserved by
    /// every operation.
    pub closed spec fn well_formed(&self) -> bool {
        self.queue.well_formed()
    }

    /// Capacity of the underlying store: how many elements the queue holds
    /// before it must reallocate.  It only grows, never shrinks.
    pub closed spec fn cap(&self) -> int {
        self.queue.cap()
    }

    /// Creates a new, empty queue with a default capacity of 512.
    pub fn new() -> (r: Self)
        ensures
            r.well_formed(),
            r@ == Seq::<T>::empty(),
            r.cap() == 512,
    {
        UnboundedFifo { queue: ReallocatingQueue::with_capacity(512) }
    }

    /// Enqueues a new item in the queue.  The store is reallocated to twice
    /// the element count if and only if it is full at entry.
    pub fn enqueue(&mut self, item: T)
        requires
            old(self).well_formed(),
            old(self)@.len() < usize::MAX / 2,
        ensures
            final(self).well_formed(),
            final(self)@ == old(self)@.push(item),
            final(self).cap() == if old(self)@.len() < old(self).cap() {
                old(self).cap()
            } else {
                2 * old(self)@.len() as int
            },
            old(self).cap() <= final(self).cap(),
    {
        self.queue.enqueue_last(item)
    }

    /// Peeks at the first item in the queue.
    pub fn peek(&self) -> (r: Option<&T>)
        requires
            self.well_formed(),
        ensures
            self@.len() == 0 ==> r is None,
            self@.len() > 0 ==> (r matches Some(item) && *item == self@.first()),
    {
        self.queue.peek_first()
    }

    /// Dequeues the oldest item in the queue.
    pub fn dequeue(&mut self) -> (r: Option<T>)
        requires
            old(self).well_formed(),
        ensures
            final(self).well_formed(),
            final(self).cap() == old(self).cap(),
            old(self)@.len() == 0 ==> r is None && final(self)@ == old(self)@,
            old(self)@.len() > 0 ==> r == Some(old(self)@.first()) && final(self)@ == old(
                self,
            )@.drop_first(),
    {
        self.queue.dequeue_first()
    }

    /// Returns the number of items currently in the queue.
    pub fn len(&self) -> (r: usize)
        ensures
            r == self@.len(),
    {
        self.queue.len()
    }
}

} // verus!
