use vstd::prelude::*;

verus! {

/// A trait to simplify generalizing over unbounded first-in-first-out
/// queues.  The abstract content `self@` is the sequence of elements in
/// front-to-back order; the oldest element is the first of the sequence.
pub trait FifoQueue<T>: View<V = Seq<T>> + Sized {
    /// Internal validity of the queue, established by both constructors and
    /// preserved by every operation.
    spec fn well_formed(&self) -> bool;

    /// Creates an empty queue with a default capacity.
    fn new() -> (r: Self)
        ensures
            r.well_formed(),
            r@ == Seq::<T>::empty(),
    ;

    /// Creates an empty queue able to hold at least `capacity` elements
    /// before it first grows.
    fn with_capacity(capacity: usize) -> (r: Self)
        ensures
            r.well_formed(),
            r@ == Seq::<T>::empty(),
    ;

    /// Appends `item` behind every element already enqueued.
    fn enqueue(&mut self, item: T)
        requires
            old(self).well_formed(),
            old(self)@.len() < usize::MAX / 2,
        ensures
            final(self).well_formed(),
            final(self)@ == old(self)@.push(item),
    ;

    /// Removes and returns the oldest element, or `None` when the queue is
    /// empty.
    fn dequeue(&mut self) -> (r: Option<T>)
        requires
            old(self).well_formed(),
        ensures
            final(self).well_formed(),
            old(self)@.len() == 0 ==> r is None && final(self)@ == old(self)@,
            old(self)@.len() > 0 ==> r == Some(old(self)@.first()) && final(self)@ == old(
                self,
            )@.drop_first(),
    ;

    /// Borrows the oldest element, or returns `None` when the queue is
    /// empty.
    fn peek(&self) -> (r: Option<&T>)
        requires
            self.well_formed(),
        ensures
            self@.len() == 0 ==> r is None,
            self@.len() > 0 ==> (r matches Some(item) && *item == self@.first()),
    ;

    /// Returns the number of elements currently in the queue.
    fn len(&self) -> (r: usize)
        ensures
            r == self@.len(),
    ;

    /// Whether the queue currently holds no element.
    fn is_empty(&self) -> (r: bool)
        ensures
            r <==> self@.len() == 0,
    {
        self.len() == 0
    }
}

/// A trait to simplify generalizing over unbounded double-ended queues.
/// The abstract content `self@` is the sequence of elements in
/// front-to-back order.
pub trait Deque<T>: View<V = Seq<T>> + Sized {
    /// Internal validity of the queue, established by both constructors and
    /// preserved by every operation.
    spec fn well_formed(&self) -> bool;

    /// Creates an empty queue with a default capacity.
    fn new() -> (r: Self)
        ensures
            r.well_formed(),
            r@ == Seq::<T>::empty(),
    ;

    /// Creates an empty queue able to hold at least `capacity` elements
    /// before it first grows.
    fn with_capacity(capacity: usize) -> (r: Self)
        ensures
            r.well_formed(),
            r@ == Seq::<T>::empty(),
    ;

    /// Inserts `item` in front of every element already enqueued.
    fn enqueue_first(&mut self, item: T)
        requires
            old(self).well_formed(),
            old(self)@.len() < usize::MAX / 2,
        ensures
            final(self).well_formed(),
            final(self)@ == old(self)@.insert(0, item),
    ;

    /// Appends `item` behind every element already enqueued.
    fn enqueue_last(&mut self, item: T)
        requires
            old(self).well_formed(),
            old(self)@.len() < usize::MAX / 2,
        ensures
            final(self).well_formed(),
            final(self)@ == old(self)@.push(item),
    ;

    /// Removes and returns the front element, or `None` when the queue is
    /// empty.
    fn dequeue_first(&mut self) -> (r: Option<T>)
        requires
            old(self).well_formed(),
        ensures
            final(self).well_formed(),
            old(self)@.len() == 0 ==> r is None && final(self)@ == old(self)@,
            old(self)@.len() > 0 ==> r == Some(old(self)@.first()) && final(self)@ == old(
                self,
            )@.drop_first(),
    ;

    /// Removes and returns the back element, or `None` when the queue is
    /// empty.
    fn dequeue_last(&mut self) -> (r: Option<T>)
        requires
            old(self).well_formed(),
        ensures
            final(self).well_formed(),
            old(self)@.len() == 0 ==> r is None && final(self)@ == old(self)@,
            old(self)@.len() > 0 ==> r == Some(old(self)@.last()) && final(self)@ == old(
                self,
            )@.drop_last(),
    ;

    /// Borrows the front element, or returns `None` when the queue is empty.
    fn peek_first(&self) -> (r: Option<&T>)
        requires
            self.well_formed(),
        ensures
            self@.len() == 0 ==> r is None,
            self@.len() > 0 ==> (r matches Some(item) && *item == self@.first()),
    ;

    /// Borrows the back element, or returns `None` when the queue is empty.
    fn peek_last(&self) -> (r: Option<&T>)
        requires
            self.well_formed(),
        ensures
            self@.len() == 0 ==> r is None,
            self@.len() > 0 ==> (r matches Some(item) && *item == self@.last()),
    ;

    /// Returns the number of elements currently in the queue.
    fn len(&self) -> (r: usize)
        ensures
            r == self@.len(),
    ;

    /// Whether the queue currently holds no element.
    fn is_empty(&self) -> (r: bool)
        ensures
            r <==> self@.len() == 0,
    {
        self.len() == 0
    }
}

} // verus!
