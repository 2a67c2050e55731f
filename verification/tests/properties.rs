use rand::Rng;
use std::collections::VecDeque;
use vec_queues::{Deque, FifoQueue, ReallocatingDeque, ReallocatingFifo, UnboundedFifo};

#[test]
/// Growth scenario: a capacity-2 queue forced to reallocate on the third
/// insertion still dequeues every element in order, then reports empty.
fn growth_keeps_fifo_order() {
    let mut queue: ReallocatingDeque<i32> = ReallocatingDeque::with_capacity(2);
    queue.enqueue_last(1);
    queue.enqueue_last(2);
    queue.enqueue_last(3);
    assert_eq!(queue.len(), 3);
    assert_eq!(queue.dequeue_first(), Some(1));
    assert_eq!(queue.dequeue_first(), Some(2));
    assert_eq!(queue.dequeue_first(), Some(3));
    assert_eq!(queue.dequeue_first(), None);
}

#[test]
/// Reallocation on a wrapped buffer: the logical window is made to wrap past
/// the end of a small store before the growth is triggered, and the content
/// comes back complete and in order.
fn growth_preserves_wrapped_content() {
    let mut queue: ReallocatingDeque<i32> = ReallocatingDeque::with_capacity(3);
    queue.enqueue_last(1);
    queue.enqueue_last(2);
    queue.enqueue_last(3);
    // Move the head off the start of the store, then wrap the tail around.
    assert_eq!(queue.dequeue_first(), Some(1));
    queue.enqueue_last(4);
    // The store is full and the window wraps; this insertion reallocates.
    queue.enqueue_last(5);
    assert_eq!(queue.len(), 4);
    assert_eq!(queue.dequeue_first(), Some(2));
    assert_eq!(queue.dequeue_first(), Some(3));
    assert_eq!(queue.dequeue_first(), Some(4));
    assert_eq!(queue.dequeue_first(), Some(5));
    assert_eq!(queue.dequeue_first(), None);
}

#[test]
/// Front-insertion growth: filling the queue from the front and growing it
/// keeps the front-to-back order intact.
fn growth_preserves_front_insertions() {
    let mut queue: ReallocatingDeque<i32> = ReallocatingDeque::with_capacity(2);
    queue.enqueue_first(3);
    queue.enqueue_first(2);
    queue.enqueue_first(1);
    queue.enqueue_first(0);
    assert_eq!(queue.len(), 4);
    for expected in 0..4 {
        assert_eq!(queue.dequeue_first(), Some(expected));
    }
    assert_eq!(queue.dequeue_first(), None);
}

#[test]
/// Back-removal when the tail sits at slot zero: the wrapping step from
/// `tail == 0` to the last slot must not underflow.
fn dequeue_last_with_tail_at_zero() {
    let mut queue: ReallocatingDeque<i32> = ReallocatingDeque::with_capacity(3);
    queue.enqueue_last(1);
    queue.enqueue_last(2);
    queue.enqueue_last(3);
    // Three insertions into a capacity-3 store wrap the tail back to zero.
    assert_eq!(queue.dequeue_last(), Some(3));
    assert_eq!(queue.dequeue_last(), Some(2));
    assert_eq!(queue.dequeue_last(), Some(1));
    assert_eq!(queue.dequeue_last(), None);
}

#[test]
/// Deque symmetry: enqueuing at one end and immediately dequeuing from the
/// same end returns the enqueued item, on the empty state and on others.
fn same_end_round_trips() {
    let mut queue: ReallocatingDeque<i32> = ReallocatingDeque::new();
    queue.enqueue_first(10);
    assert_eq!(queue.dequeue_first(), Some(10));
    queue.enqueue_last(11);
    assert_eq!(queue.dequeue_last(), Some(11));
    assert!(queue.is_empty());

    queue.enqueue_last(1);
    queue.enqueue_last(2);
    queue.enqueue_first(20);
    assert_eq!(queue.dequeue_first(), Some(20));
    queue.enqueue_last(21);
    assert_eq!(queue.dequeue_last(), Some(21));
    assert_eq!(queue.dequeue_first(), Some(1));
    assert_eq!(queue.dequeue_first(), Some(2));
}

#[test]
/// Idempotent emptiness: once drained, the queue keeps reporting the empty
/// outcome on every peek and removal until a new insertion arrives.
fn drained_queue_stays_empty() {
    let mut queue: ReallocatingDeque<i32> = ReallocatingDeque::with_capacity(4);
    queue.enqueue_last(1);
    queue.enqueue_first(0);
    queue.enqueue_last(2);
    assert_eq!(queue.dequeue_last(), Some(2));
    assert_eq!(queue.dequeue_first(), Some(0));
    assert_eq!(queue.dequeue_last(), Some(1));
    assert_eq!(queue.len(), 0);
    assert!(queue.is_empty());
    assert_eq!(queue.peek_first(), None);
    assert_eq!(queue.peek_last(), None);
    assert_eq!(queue.dequeue_first(), None);
    assert_eq!(queue.dequeue_last(), None);
    queue.enqueue_last(9);
    assert_eq!(queue.len(), 1);
    assert_eq!(queue.peek_first(), Some(&9));
}

#[test]
/// Peeks return the front and back without mutating the queue.
fn peeks_do_not_mutate() {
    let mut queue: ReallocatingDeque<i32> = ReallocatingDeque::with_capacity(2);
    queue.enqueue_last(1);
    queue.enqueue_last(2);
    queue.enqueue_last(3);
    assert_eq!(queue.peek_first(), Some(&1));
    assert_eq!(queue.peek_first(), Some(&1));
    assert_eq!(queue.peek_last(), Some(&3));
    assert_eq!(queue.peek_last(), Some(&3));
    assert_eq!(queue.len(), 3);
}

#[test]
/// The FIFO facade peeks at the oldest element, the one the next dequeue
/// returns.
fn fifo_peek_matches_dequeue() {
    let mut queue: ReallocatingFifo<i32> = ReallocatingFifo::with_capacity(2);
    assert_eq!(queue.peek(), None);
    queue.enqueue(1);
    queue.enqueue(2);
    queue.enqueue(3);
    assert_eq!(queue.peek(), Some(&1));
    assert_eq!(queue.dequeue(), Some(1));
    assert_eq!(queue.peek(), Some(&2));
    assert_eq!(queue.dequeue(), Some(2));
    assert_eq!(queue.peek(), Some(&3));
    assert_eq!(queue.dequeue(), Some(3));
    assert_eq!(queue.peek(), None);
}

#[test]
/// The FIFO facade returns elements exactly in insertion order, then the
/// empty outcome.
fn fifo_order_concrete() {
    let mut queue: ReallocatingFifo<i32> = ReallocatingFifo::new();
    for item in 0..100 {
        queue.enqueue(item);
    }
    for item in 0..100 {
        assert_eq!(queue.dequeue(), Some(item));
    }
    assert_eq!(queue.dequeue(), None);
}

#[test]
/// The zero-capacity request is raised to a usable minimum capacity.
fn zero_capacity_is_usable() {
    let mut queue: ReallocatingDeque<i32> = ReallocatingDeque::with_capacity(0);
    queue.enqueue_last(1);
    queue.enqueue_first(0);
    assert_eq!(queue.dequeue_first(), Some(0));
    assert_eq!(queue.dequeue_first(), Some(1));
    assert_eq!(queue.dequeue_first(), None);
}

#[test]
/// The plain unbounded FIFO grows past its default capacity and keeps order.
fn unbounded_fifo_grows_in_order() {
    let mut queue: UnboundedFifo<u32> = UnboundedFifo::new();
    assert_eq!(queue.len(), 0);
    assert_eq!(queue.peek(), None);
    assert_eq!(queue.dequeue(), None);
    for item in 0..600 {
        queue.enqueue(item);
    }
    assert_eq!(queue.len(), 600);
    assert_eq!(queue.peek(), Some(&0));
    for item in 0..600 {
        assert_eq!(queue.dequeue(), Some(item));
    }
    assert_eq!(queue.dequeue(), None);
    assert_eq!(queue.len(), 0);
}

#[test]
/// Mixed-end equivalence: under a randomized interleaving of front/back
/// insertions and removals, the queue matches a plain double-ended reference
/// sequence at every step in length, front value and back value.
fn mixed_end_matches_reference() {
    let mut queue: ReallocatingDeque<i32> = ReallocatingDeque::with_capacity(4);
    let mut reference: VecDeque<i32> = VecDeque::new();
    let mut rng = rand::thread_rng();

    for step in 0..20000 {
        match rng.gen_range(0..4) {
            0 => {
                queue.enqueue_first(step);
                reference.push_front(step);
            }
            1 => {
                queue.enqueue_last(step);
                reference.push_back(step);
            }
            2 => {
                assert_eq!(queue.dequeue_first(), reference.pop_front());
            }
            _ => {
                assert_eq!(queue.dequeue_last(), reference.pop_back());
            }
        }
        assert_eq!(queue.len(), reference.len());
        assert_eq!(queue.peek_first(), reference.front());
        assert_eq!(queue.peek_last(), reference.back());
    }
}

fn drain_fifo<Q: FifoQueue<i32>>(mut queue: Q) -> Vec<i32> {
    let mut out = Vec::new();
    while let Some(item) = queue.dequeue() {
        out.push(item);
    }
    out
}

#[test]
/// Generic use through the traits: the facades satisfy the trait interface.
fn trait_interface_round_trip() {
    let mut fifo: ReallocatingFifo<i32> = FifoQueue::with_capacity(2);
    fifo.enqueue(4);
    fifo.enqueue(5);
    fifo.enqueue(6);
    assert_eq!(drain_fifo(fifo), vec![4, 5, 6]);

    let mut deque: ReallocatingDeque<i32> = Deque::with_capacity(2);
    Deque::enqueue_first(&mut deque, 2);
    Deque::enqueue_last(&mut deque, 3);
    Deque::enqueue_first(&mut deque, 1);
    assert_eq!(Deque::len(&deque), 3);
    assert_eq!(Deque::peek_first(&deque), Some(&1));
    assert_eq!(Deque::peek_last(&deque), Some(&3));
    assert_eq!(Deque::dequeue_last(&mut deque), Some(3));
    assert_eq!(Deque::dequeue_first(&mut deque), Some(1));
    assert_eq!(Deque::dequeue_first(&mut deque), Some(2));
    assert!(Deque::is_empty(&deque));
}
