use vstd::arithmetic::div_mod::lemma_fundamental_div_mod;
use vstd::arithmetic::div_mod::lemma_fundamental_div_mod_converse_mod;
use vstd::arithmetic::div_mod::lemma_mod_division_less_than_divisor;
use vstd::arithmetic::div_mod::lemma_small_mod;
use vstd::prelude::*;

verus! {

/// Physical index of the element `offset` places after index `head` in a ring
/// of `cap` slots.  Meaningful for `0 <= head < cap` and `0 <= offset <= cap`,
/// where the sum wraps past the end of the store at most once.
spec fn slot(head: int, offset: int, cap: int) -> int {
    if head + offset < cap {
        head + offset
    } else {
        head + offset - cap
    }
}

proof fn lemma_mod_succ(base: int, wrap: int)
    requires
        0 <= base,
        1 <= wrap,
    ensures
        (base + 1) % wrap == if base % wrap + 1 == wrap {
            0int
        } else {
            base % wrap + 1
        },
{
    lemma_fundamental_div_mod(base, wrap);
    lemma_mod_division_less_than_divisor(base, wrap);
    if base % wrap + 1 == wrap {
        assert((base / wrap + 1) * wrap == wrap * (base / wrap) + wrap) by (nonlinear_arith);
        lemma_fundamental_div_mod_converse_mod(base + 1, wrap, base / wrap + 1, 0);
    } else {
        assert((base / wrap) * wrap == wrap * (base / wrap)) by (nonlinear_arith);
        lemma_fundamental_div_mod_converse_mod(base + 1, wrap, base / wrap, base % wrap + 1);
    }
}

proof fn lemma_mod_pred(base: int, wrap: int)
    requires
        0 <= base,
        1 <= wrap,
    ensures
        (base + wrap - 1) % wrap == if base % wrap == 0 {
            wrap - 1
        } else {
            base % wrap - 1
        },
{
    lemma_fundamental_div_mod(base, wrap);
    lemma_mod_division_less_than_divisor(base, wrap);
    if base % wrap == 0 {
        assert((base / wrap) * wrap == wrap * (base / wrap)) by (nonlinear_arith);
        lemma_fundamental_div_mod_converse_mod(base + wrap - 1, wrap, base / wrap, wrap - 1);
    } else {
        assert((base / wrap + 1) * wrap == wrap * (base / wrap) + wrap) by (nonlinear_arith);
        lemma_fundamental_div_mod_converse_mod(
            base + wrap - 1,
            wrap,
            base / wrap + 1,
            base % wrap - 1,
        );
    }
}

/// Increments `base` by 1 in modular arithmetic with modulus `wrap`, reducing
/// `base` modulo `wrap` first when it lies outside the ring.
fn wrapping_inc(base: usize, wrap: usize) -> (r: usize)
    requires
        1 <= wrap,
    ensures
        r == (base + 1) % (wrap as int),
        r < wrap,
        base < wrap ==> r == if base + 1 == wrap {
            0int
        } else {
            base + 1
        },
{
    let reduced: usize = if base >= wrap {
        base % wrap
    } else {
        base
    };
    proof {
        if base < wrap {
            lemma_small_mod(base as nat, wrap as nat);
        }
        lemma_mod_succ(base as int, wrap as int);
    }
    if reduced + 1 != wrap {
        reduced + 1
    } else {
        0
    }
}

/// Decrements `base` by 1 in modular arithmetic with modulus `wrap`, reducing
/// `base` modulo `wrap` first when it lies outside the ring.  The zero case
/// wraps to `wrap - 1` without ever subtracting below zero.
fn wrapping_dec(base: usize, wrap: usize) -> (r: usize)
    requires
        1 <= wrap,
    ensures
        r == (base + wrap - 1) % (wrap as int),
        r < wrap,
        base < wrap ==> r == if base == 0 {
            wrap - 1
        } else {
            base - 1
        },
{
    let reduced: usize = if base >= wrap {
        base % wrap
    } else {
        base
    };
    proof {
        if base < wrap {
            lemma_small_mod(base as nat, wrap as nat);
        }
        lemma_mod_pred(base as int, wrap as int);
    }
    if reduced != 0 {
        reduced - 1
    } else {
        wrap - 1
    }
}

/// The ring-buffer engine: an unbounded double-ended queue inside a
/// fixed-capacity circular store that is reallocated to twice the size when
/// it fills up.
///
/// The logical content occupies the `size` slots starting at `head` and
/// advancing with wrap-around; all other slots are unused.
pub(crate) struct ReallocatingQueue<T: Clone> {
    /// The circular store; every slot inside the logical window holds `Some`.
    buffer: Vec<Option<T>>,
    /// The number of elements currently held.
    size: usize,
    /// Index of the logical front element (when `size > 0`).
    head: usize,
    /// Index at which the next back-insertion writes.
    tail: usize,
}

impl<T: Clone> View for ReallocatingQueue<T> {
    type V = Seq<T>;

    closed spec fn view(&self) -> Seq<T> {
        Seq::new(
            self.size as nat,
            |offset: int| self.buffer@[slot(self.head as int, offset, self.cap())]->0,
        )
    }
}

impl<T: Clone> ReallocatingQueue<T> {
    /// Capacity of the current backing store.
    pub(crate) closed spec fn cap(&self) -> int {
        self.buffer@.len() as int
    }

    /// The engine's internal invariant: the indices lie inside the store,
    /// `tail` names the slot one past the back of the logical window, and
    /// every slot of the window is occupied.
    pub(crate) closed spec fn well_formed(&self) -> bool {
        &&& 1 <= self.cap()
        &&& self.size <= self.cap()
        &&& self.head < self.cap()
        &&& self.tail < self.cap()
        &&& self.tail == slot(self.head as int, self.size as int, self.cap())
        &&& forall|offset: int|
            0 <= offset < self.size ==> self.buffer@[#[trigger] slot(
                self.head as int,
                offset,
                self.cap(),
            )] is Some
    }

    /// Allocates a new, empty queue with a default capacity of 64.
    pub(crate) fn new() -> (r: Self)
        ensures
            r.well_formed(),
            r@ == Seq::<T>::empty(),
            r.cap() == 64,
    {
        Self::with_capacity(64)
    }

    /// Allocates a new, empty queue able to hold `capacity` elements before
    /// its first reallocation.  A zero capacity is raised to one so that the
    /// wrapping index arithmetic always has a positive modulus.
    pub(crate) fn with_capacity(capacity: usize) -> (r: Self)
        ensures
            r.well_formed(),
            r@ == Seq::<T>::empty(),
            r.cap() == if capacity == 0 {
                1int
            } else {
                capacity as int
            },
    {
        let cap: usize = if capacity == 0 {
            1
        } else {
            capacity
        };
        let mut buffer: Vec<Option<T>> = Vec::with_capacity(cap);
        let mut filled: usize = 0;
        while filled < cap
            invariant
                filled <= cap,
                buffer@.len() == filled,
            decreases cap - filled,
        {
            buffer.push(None);
            filled = filled + 1;
        }
        let r = ReallocatingQueue { buffer, size: 0, head: 0, tail: 0 };
        proof {
            assert(r@ =~= Seq::<T>::empty());
        }
        r
    }

    /// Returns the number of elements currently in the queue.
    pub(crate) fn len(&self) -> (r: usize)
        ensures
            r == self@.len(),
    {
        self.size
    }

    /// Capacity of the current backing store.
    fn capacity(&self) -> (r: usize)
        ensures
            r == self.cap(),
    {
        self.buffer.len()
    }

    /// Returns `tail` incremented by 1, modulo the capacity.
    fn inc_tail(&self) -> (r: usize)
        requires
            self.well_formed(),
        ensures
            r == if self.tail + 1 == self.cap() {
                0int
            } else {
                self.tail + 1
            },
    {
        wrapping_inc(self.tail, self.capacity())
    }

    /// Returns `tail` decremented by 1, modulo the capacity.
    fn dec_tail(&self) -> (r: usize)
        requires
            self.well_formed(),
        ensures
            r == if self.tail == 0 {
                self.cap() - 1
            } else {
                self.tail - 1
            },
    {
        wrapping_dec(self.tail, self.capacity())
    }

    /// Returns `head` incremented by 1, modulo the capacity.
    fn inc_head(&self) -> (r: usize)
        requires
            self.well_formed(),
        ensures
            r == if self.head + 1 == self.cap() {
                0int
            } else {
                self.head + 1
            },
    {
        wrapping_inc(self.head, self.capacity())
    }

    /// Returns `head` decremented by 1, modulo the capacity.
    fn dec_head(&self) -> (r: usize)
        requires
            self.well_formed(),
        ensures
            r == if self.head == 0 {
                self.cap() - 1
            } else {
                self.head - 1
            },
    {
        wrapping_dec(self.head, self.capacity())
    }

    /// Moves the logical content into a fresh store of capacity `capacity`,
    /// front element first, so that afterwards the content lies contiguously
    /// at the start of the store: the head lands on slot zero and the tail
    /// on the slot one past the content, wrapped back to zero when the
    /// content fills the new store exactly.  The capacity may never shrink
    /// below the element count; the growth policy of the insertion
    /// operations keeps this unreachable from the public interface.
    fn reallocate(&mut self, capacity: usize)
        requires
            old(self).well_formed(),
            old(self)@.len() <= capacity,
            1 <= capacity,
        ensures
            final(self).well_formed(),
            final(self)@ == old(self)@,
            final(self).cap() == capacity,
            final(self).head == 0,
            final(self).tail == if old(self)@.len() < capacity {
                old(self)@.len() as int
            } else {
                0int
            },
    {
        let mut new_buffer: Vec<Option<T>> = Vec::with_capacity(capacity);
        let mut index: usize = self.head;
        let mut moved: usize = 0;
        while moved < self.size
            invariant
                moved <= self.size,
                self.size == old(self).size,
                self.head == old(self).head,
                self.buffer@.len() == old(self).buffer@.len(),
                1 <= self.cap(),
                self.size <= self.cap(),
                self.head < self.cap(),
                index == slot(self.head as int, moved as int, self.cap()),
                new_buffer@.len() == moved,
                forall|j: int|
                    moved <= j < self.size ==> self.buffer@[#[trigger] slot(
                        self.head as int,
                        j,
                        self.cap(),
                    )] == old(self).buffer@[slot(self.head as int, j, self.cap())],
                forall|j: int|
                    0 <= j < moved ==> new_buffer@[j] == old(self).buffer@[#[trigger] slot(
                        self.head as int,
                        j,
                        self.cap(),
                    )],
            decreases self.size - moved,
        {
            let taken = self.buffer[index].take();
            new_buffer.push(taken);
            index = wrapping_inc(index, self.capacity());
            moved = moved + 1;
        }
        while new_buffer.len() < capacity
            invariant
                self.size == old(self).size,
                self.size <= new_buffer@.len(),
                new_buffer@.len() <= capacity,
                forall|j: int|
                    0 <= j < self.size ==> new_buffer@[j] == old(self).buffer@[#[trigger] slot(
                        old(self).head as int,
                        j,
                        old(self).cap(),
                    )],
            decreases capacity - new_buffer@.len(),
        {
            new_buffer.push(None);
        }
        self.buffer = new_buffer;
        self.head = 0;
        self.tail = if self.size < capacity {
            self.size
        } else {
            0
        };
        proof {
            assert forall|j: int| 0 <= j < self.size implies self.buffer@[slot(
                0,
                j,
                self.cap(),
            )] == old(self).buffer@[slot(old(self).head as int, j, old(self).cap())] by {
                assert(slot(0, j, capacity as int) == j);
            }
            assert(self@ =~= old(self)@);
        }
    }

    /// Inserts `item` at the front of the queue.  The store is reallocated
    /// to twice the element count if and only if it is full at entry, and
    /// the capacity never shrinks.
    pub(crate) fn enqueue_first(&mut self, item: T)
        requires
            old(self).well_formed(),
            old(self)@.len() < usize::MAX / 2,
        ensures
            final(self).well_formed(),
            final(self)@ == old(self)@.insert(0, item),
            final(self).cap() == if old(self)@.len() < old(self).cap() {
                old(self).cap()
            } else {
                2 * old(self)@.len() as int
            },
            old(self).cap() <= final(self).cap(),
    {
        if self.size == self.capacity() {
            let doubled: usize = self.size * 2;
            self.reallocate(doubled);
        }
        let ghost pre = *self;
        let target: usize = self.dec_head();
        self.buffer[target] = Some(item);
        self.head = target;
        self.size = self.size + 1;
        proof {
            assert forall|offset: int|
                0 <= offset < self.size implies self.buffer@[#[trigger] slot(
                self.head as int,
                offset,
                self.cap(),
            )] is Some by {
                if offset > 0 {
                    assert(pre.buffer@[slot(pre.head as int, offset - 1, pre.cap())] is Some);
                }
            }
            assert(self@ =~= old(self)@.insert(0, item));
        }
    }

    /// Appends `item` at the back of the queue.  The store is reallocated
    /// to twice the element count if and only if it is full at entry, and
    /// the capacity never shrinks.
    pub(crate) fn enqueue_last(&mut self, item: T)
        requires
            old(self).well_formed(),
            old(self)@.len() < usize::MAX / 2,
        ensures
            final(self).well_formed(),
            final(self)@ == old(self)@.push(item),
            final(self).cap() == if old(self)@.len() < old(self).cap() {
                old(self).cap()
            } else {
                2 * old(self)@.len() as int
            },
            old(self).cap() <= final(self).cap(),
    {
        if self.size == self.capacity() {
            let doubled: usize = self.size * 2;
            self.reallocate(doubled);
        }
        let target: usize = self.tail;
        self.buffer[target] = Some(item);
        self.tail = self.inc_tail();
        self.size = self.size + 1;
        proof {
            assert(self@ =~= old(self)@.push(item));
        }
    }

    /// Removes and returns the front element, or `None` when the queue is
    /// empty.
    pub(crate) fn dequeue_first(&mut self) -> (r: Option<T>)
        requires
            old(self).well_formed(),
        ensures
            final(self).well_formed(),
            final(self).cap() == old(self).cap(),
            old(self)@.len() == 0 ==> r is None && final(self)@ == old(self)@,
            old(self)@.len() > 0 ==> r == Some(old(self)@.first()) && final(self)@ == old(
                self,
            )@.drop_first(),
    {
        if self.size > 0 {
            let new_head: usize = self.inc_head();
            let source: usize = self.head;
            proof {
                assert(self.buffer@[slot(self.head as int, 0, self.cap())] is Some);
            }
            let item = self.buffer[source].take();
            self.head = new_head;
            self.size = self.size - 1;
            proof {
                assert forall|offset: int|
                    0 <= offset < self.size implies self.buffer@[#[trigger] slot(
                    self.head as int,
                    offset,
                    self.cap(),
                )] is Some by {
                    assert(old(self).buffer@[slot(
                        old(self).head as int,
                        offset + 1,
                        old(self).cap(),
                    )] is Some);
                }
                assert(self@ =~= old(self)@.drop_first());
            }
            item
        } else {
            None
        }
    }

    /// Removes and returns the back element, or `None` when the queue is
    /// empty.  The back index is recomputed with the wrapping helper, so the
    /// step from `tail == 0` to the last slot never underflows.
    pub(crate) fn dequeue_last(&mut self) -> (r: Option<T>)
        requires
            old(self).well_formed(),
        ensures
            final(self).well_formed(),
            final(self).cap() == old(self).cap(),
            old(self)@.len() == 0 ==> r is None && final(self)@ == old(self)@,
            old(self)@.len() > 0 ==> r == Some(old(self)@.last()) && final(self)@ == old(
                self,
            )@.drop_last(),
    {
        if self.size > 0 {
            let new_tail: usize = self.dec_tail();
            proof {
                assert(new_tail == slot(self.head as int, self.size as int - 1, self.cap()));
                assert(self.buffer@[slot(self.head as int, self.size as int - 1, self.cap())]
                    is Some);
            }
            let item = self.buffer[new_tail].take();
            self.tail = new_tail;
            self.size = self.size - 1;
            proof {
                assert forall|offset: int|
                    0 <= offset < self.size implies self.buffer@[#[trigger] slot(
                    self.head as int,
                    offset,
                    self.cap(),
                )] is Some by {
                    assert(old(self).buffer@[slot(
                        old(self).head as int,
                        offset,
                        old(self).cap(),
                    )] is Some);
                }
                assert(self@ =~= old(self)@.drop_last());
            }
            item
        } else {
            None
        }
    }

    /// Borrows the front element, or returns `None` when the queue is empty.
    pub(crate) fn peek_first(&self) -> (r: Option<&T>)
        requires
            self.well_formed(),
        ensures
            self@.len() == 0 ==> r is None,
            self@.len() > 0 ==> (r matches Some(item) && *item == self@.first()),
    {
        if self.size > 0 {
            proof {
                assert(self.buffer@[slot(self.head as int, 0, self.cap())] is Some);
            }
            self.buffer[self.head].as_ref()
        } else {
            None
        }
    }

    /// Borrows the back element, or returns `None` when the queue is empty.
    pub(crate) fn peek_last(&self) -> (r: Option<&T>)
        requires
            self.well_formed(),
        ensures
            self@.len() == 0 ==> r is None,
            self@.len() > 0 ==> (r matches Some(item) && *item == self@.last()),
    {
        if self.size > 0 {
            let source: usize = self.dec_tail();
            proof {
                assert(source == slot(self.head as int, self.size as int - 1, self.cap()));
                assert(self.buffer@[slot(self.head as int, self.size as int - 1, self.cap())]
                    is Some);
            }
            self.buffer[source].as_ref()
        } else {
            None
        }
    }
}

} // verus!
