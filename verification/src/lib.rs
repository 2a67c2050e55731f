//! Unbounded queues backed by a growable circular buffer.
//!
//! The crate offers first-in-first-out queues and a double-ended queue, all
//! thin facades over a single ring-buffer engine that reallocates its backing
//! store to twice the size whenever it fills up.  Every operation carries a
//! contract over the queue's abstract content, a sequence of elements in
//! front-to-back order.

mod queue_traits;
mod reallocating_queues;
mod unbounded_fifo;

pub mod queue_laws;

pub use queue_traits::Deque;
pub use queue_traits::FifoQueue;
pub use reallocating_queues::ReallocatingDeque;
pub use reallocating_queues::ReallocatingFifo;
pub use unbounded_fifo::UnboundedFifo;
