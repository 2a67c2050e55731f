pub(crate) mod internal_queue;
mod reallocating_deque;
mod reallocating_fifo;

pub use reallocating_deque::ReallocatingDeque;
pub use reallocating_fifo::ReallocatingFifo;
