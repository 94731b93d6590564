//! A multi-producer, single-consumer message channel.
//!
//! Any number of cloneable [`Sender`] handles feed one [`Receiver`] through a
//! shared FIFO queue guarded by a lock and a condition variable.  The queue
//! bookkeeping — enqueueing, the receive decision, sender reference counting,
//! and the receiver's private read-ahead buffer — is verified; the thin shell
//! that holds the lock and parks on the condition variable is declared in
//! [`sync`] and trusted.

mod channel;
mod state;
mod sync;

pub use channel::{channel, Receiver, Sender};
pub use state::{end_of_stream, pending, Inner, Step};
pub use state::{
    lemma_buffer_pop_preserves_pending, lemma_enqueue_extends_pending,
    lemma_step_preserves_pending,
};
pub use sync::Shared;
