//! The channel's handles: the cloneable [`Sender`], the single [`Receiver`]
//! with its private read-ahead buffer, and the constructor that ties one of
//! each to the same shared state.

use std::collections::VecDeque;
use std::sync::Arc;
use vstd::prelude::*;

use crate::state::Inner;
use crate::sync::{arc_share, Shared};

verus! {

/// A producer handle.  Any number may be alive at once — every clone is a
/// distinct owning handle, counted individually — and each may be moved to
/// its own thread.
#[verifier::reject_recursive_types(T)]
pub struct Sender<T> {
    shared: Arc<Shared<T>>,
}

/// The sole consumer handle.  Besides its reference to the shared state it
/// owns a private, unsynchronized buffer: when a receive finds several
/// messages pending it drains all of them under one lock acquisition, and
/// later receives are served from the buffer without touching the lock.
#[verifier::reject_recursive_types(T)]
pub struct Receiver<T> {
    shared: Arc<Shared<T>>,
    buffer: VecDeque<T>,
}

impl<T> Sender<T> {
    /// The shared state this handle feeds.
    pub closed spec fn shared_state(&self) -> Arc<Shared<T>> {
        self.shared
    }

    /// Appends `t` at the back of the shared queue, then wakes at most one
    /// blocked receive.  Infallible: it succeeds — silently — even when the
    /// receiver is already gone, and never blocks beyond lock contention.
    /// The enqueueing itself is the verified [`Inner::enqueue`]; this handle
    /// is left untouched.
    pub fn send(&mut self, t: T)
        ensures
            *final(self) == *old(self),
    {
        self.shared.enqueue(t);
        self.shared.notify();
    }
}

impl<T> Clone for Sender<T> {
    /// Registers one more live sender in the shared count — under the lock,
    /// via the verified [`Inner::add_sender`] — and hands back a handle to
    /// the very same shared state.
    fn clone(&self) -> (r: Self)
        ensures
            r == *self,
    {
        self.shared.add_sender();
        Sender { shared: arc_share(&self.shared) }
    }
}

impl<T> Drop for Sender<T> {
    /// Deregisters this handle via the verified [`Inner::remove_sender`].
    /// Exactly when it was the last one alive, the receiver is woken once, so
    /// that a receive blocked on a forever-empty queue can observe end of
    /// stream.  Whether this was the last handle is decided under the same
    /// lock acquisition as the decrement; see [`Shared::remove_sender`].
    fn drop(&mut self)
        opens_invariants none
        no_unwind
    {
        let was_last = self.shared.remove_sender();
        if was_last {
            self.shared.notify();
        }
    }
}

impl<T> Receiver<T> {
    /// The shared state this handle consumes from.
    pub closed spec fn shared_state(&self) -> Arc<Shared<T>> {
        self.shared
    }

    /// The messages already drained ahead into the private buffer, oldest
    /// first.
    pub closed spec fn buffered(&self) -> Seq<T> {
        self.buffer@
    }

    /// Receives the next message, blocking while the queue is empty and a
    /// sender is still alive; `None` is end of stream, the normal — not
    /// erroneous — sign that every sender is gone and nothing more can ever
    /// arrive.
    ///
    /// The fast path is exactly specified: a non-empty buffer hands out its
    /// head, no lock taken.  With an empty buffer the result comes from the
    /// shared queue through [`Shared::take_batch`], whose contents depend on
    /// which sends won the lock; what this function then does with the batch
    /// is the verified [`Receiver::accept_batch`].
    pub fn recv(&mut self) -> (r: Option<T>)
        ensures
            old(self).buffered().len() > 0 ==> ({
                &&& r == Some(old(self).buffered().first())
                &&& final(self).buffered() == old(self).buffered().drop_first()
            }),
            old(self).buffered().len() == 0 && r is None ==> final(self).buffered()
                == Seq::<T>::empty(),
    {
        if let Some(t) = self.buffer.pop_front() {
            return Some(t);
        }
        match self.shared.take_batch() {
            Some((head, rest)) => Some(self.accept_batch(head, rest)),
            None => None,
        }
    }

    /// Installs a batch drained from the shared queue: the head is handed out
    /// now, everything behind it refills the private buffer, in order.  This
    /// is the whole of what a receive does with a batch, kept public so the
    /// slow path's bookkeeping is pinned down by an exact contract.
    pub fn accept_batch(&mut self, head: T, rest: VecDeque<T>) -> (r: T)
        requires
            old(self).buffered().len() == 0,
        ensures
            r == head,
            final(self).buffered() == rest@,
    {
        self.buffer = rest;
        head
    }

    /// The iterator step over the receiver: each call yields the next message
    /// of the lazy, single-pass stream, and `None` — end of stream — ends it
    /// for good.
    pub fn next(&mut self) -> (r: Option<T>)
        ensures
            old(self).buffered().len() > 0 ==> ({
                &&& r == Some(old(self).buffered().first())
                &&& final(self).buffered() == old(self).buffered().drop_first()
            }),
            old(self).buffered().len() == 0 && r is None ==> final(self).buffered()
                == Seq::<T>::empty(),
    {
        self.recv()
    }

    /// Consuming spelling of the iteration idiom: the receiver is its own
    /// stream, walked with [`Receiver::next`] until end of stream.  Not
    /// restartable — each message is consumed exactly once.
    pub fn into_iter(self) -> (r: Receiver<T>)
        ensures
            r == self,
    {
        self
    }
}

/// Creates a channel: one [`Sender`] and the one [`Receiver`], both referring
/// to the same fresh shared state — an empty queue and a live-sender count of
/// one, as [`Inner::new`] ensures — and an empty private buffer.
pub fn channel<T>() -> (r: (Sender<T>, Receiver<T>))
    ensures
        r.0.shared_state() == r.1.shared_state(),
        r.1.buffered() == Seq::<T>::empty(),
{
    let shared = Arc::new(Shared::new(Inner::new()));
    let sender = Sender { shared: arc_share(&shared) };
    let receiver = Receiver { shared, buffer: VecDeque::new() };
    (sender, receiver)
}

} // verus!

