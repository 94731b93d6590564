//! The lock-protected core of the channel, and the laws of its FIFO order.
//!
//! Everything in this module is verified sequential code: it is what every
//! critical section of the channel executes while the shared lock is held.

use std::collections::VecDeque;
use vstd::prelude::*;

verus! {

/// The state guarded by the channel's lock: the pending messages in FIFO
/// order, and the number of sender handles currently alive.
pub struct Inner<T> {
    queue: VecDeque<T>,
    senders: usize,
}

/// What one round of the receive loop decides, given the locked state.
pub enum Step<T> {
    /// A message was pending: its head, handed out now, and every message
    /// behind it, drained in one move so the receiver can serve them later
    /// without taking the lock again.
    Yield(T, VecDeque<T>),
    /// No message is pending and no sender is left: end of stream.
    Closed,
    /// No message is pending but a sender is still alive: the receiver must
    /// block until it is woken.
    Wait,
}

impl<T> Inner<T> {
    /// The pending messages, oldest first.
    pub closed spec fn msgs(&self) -> Seq<T> {
        self.queue@
    }

    /// How many sender handles are alive.
    pub closed spec fn live_senders(&self) -> nat {
        self.senders as nat
    }

    /// A fresh channel state: nothing pending, one sender (the one handed out
    /// by the constructor).
    pub fn new() -> (r: Inner<T>)
        ensures
            r.msgs() == Seq::<T>::empty(),
            r.live_senders() == 1,
    {
        Inner { queue: VecDeque::new(), senders: 1 }
    }

    /// Appends a message at the back of the queue; nothing else moves.
    pub fn enqueue(&mut self, t: T)
        ensures
            final(self).msgs() == old(self).msgs().push(t),
            final(self).live_senders() == old(self).live_senders(),
    {
        self.queue.push_back(t);
    }

    /// Counts one more live sender handle.  Total over every state, since it
    /// runs on whatever the lock guards: the count saturates instead of
    /// overflowing — unreachable in practice, as each counted handle occupies
    /// memory of its own.
    pub fn add_sender(&mut self)
        ensures
            old(self).live_senders() < usize::MAX ==> final(self).live_senders() == old(
                self,
            ).live_senders() + 1,
            old(self).live_senders() == usize::MAX ==> final(self).live_senders() == old(
                self,
            ).live_senders(),
            final(self).msgs() == old(self).msgs(),
    {
        if self.senders < usize::MAX {
            self.senders = self.senders + 1;
        }
    }

    /// Counts one live sender handle gone; reports whether it was the last,
    /// so that exactly the last one wakes a blocked receiver.  Total over
    /// every state: an already-zero count stays zero — and is never reported
    /// as a last handle — though a count below the number of live handles
    /// never arises, every handle being counted at birth.
    pub fn remove_sender(&mut self) -> (was_last: bool)
        ensures
            old(self).live_senders() >= 1 ==> final(self).live_senders() == old(
                self,
            ).live_senders() - 1,
            old(self).live_senders() == 0 ==> final(self).live_senders() == 0,
            final(self).msgs() == old(self).msgs(),
            was_last <==> old(self).live_senders() == 1,
        opens_invariants none
        no_unwind
    {
        let was_last = self.senders == 1;
        if self.senders > 0 {
            self.senders = self.senders - 1;
        }
        was_last
    }

    /// One round of the receive loop: pop the head and drain the whole
    /// remainder, or report end of stream, or report that waiting is the only
    /// option.  The three cases are exactly spec'd, so the channel's blocking
    /// shell carries no decision of its own.
    ///
    /// Law (end of stream is terminal): `Closed` is answered exactly at end
    /// of stream, and a state that answered `Closed` is still at end of
    /// stream afterwards — so every later round answers `Closed` again, and a
    /// receiver that saw the stream end sees it ended forever.
    pub fn step(&mut self) -> (r: Step<T>)
        ensures
            old(self).msgs().len() > 0 ==> ({
                &&& r matches Step::Yield(head, rest)
                &&& head == old(self).msgs().first()
                &&& rest@ == old(self).msgs().drop_first()
                &&& final(self).msgs() == Seq::<T>::empty()
            }),
            old(self).msgs().len() == 0 && old(self).live_senders() == 0 ==> ({
                &&& r is Closed
                &&& final(self).msgs() == old(self).msgs()
            }),
            old(self).msgs().len() == 0 && old(self).live_senders() > 0 ==> ({
                &&& r is Wait
                &&& final(self).msgs() == old(self).msgs()
            }),
            r is Closed <==> end_of_stream(old(self).msgs(), old(self).live_senders()),
            r is Closed ==> end_of_stream(final(self).msgs(), final(self).live_senders()),
            r is Wait <==> old(self).msgs().len() == 0 && old(self).live_senders() > 0,
            final(self).live_senders() == old(self).live_senders(),
    {
        match self.queue.pop_front() {
            Some(head) => {
                let mut rest: VecDeque<T> = VecDeque::new();
                rest.append(&mut self.queue);
                Step::Yield(head, rest)
            },
            None => {
                if self.senders == 0 {
                    Step::Closed
                } else {
                    Step::Wait
                }
            },
        }
    }

    /// Empties a state in which no sender is left.  Its contract is the
    /// verified statement of FIFO delivery: once the channel is closed, what
    /// the receiver collects is exactly the messages sent, in the order their
    /// sends were serialized by the lock, followed by end of stream.
    pub fn drain(&mut self) -> (r: Vec<T>)
        requires
            old(self).live_senders() == 0,
        ensures
            r@ == old(self).msgs(),
            final(self).msgs() == Seq::<T>::empty(),
            final(self).live_senders() == 0,
    {
        let ghost orig = self.msgs();
        let mut out: Vec<T> = Vec::new();
        match self.step() {
            Step::Yield(head, mut rest) => {
                out.push(head);
                proof {
                    assert(out@ + rest@ =~= orig);
                }
                while rest.len() > 0
                    invariant
                        out@ + rest@ == orig,
                        self.msgs() == Seq::<T>::empty(),
                        self.live_senders() == 0,
                    decreases rest@.len(),
                {
                    let t = rest.pop_front().unwrap();
                    out.push(t);
                    proof {
                        assert(out@ + rest@ =~= orig);
                    }
                }
                proof {
                    assert(out@ =~= orig);
                }
                out
            },
            Step::Closed => out,
            Step::Wait => vstd::pervasive::unreached(),
        }
    }
}

/// End of stream: nothing pending and no sender left.  Nothing can ever be
/// enqueued again — only a live sender enqueues — so the condition is
/// terminal, as [`Inner::step`]'s contract states.
pub open spec fn end_of_stream<T>(msgs: Seq<T>, senders: nat) -> bool {
    msgs.len() == 0 && senders == 0
}

/// The not-yet-consumed messages of the channel, as seen by the receiver: the
/// private buffer it drained ahead, then whatever still sits in the shared
/// queue.  The two halves partition the pending stream in that order.
pub open spec fn pending<T>(buffer: Seq<T>, queue: Seq<T>) -> Seq<T> {
    buffer + queue
}

/// Law: a send appends to the pending stream as a whole, wherever the
/// receiver's drain boundary happens to lie.
pub proof fn lemma_enqueue_extends_pending<T>(buffer: Seq<T>, queue: Seq<T>, t: T)
    ensures
        pending(buffer, queue.push(t)) == pending(buffer, queue).push(t),
{
    assert(pending(buffer, queue.push(t)) =~= pending(buffer, queue).push(t));
}

/// Law: the bulk drain performed by `step` does not reorder anything — taking
/// the head out of the shared queue and re-buffering the remainder leaves the
/// pending stream minus exactly its first element.
pub proof fn lemma_step_preserves_pending<T>(queue: Seq<T>)
    requires
        queue.len() > 0,
    ensures
        pending(queue.drop_first(), Seq::<T>::empty())
            == pending(Seq::<T>::empty(), queue).drop_first(),
{
    assert(pending(queue.drop_first(), Seq::<T>::empty())
        =~= pending(Seq::<T>::empty(), queue).drop_first());
}

/// Law: serving a message from the receiver's private buffer also consumes
/// exactly the head of the pending stream.
pub proof fn lemma_buffer_pop_preserves_pending<T>(buffer: Seq<T>, queue: Seq<T>)
    requires
        buffer.len() > 0,
    ensures
        pending(buffer.drop_first(), queue) == pending(buffer, queue).drop_first(),
        pending(buffer, queue).first() == buffer.first(),
{
    assert(pending(buffer.drop_first(), queue) =~= pending(buffer, queue).drop_first());
}

} // verus!

