//! The trusted concurrency shell: the lock and the condition variable.
//!
//! Verus has no model of `std::sync`, so this module declares the three types
//! involved and wraps one std call each: the two constructors, acquiring the
//! lock, reaching the guarded state through the guard, and waking the
//! receiver.  The critical sections themselves — what runs between acquiring
//! and releasing the lock — are verified code below, built from the
//! exactly-specified methods of [`Inner`]; the one exception is the blocking
//! receive loop of [`Shared::take_batch`], whose reason is given there.
//!
//! A guard is opaque: nothing is known of the state it exposes, which is why
//! every contract of this crate speaks only of values that crossed the lock
//! boundary, and why the [`Inner`] methods are total — they hold of whatever
//! state the lock guards, with no requirement left to discharge.
//!
//! A poisoned lock (a thread panicking while holding the guard) is recovered
//! with `PoisonError::into_inner` instead of panicking: the only code that
//! ever runs under this lock is verified panic-free, so poisoning cannot
//! originate here, and recovering keeps the shell free of unwinding, as the
//! channel promises its callers.

use std::collections::VecDeque;
use std::sync::Arc;
use vstd::prelude::*;

use crate::state::{Inner, Step};

verus! {

/// Declares `std::sync::Mutex` to the verifier.  A value of it is opaque: the
/// guarded state can appear in no clause.
#[verifier::external_type_specification]
#[verifier::external_body]
#[verifier::reject_recursive_types(T)]
pub struct ExMutex<T: ?Sized>(std::sync::Mutex<T>);

/// Declares `std::sync::MutexGuard`, the witness of holding the lock; opaque
/// as well.
#[verifier::external_type_specification]
#[verifier::external_body]
#[verifier::reject_recursive_types(T)]
pub struct ExMutexGuard<'a, T: ?Sized + 'a>(std::sync::MutexGuard<'a, T>);

/// Declares `std::sync::Condvar`; opaque as well.
#[verifier::external_type_specification]
#[verifier::external_body]
pub struct ExCondvar(std::sync::Condvar);

/// The state jointly owned by every handle of one channel: the guarded
/// [`Inner`], and the condition variable a starved receiver parks on.
#[verifier::reject_recursive_types(T)]
pub struct Shared<T> {
    inner: std::sync::Mutex<Inner<T>>,
    available: std::sync::Condvar,
}

/// Relies on `std::sync::Mutex::new`: wraps the given state and nothing else.
#[verifier::external_body]
fn mutex_new<T>(t: T) -> std::sync::Mutex<T>
    no_unwind
{
    std::sync::Mutex::new(t)
}

/// Relies on `std::sync::Condvar::new`: a fresh condition variable.
#[verifier::external_body]
fn condvar_new() -> std::sync::Condvar
    no_unwind
{
    std::sync::Condvar::new()
}

/// Relies on `Arc::clone`: the new handle points at the same shared value.
#[verifier::external_body]
pub(crate) fn arc_share<T>(a: &Arc<T>) -> (r: Arc<T>)
    ensures
        r == *a,
    no_unwind
{
    Arc::clone(a)
}

/// Relies on `std::sync::MutexGuard`'s `DerefMut`: the exclusive reference to
/// the guarded state, good while the guard is held.  Nothing is known of the
/// value behind it.
#[verifier::external_body]
fn guard_inner<'a, 'b, T>(g: &'b mut std::sync::MutexGuard<'a, Inner<T>>) -> &'b mut Inner<T>
    opens_invariants none
    no_unwind
{
    &mut **g
}

impl<T> Shared<T> {
    /// Puts a fresh channel state under a fresh lock.
    pub(crate) fn new(inner: Inner<T>) -> Shared<T> {
        Shared { inner: mutex_new(inner), available: condvar_new() }
    }

    /// Relies on `std::sync::Mutex::lock`: blocks until the lock is held and
    /// hands out the guard.
    #[verifier::external_body]
    fn lock(&self) -> std::sync::MutexGuard<'_, Inner<T>>
        opens_invariants none
        no_unwind
    {
        match self.inner.lock() { Ok(g) => g, Err(e) => e.into_inner() }
    }

    /// Relies on `std::sync::Condvar::notify_one`: wakes at most one parked
    /// receiver; with nobody parked it does nothing.
    #[verifier::external_body]
    pub(crate) fn notify(&self)
        opens_invariants none
        no_unwind
    {
        self.available.notify_one();
    }

    /// One critical section: [`Inner::enqueue`] under the lock.
    pub(crate) fn enqueue(&self, t: T) {
        let mut guard = self.lock();
        guard_inner(&mut guard).enqueue(t);
    }

    /// One critical section: [`Inner::add_sender`] under the lock.
    pub(crate) fn add_sender(&self) {
        let mut guard = self.lock();
        guard_inner(&mut guard).add_sender();
    }

    /// One critical section: [`Inner::remove_sender`] under the lock.  The
    /// answer — whether the last sender is now gone — is decided under the
    /// same lock acquisition as the decrement itself; that atomicity is what
    /// rules out a lost wakeup, for a receiver can never read the count
    /// between the decrement and the decision.
    pub(crate) fn remove_sender(&self) -> bool
        opens_invariants none
        no_unwind
    {
        let mut guard = self.lock();
        guard_inner(&mut guard).remove_sender()
    }

    /// The receive loop, relying on `std::sync::Mutex::lock` and
    /// `std::sync::Condvar::wait`: step under the lock, and park on the
    /// condition variable — giving the lock up while parked, atomically, so a
    /// wakeup between the step and the parking cannot be lost — as long as
    /// the verified [`Inner::step`] finds nothing pending and senders alive.
    /// Returns a pending batch, or `None` for end of stream.  Nothing can be
    /// promised of the result: what each step sees depends on which sends won
    /// the lock first.
    ///
    /// This one loop is trusted where every other critical section is
    /// verified: a verified loop must carry a termination measure, and a
    /// receive that blocks until some other thread sends has none.  What the
    /// loop trusts is retry-on-`Wait` alone — each round's entire decision is
    /// the exactly-specified `step`, which requires nothing of the state it
    /// runs on.
    #[verifier::external_body]
    pub(crate) fn take_batch(&self) -> Option<(T, VecDeque<T>)>
        no_unwind
    {
        let mut guard = match self.inner.lock() { Ok(g) => g, Err(e) => e.into_inner() };
        loop {
            match guard.step() {
                Step::Yield(head, rest) => return Some((head, rest)),
                Step::Closed => return None,
                Step::Wait => {
                    guard = match self.available.wait(guard) { Ok(g) => g, Err(e) => e.into_inner() };
                },
            }
        }
    }
}

} // verus!
