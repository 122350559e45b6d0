//! Temporary ownership transfer for a single value.
//!
//! A value is lent to another execution context by converting it into a
//! `Borrowed` handle, which owns the value outright, and a paired `Return`
//! handle, which the origin keeps. The remote context reads and writes the
//! value through the `Borrowed` handle and gives it back, either explicitly
//! or when the handle is dropped. The origin blocks on `Return::wait` (or,
//! in the asynchronous variant, polls `AsyncReturn`) until the value comes
//! back and then owns it again. Each pair has its own private single-slot
//! channel; at most one delivery ever happens per pair.

use vstd::prelude::*;

mod asynchronous;

pub use crate::asynchronous::{AsyncBorrowOwned, AsyncBorrowed, AsyncReturn};

verus! {

/// Abstract state of a borrowed handle: the slot it still holds, paired with
/// the value it has already given back through its channel. `finalize_state`
/// is the effect of finalizing the handle once: an occupied slot is emptied
/// and its value becomes the value given back; an empty slot changes nothing.
pub open spec fn finalize_state<T>(slot: Option<T>, given: Option<T>) -> (Option<T>, Option<T>) {
    match slot {
        Some(v) => (None, Some(v)),
        None => (None, given),
    }
}

/// Round trip at the handle level: a freshly borrowed value, finalized at
/// once, is given back unchanged.
pub proof fn lemma_round_trip<T>(v: T)
    ensures
        finalize_state(Some(v), None::<T>) == (None::<T>, Some(v)),
{
}

/// Mutation visibility: when the slot was overwritten before finalization,
/// the value given back is the written value, and not the overwritten one.
pub proof fn lemma_mutation_visible<T>(v: T, w: T)
    ensures
        finalize_state(Some(w), None::<T>).1 == Some(w),
        v != w ==> finalize_state(Some(w), None::<T>).1 != Some(v),
{
}

/// Idempotent finalization: finalizing twice is the same as finalizing once.
/// The second finalization finds the slot empty, delivers nothing, and keeps
/// the value that the first one gave back.
pub proof fn lemma_finalize_idempotent<T>(slot: Option<T>, given: Option<T>)
    ensures
        finalize_state(
            finalize_state(slot, given).0,
            finalize_state(slot, given).1,
        ) == finalize_state(slot, given),
{
}

#[verifier::external_type_specification]
#[verifier::external_body]
#[verifier::reject_recursive_types(T)]
pub struct ExSender<T>(std::sync::mpsc::Sender<T>);

#[verifier::external_type_specification]
#[verifier::external_body]
#[verifier::reject_recursive_types(T)]
pub struct ExReceiver<T>(std::sync::mpsc::Receiver<T>);

/// Relies on std::sync::mpsc::channel: returns the two ends of a fresh
/// private channel, connected to each other and to nothing else.
#[verifier::external_body]
fn transfer_pair<T>() -> (std::sync::mpsc::Sender<T>, std::sync::mpsc::Receiver<T>) {
    std::sync::mpsc::channel()
}

/// Relies on std::sync::mpsc::Sender::send: delivers the value to the paired
/// receiver, or hands it back in the error when the receiver is gone. It does
/// not block and does not panic, so it never unwinds. A failed delivery is
/// deliberately dropped here: nobody was listening, which this design treats
/// as a successful no-op.
#[verifier::external_body]
fn transfer_send<T>(tx: &std::sync::mpsc::Sender<T>, v: T)
    opens_invariants none
    no_unwind
{
    let _ = tx.send(v);
}

/// Relies on std::sync::mpsc::Receiver::recv: blocks the calling thread until
/// a value arrives and returns it. Which value arrives, and whether one ever
/// does, is decided by the context holding the paired sender. recv reports an
/// error only on a channel that closed without a value; through this crate's
/// interface that cannot arise, because a [`Borrowed`] handle always delivers
/// its value before its send capability is released.
#[verifier::external_body]
fn transfer_recv<T>(rx: &std::sync::mpsc::Receiver<T>) -> T {
    rx.recv().unwrap()
}

/// Trait allowing objects to be temporarily moved elsewhere.
pub trait BorrowOwned: Sized {
    /// Borrow this object.
    ///
    /// The method returns a [`Borrowed`] wrapper which can be easily moved
    /// elsewhere (e.g. a separate thread) and a [`Return`] handle which can
    /// be used to wait until the borrow ends. The wrapper starts out holding
    /// exactly the borrowed value and has given nothing back yet.
    fn borrow_owned(self) -> (r: (Borrowed<Self>, Return<Self>))
        ensures
            r.0.wf(),
            r.0.is_occupied(),
            r.0.value() == self,
            r.0.given_back() is None,
    ;
}

impl<T: Sized> BorrowOwned for T {
    fn borrow_owned(self) -> (r: (Borrowed<Self>, Return<Self>)) {
        let (tx, rx) = transfer_pair::<Self>();
        let borrowed = Borrowed { tx, val: Some(self), returned: Ghost(None) };
        let ret = Return { rx };
        (borrowed, ret)
    }
}

/// Return handle: the origin's capability to reclaim the lent value.
#[verifier::reject_recursive_types(T)]
pub struct Return<T> {
    rx: std::sync::mpsc::Receiver<T>,
}

impl<T> Return<T> {
    /// Wait until the corresponding borrow ends and return the borrowed
    /// object.
    ///
    /// Which value comes back is decided by the context holding the paired
    /// [`Borrowed`] handle, so no more can be promised of the result here;
    /// the handle's own contract pins the delivered value. If the paired
    /// handle is leaked so that it never gives the value back, this call
    /// never returns — the accepted liveness non-goal of this design.
    pub fn wait(self) -> T {
        transfer_recv(&self.rx)
    }
}

/// Borrowed object: owns the lent value together with the send capability of
/// the pair's private channel.
#[verifier::reject_recursive_types(T)]
pub struct Borrowed<T> {
    tx: std::sync::mpsc::Sender<T>,
    val: Option<T>,
    returned: Ghost<Option<T>>,
}

impl<T> Borrowed<T> {
    /// The slot this handle still holds.
    pub closed spec fn slot(self) -> Option<T> {
        self.val
    }

    /// The value this handle has already given back through its channel.
    pub closed spec fn given_back(self) -> Option<T> {
        self.returned@
    }

    /// The slot is occupied: the value has not been given back yet.
    pub open spec fn is_occupied(self) -> bool {
        self.slot() is Some
    }

    /// The value the handle holds, while the slot is occupied.
    pub open spec fn value(self) -> T {
        self.slot().unwrap()
    }

    /// A handle either still holds the value or has given it back, never
    /// both and never neither: at most one delivery per channel, and the
    /// value is never duplicated.
    pub open spec fn wf(self) -> bool {
        self.is_occupied() <==> self.given_back() is None
    }

    /// Read access to the borrowed value.
    pub fn get(&self) -> (r: &T)
        requires
            self.is_occupied(),
        ensures
            *r == self.value(),
    {
        self.val.as_ref().unwrap()
    }

    /// Write access to the borrowed value: overwrite it.
    pub fn set(&mut self, v: T)
        requires
            old(self).is_occupied(),
        ensures
            final(self).is_occupied(),
            final(self).value() == v,
            final(self).given_back() == old(self).given_back(),
    {
        self.val = Some(v);
    }

    /// Write access to the borrowed value: swap a new value in and take the
    /// old one out, for values that cannot be cloned.
    pub fn replace(&mut self, v: T) -> (r: T)
        requires
            old(self).is_occupied(),
        ensures
            r == old(self).value(),
            final(self).is_occupied(),
            final(self).value() == v,
            final(self).given_back() == old(self).given_back(),
    {
        let mut slot = Some(v);
        core::mem::swap(&mut self.val, &mut slot);
        slot.unwrap()
    }

    /// Give the value back now, ending the borrow early.
    ///
    /// If the slot is occupied, the value moves into the pair's channel; a
    /// failed delivery (the origin dropped its [`Return`] handle) is silently
    /// ignored. If the slot is already empty, nothing happens: finalization
    /// is idempotent. Dropping the handle performs exactly this operation, so
    /// the value is given back on every exit path of the remote context. The
    /// operation never panics or unwinds.
    pub fn give_back(&mut self)
        ensures
            (final(self).slot(), final(self).given_back()) == finalize_state(
                old(self).slot(),
                old(self).given_back(),
            ),
            !final(self).is_occupied(),
            old(self).is_occupied() ==> final(self).given_back() == Some(old(self).value()),
            !old(self).is_occupied() ==> final(self).given_back() == old(self).given_back(),
            old(self).wf() ==> final(self).wf(),
        opens_invariants none
        no_unwind
    {
        let mut slot: Option<T> = None;
        core::mem::swap(&mut self.val, &mut slot);
        match slot {
            Some(v) => {
                proof {
                    self.returned@ = Some(v);
                }
                transfer_send(&self.tx, v);
            },
            None => {},
        }
    }
}

impl<T> Drop for Borrowed<T> {
    /// Tie the give-back guarantee to the handle's own teardown, so it runs
    /// on every exit path of the remote context, abnormal unwinding included.
    fn drop(&mut self)
        opens_invariants none
        no_unwind
    {
        self.give_back();
    }
}

} // verus!
