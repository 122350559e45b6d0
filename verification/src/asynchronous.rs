//! Asynchronous variant of the borrow primitive.
//!
//! Identical data flow to the blocking variant; only the return handle's
//! consumption differs. `AsyncReturn` is polled instead of waited on: it
//! reports "not ready" and registers the given waker while the value is still
//! lent out, and reports the value once the paired handle has given it back.

use core::future::Future;
use vstd::prelude::*;

use crate::finalize_state;

verus! {

#[verifier::external_type_specification]
#[verifier::external_body]
#[verifier::reject_recursive_types(T)]
pub struct ExOneshotSender<T>(futures_channel::oneshot::Sender<T>);

#[verifier::external_type_specification]
#[verifier::external_body]
#[verifier::reject_recursive_types(T)]
pub struct ExOneshotReceiver<T>(futures_channel::oneshot::Receiver<T>);

#[verifier::external_type_specification]
#[verifier::external_body]
pub struct ExCanceled(futures_channel::oneshot::Canceled);

#[verifier::external_type_specification]
#[verifier::external_body]
pub struct ExWaker(core::task::Waker);

/// Relies on futures_channel::oneshot::channel: returns the two ends of a
/// fresh one-shot channel, connected to each other and to nothing else.
#[verifier::external_body]
fn oneshot_pair<T>() -> (futures_channel::oneshot::Sender<T>, futures_channel::oneshot::Receiver<T>) {
    futures_channel::oneshot::channel()
}

/// Relies on futures_channel::oneshot::Sender::send: stores the value for the
/// paired receiver and, as the consumed sender is dropped, wakes the waker the
/// receiver registered, or hands the value back in the error when the receiver
/// is gone. Neither step panics (a waker's wake contract does not allow
/// unwinding into the channel), so the call never unwinds. A failed delivery
/// is deliberately dropped here: nobody was listening, which this design
/// treats as a successful no-op.
#[verifier::external_body]
fn oneshot_send<T>(tx: futures_channel::oneshot::Sender<T>, v: T)
    opens_invariants none
    no_unwind
{
    let _ = tx.send(v);
}

/// Relies on the Future implementation of futures_channel::oneshot::Receiver:
/// once the paired sender has delivered a value, polling is ready with that
/// value, exactly once; before that, polling is pending and the given waker is
/// registered to be woken on delivery. A channel whose sender is gone without
/// having delivered, and a receiver that has already yielded its value, are
/// reported as not ready.
#[verifier::external_body]
fn oneshot_poll<T>(rx: &mut futures_channel::oneshot::Receiver<T>, w: &core::task::Waker) -> Option<T> {
    let mut cx = core::task::Context::from_waker(w);
    match core::pin::Pin::new(rx).poll(&mut cx) {
        core::task::Poll::Ready(Ok(v)) => Some(v),
        core::task::Poll::Ready(Err(_)) => None,
        core::task::Poll::Pending => None,
    }
}

/// Trait allowing objects to be temporarily moved elsewhere.
pub trait AsyncBorrowOwned: Sized {
    /// Borrow this object.
    ///
    /// The method returns an [`AsyncBorrowed`] wrapper which can be easily
    /// moved elsewhere (e.g. a separate task) and an [`AsyncReturn`] handle
    /// which can be polled until the borrow ends. The wrapper starts out
    /// holding exactly the borrowed value and has given nothing back yet.
    fn async_borrow_owned(self) -> (r: (AsyncBorrowed<Self>, AsyncReturn<Self>))
        ensures
            r.0.wf(),
            r.0.is_occupied(),
            r.0.value() == self,
            r.0.given_back() is None,
    ;
}

impl<T: Sized> AsyncBorrowOwned for T {
    fn async_borrow_owned(self) -> (r: (AsyncBorrowed<Self>, AsyncReturn<Self>)) {
        let (tx, rx) = oneshot_pair::<Self>();
        let borrowed = AsyncBorrowed { inner: Some((self, tx)), returned: Ghost(None) };
        let ret = AsyncReturn { rx };
        (borrowed, ret)
    }
}

/// Return handle: the origin's capability to reclaim the lent value, polled
/// by a cooperative scheduler instead of blocking.
#[verifier::reject_recursive_types(T)]
pub struct AsyncReturn<T> {
    rx: futures_channel::oneshot::Receiver<T>,
}

impl<T> AsyncReturn<T> {
    /// Check whether the value has come back, without blocking.
    ///
    /// Reports nothing while the paired [`AsyncBorrowed`] handle still holds
    /// the value, registering the given waker to be woken on delivery; it
    /// reports the value on the first poll after the handle gave it back.
    /// Which value comes back is decided by the context holding the paired
    /// handle, so no more can be promised of the result here; the handle's
    /// own contract pins the delivered value. The handle transitions from
    /// pending to ready at most once and is inert afterwards: later polls
    /// report nothing again. A borrow whose handle is leaked, so that it
    /// never gives the value back, stays pending forever — the accepted
    /// liveness non-goal of this design.
    pub fn poll(&mut self, w: &core::task::Waker) -> Option<T> {
        oneshot_poll(&mut self.rx, w)
    }
}

/// Borrowed object: owns the lent value together with the send capability of
/// the pair's private one-shot channel.
#[verifier::reject_recursive_types(T)]
pub struct AsyncBorrowed<T> {
    inner: Option<(T, futures_channel::oneshot::Sender<T>)>,
    returned: Ghost<Option<T>>,
}

impl<T> AsyncBorrowed<T> {
    /// The slot this handle still holds.
    pub closed spec fn slot(self) -> Option<T> {
        match self.inner {
            Some(p) => Some(p.0),
            None => None,
        }
    }

    /// The value this handle has already given back through its channel.
    pub closed spec fn given_back(self) -> Option<T> {
        self.returned@
    }

    /// The slot is occupied: the value has not been given back yet.
    pub open spec fn is_occupied(self) -> bool {
        self.slot() is Some
    }

    /// The value the handle holds, while the slot is occupied.
    pub open spec fn value(self) -> T {
        self.slot().unwrap()
    }

    /// A handle either still holds the value or has given it back, never
    /// both and never neither: at most one delivery per channel, and the
    /// value is never duplicated.
    pub open spec fn wf(self) -> bool {
        self.is_occupied() <==> self.given_back() is None
    }

    /// Read access to the borrowed value.
    pub fn get(&self) -> (r: &T)
        requires
            self.is_occupied(),
        ensures
            *r == self.value(),
    {
        match &self.inner {
            Some(p) => &p.0,
            None => unreached(),
        }
    }

    /// Write access to the borrowed value: overwrite it.
    pub fn set(&mut self, v: T)
        requires
            old(self).is_occupied(),
        ensures
            final(self).is_occupied(),
            final(self).value() == v,
            final(self).given_back() == old(self).given_back(),
    {
        match &mut self.inner {
            Some(p) => {
                p.0 = v;
            },
            None => unreached(),
        }
    }

    /// Write access to the borrowed value: swap a new value in and take the
    /// old one out, for values that cannot be cloned.
    pub fn replace(&mut self, v: T) -> (r: T)
        requires
            old(self).is_occupied(),
        ensures
            r == old(self).value(),
            final(self).is_occupied(),
            final(self).value() == v,
            final(self).given_back() == old(self).given_back(),
    {
        match &mut self.inner {
            Some(p) => {
                let mut held = v;
                core::mem::swap(&mut p.0, &mut held);
                held
            },
            None => unreached(),
        }
    }

    /// Give the value back now, ending the borrow early.
    ///
    /// If the slot is occupied, the value moves into the pair's channel and
    /// a waker registered by the paired [`AsyncReturn`] handle is woken; a
    /// failed delivery (the origin dropped that handle) is silently ignored,
    /// and its pending waker registration is released without effect. If the
    /// slot is already empty, nothing happens: finalization is idempotent.
    /// Dropping the handle performs exactly this operation, so the value is
    /// given back on every exit path of the remote context. The operation
    /// never panics or unwinds.
    pub fn give_back(&mut self)
        ensures
            (final(self).slot(), final(self).given_back()) == finalize_state(
                old(self).slot(),
                old(self).given_back(),
            ),
            !final(self).is_occupied(),
            old(self).is_occupied() ==> final(self).given_back() == Some(old(self).value()),
            !old(self).is_occupied() ==> final(self).given_back() == old(self).given_back(),
            old(self).wf() ==> final(self).wf(),
        opens_invariants none
        no_unwind
    {
        let mut inner: Option<(T, futures_channel::oneshot::Sender<T>)> = None;
        core::mem::swap(&mut self.inner, &mut inner);
        match inner {
            Some((v, tx)) => {
                proof {
                    self.returned@ = Some(v);
                }
                oneshot_send(tx, v);
            },
            None => {},
        }
    }
}

impl<T> Drop for AsyncBorrowed<T> {
    /// Tie the give-back guarantee to the handle's own teardown, so it runs
    /// on every exit path of the remote context, abnormal unwinding included.
    fn drop(&mut self)
        opens_invariants none
        no_unwind
    {
        self.give_back();
    }
}

} // verus!
