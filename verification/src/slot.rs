//! Type-erased futures and the slots that hold them.
//!
//! A combinator or a task owns each future it drives in a slot, an
//! `Option<BoxedFuture>`. A slot is emptied the moment its future reports
//! `Ready`, so a finished future can never be polled again.

use futures::future::FutureExt;
use futures::task::FutureObj;
use std::future::Future;
use std::task::Context;
use std::task::Poll;
use vstd::prelude::*;

verus! {

/// `futures::task::FutureObj`: an opaque owning pointer to a future of any
/// type that may be sent to another thread.
#[verifier::external_type_specification]
#[verifier::external_body]
#[verifier::reject_recursive_types(T)]
pub struct ExFutureObj<'a, T>(FutureObj<'a, T>);

/// A future of any type, boxed and pinned.
///
/// A value can be moved and stored; nothing is known of what it holds.
pub type BoxedFuture = FutureObj<'static, ()>;

/// Calls `futures::future::FutureExt::boxed`, which moves the future into a
/// pinned box, and hands the box to a `FutureObj` through its `From` impl.
/// Nothing is claimed of the result.
#[verifier::external_body]
fn into_boxed(future: impl Future<Output = ()> + 'static + Send) -> (r: BoxedFuture) {
    FutureObj::from(future.boxed())
}

/// Calls `futures::future::FutureExt::poll_unpin`, which polls the future
/// once with the given context. Whether the answer is `Ready` or `Pending` is
/// up to the future, so nothing is claimed of it, nor of the state the future
/// is left in. The call panics only if the future itself does.
#[verifier::external_body]
pub(crate) fn poll_boxed(future: &mut BoxedFuture, cx: &mut Context<'_>) -> (r: Poll<()>) {
    future.poll_unpin(cx)
}

/// What one attempt on a slot found.
#[derive(Clone, Copy, Debug, PartialEq, Eq, Structural)]
pub enum Attempt {
    /// The slot was empty: nothing was polled.
    Vacant,
    /// The future was polled and is not done; it is back in the slot.
    Pending,
    /// The future was polled and is done; the slot is now empty.
    Ready,
}

/// Boxes `future` so that futures of different types fit the same slot.
pub fn boxed(future: impl Future<Output = ()> + 'static + Send) -> (r: BoxedFuture) {
    into_boxed(future)
}

/// The slot that is left once `future` has answered `polled`: the future
/// itself while it is pending, nothing once it is ready.
pub open spec fn settled(future: BoxedFuture, polled: Poll<()>) -> Option<BoxedFuture> {
    match polled {
        Poll::Pending => Some(future),
        Poll::Ready(_) => None,
    }
}

/// What an attempt reports for the answer `polled`.
pub open spec fn reported(polled: Poll<()>) -> Attempt {
    match polled {
        Poll::Pending => Attempt::Pending,
        Poll::Ready(_) => Attempt::Ready,
    }
}

/// Computes [`reported`].
pub fn report(polled: &Poll<()>) -> (outcome: Attempt)
    ensures
        outcome == reported(*polled),
{
    match polled {
        Poll::Pending => Attempt::Pending,
        Poll::Ready(_) => Attempt::Ready,
    }
}

/// Puts a future that has just been polled back into its slot, or drops it.
///
/// A future that answered `Pending` is kept. One that answered `Ready` is
/// dropped.
pub fn settle(future: BoxedFuture, polled: Poll<()>) -> (slot: Option<BoxedFuture>)
    ensures
        slot == settled(future, polled),
{
    match polled {
        Poll::Pending => Some(future),
        Poll::Ready(_) => None,
    }
}

/// Makes one attempt on a slot.
///
/// An empty slot is left alone and nothing is polled. A full slot has its
/// future polled exactly once; the slot is empty afterwards if and only if
/// the future reported `Ready`.
pub fn attempt_slot(slot: &mut Option<BoxedFuture>, cx: &mut Context<'_>) -> (outcome: Attempt)
    ensures
        *old(slot) is None ==> outcome == Attempt::Vacant && *final(slot) is None,
        *old(slot) is Some ==> outcome != Attempt::Vacant,
        *final(slot) is Some <==> outcome == Attempt::Pending,
{
    match slot.take() {
        None => Attempt::Vacant,
        Some(mut future) => {
            let polled = poll_boxed(&mut future, cx);
            let outcome = report(&polled);
            *slot = settle(future, polled);
            outcome
        },
    }
}

} // verus!
