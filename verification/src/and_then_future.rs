//! Two futures run one after the other.

use crate::slot::attempt_slot;
use crate::slot::boxed;
use crate::slot::poll_boxed;
use crate::slot::Attempt;
use crate::slot::BoxedFuture;
use std::future::Future;
use std::pin::Pin;
use std::task::Context;
use std::task::Poll;
use vstd::prelude::*;

verus! {

/// A future that runs `first` to completion and only then starts `second`.
///
/// The first slot is emptied when the first future completes. The second
/// future is not touched while the first slot is full.
pub struct AndThenFuture {
    first: Option<BoxedFuture>,
    second: BoxedFuture,
}

/// Calls `Pin::get_mut`, which is allowed because an `AndThenFuture` holds
/// nothing that depends on its own address. Nothing is claimed of the
/// reference.
#[verifier::external_body]
fn unpinned<'a>(chain: Pin<&'a mut AndThenFuture>) -> (r: &'a mut AndThenFuture) {
    chain.get_mut()
}

/// Whether the second stage may be polled after an attempt on the first
/// stage that reported `first`: only once the first stage is out of the way.
pub open spec fn second_may_run(first: Attempt) -> bool {
    first != Attempt::Pending
}

/// Computes [`second_may_run`].
pub fn may_run_second(first: Attempt) -> (go: bool)
    ensures
        go == second_may_run(first),
{
    match first {
        Attempt::Pending => false,
        _ => true,
    }
}

impl AndThenFuture {
    /// The slot of the first stage.
    pub closed spec fn first_stage(&self) -> Option<BoxedFuture> {
        self.first
    }

    /// The future of the second stage.
    pub closed spec fn second_stage(&self) -> BoxedFuture {
        self.second
    }

    /// Chains `second` behind `first`. Neither has been polled yet.
    pub fn new(
        first: impl Future<Output = ()> + 'static + Send,
        second: impl Future<Output = ()> + 'static + Send,
    ) -> (chain: AndThenFuture)
        ensures
            chain.first_stage() is Some,
    {
        AndThenFuture { first: Some(boxed(first)), second: boxed(second) }
    }

    /// Whether the first stage has completed.
    pub fn first_done(&self) -> (done: bool)
        ensures
            done == (self.first_stage() is None),
    {
        self.first.is_none()
    }

    /// Polls the first future if it has not completed. While it is pending
    /// the answer is `Pending` and the second future is left exactly as it
    /// was. Once the first future is out of the way, in this call or an
    /// earlier one, the second future is polled and its answer is the answer.
    pub fn attempt(&mut self, cx: &mut Context<'_>) -> (answer: Poll<()>)
        ensures
            old(self).first_stage() is None ==> final(self).first_stage() is None,
            final(self).first_stage() is Some ==> answer is Pending && final(self).second_stage()
                == old(self).second_stage(),
            answer is Ready ==> final(self).first_stage() is None,
    {
        let first = attempt_slot(&mut self.first, cx);
        if may_run_second(first) {
            poll_boxed(&mut self.second, cx)
        } else {
            Poll::Pending
        }
    }
}

impl Future for AndThenFuture {
    type Output = ();

    fn poll(self: Pin<&mut Self>, cx: &mut Context<'_>) -> (answer: Poll<()>) {
        let chain = unpinned(self);
        chain.attempt(cx)
    }
}

} // verus!
