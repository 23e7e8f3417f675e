//! Two futures run side by side.

use crate::slot::attempt_slot;
use crate::slot::boxed;
use crate::slot::Attempt;
use crate::slot::reported;
use crate::slot::BoxedFuture;
use crate::timer_future::keeps_time;
use crate::timer_future::TimerModel;
use std::future::Future;
use std::pin::Pin;
use std::task::Context;
use std::task::Poll;
use vstd::prelude::*;

verus! {

/// A future that runs two futures concurrently and is ready when both are.
///
/// Each slot holds a future that still has to be run to completion. A slot is
/// emptied when its future completes, so that no future is polled after it
/// has reported `Ready`.
pub struct JoinFuture {
    a: Option<BoxedFuture>,
    b: Option<BoxedFuture>,
}

/// Calls `Pin::get_mut`, which is allowed because a `JoinFuture` holds
/// nothing that depends on its own address. Nothing is claimed of the
/// reference.
#[verifier::external_body]
fn unpinned<'a>(join: Pin<&'a mut JoinFuture>) -> (r: &'a mut JoinFuture) {
    join.get_mut()
}

/// What a join answers once both of its slots have been attempted: `Ready`
/// unless one of the two futures is still pending.
pub open spec fn join_answer(first: Attempt, second: Attempt) -> Poll<()> {
    if first == Attempt::Pending || second == Attempt::Pending {
        Poll::Pending
    } else {
        Poll::Ready(())
    }
}

/// Computes [`join_answer`].
pub fn answer_join(first: Attempt, second: Attempt) -> (answer: Poll<()>)
    ensures
        answer == join_answer(first, second),
{
    match (first, second) {
        (Attempt::Pending, _) => Poll::Pending,
        (_, Attempt::Pending) => Poll::Pending,
        _ => Poll::Ready(()),
    }
}

/// A join answers `Ready` exactly when neither of its futures is pending, in
/// whichever order the two are given.
pub proof fn lemma_join_waits_for_both(first: Attempt, second: Attempt)
    ensures
        join_answer(first, second) is Ready <==> first != Attempt::Pending && second
            != Attempt::Pending,
        join_answer(first, second) == join_answer(second, first),
{
}

/// A join of two timers answers `Ready` exactly when both timekeepers have
/// fired; if one of them completed earlier and has left its slot, exactly
/// when the other has fired.
pub proof fn lemma_join_of_timers(first: TimerModel, second: TimerModel)
    ensures
        join_answer(reported(first.answer()), reported(second.answer())) is Ready
            <==> first.completed && second.completed,
        join_answer(Attempt::Vacant, reported(second.answer())) is Ready <==> second.completed,
        join_answer(reported(first.answer()), Attempt::Vacant) is Ready <==> first.completed,
{
}

/// A join of a shorter and a longer timer that both keep their time does not
/// answer `Ready` before the longer time is up, and it answers `Ready` only
/// when each of the two timers has completed. The same holds when the
/// shorter timer completed at an earlier attempt and has left its slot.
pub proof fn lemma_join_waits_for_the_longer_timer(
    shorter: TimerModel,
    longer: TimerModel,
    short_time: nat,
    long_time: nat,
    elapsed: nat,
)
    requires
        short_time < long_time,
        keeps_time(shorter, short_time, elapsed),
        keeps_time(longer, long_time, elapsed),
    ensures
        join_answer(reported(shorter.answer()), reported(longer.answer())) is Ready ==> elapsed
            >= long_time && shorter.completed && longer.completed,
        join_answer(reported(longer.answer()), reported(shorter.answer())) is Ready ==> elapsed
            >= long_time && shorter.completed && longer.completed,
        join_answer(Attempt::Vacant, reported(longer.answer())) is Ready ==> elapsed >= long_time
            && longer.completed,
        join_answer(reported(longer.answer()), Attempt::Vacant) is Ready ==> elapsed >= long_time
            && longer.completed,
{
}

impl JoinFuture {
    /// The first slot.
    pub closed spec fn first(&self) -> Option<BoxedFuture> {
        self.a
    }

    /// The second slot.
    pub closed spec fn second(&self) -> Option<BoxedFuture> {
        self.b
    }

    /// Both futures have completed.
    pub open spec fn is_done(&self) -> bool {
        self.first() is None && self.second() is None
    }

    /// Joins `a` and `b`. Neither has been polled yet.
    pub fn new(
        a: impl Future<Output = ()> + 'static + Send,
        b: impl Future<Output = ()> + 'static + Send,
    ) -> (join: JoinFuture)
        ensures
            join.first() is Some,
            join.second() is Some,
    {
        JoinFuture { a: Some(boxed(a)), b: Some(boxed(b)) }
    }

    /// Whether both futures have completed.
    pub fn done(&self) -> (done: bool)
        ensures
            done == self.is_done(),
    {
        self.a.is_none() && self.b.is_none()
    }

    /// Polls each future that has not completed yet, the first before the
    /// second, and answers `Ready` if and only if none is left.
    ///
    /// A slot that was empty stays empty: a future that has completed is
    /// never polled again.
    pub fn attempt(&mut self, cx: &mut Context<'_>) -> (answer: Poll<()>)
        ensures
            old(self).first() is None ==> final(self).first() is None,
            old(self).second() is None ==> final(self).second() is None,
            answer is Ready <==> final(self).is_done(),
    {
        let first = attempt_slot(&mut self.a, cx);
        let second = attempt_slot(&mut self.b, cx);
        answer_join(first, second)
    }
}

impl Future for JoinFuture {
    type Output = ();

    fn poll(self: Pin<&mut Self>, cx: &mut Context<'_>) -> (answer: Poll<()>) {
        let join = unpinned(self);
        join.attempt(cx)
    }
}

} // verus!
