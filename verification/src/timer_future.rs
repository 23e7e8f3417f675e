//! A future that becomes ready when its timekeeper says that time is up.
//!
//! The future and its timekeeper share one small state: a completion flag and
//! at most one waker. The future registers the waker of whoever polled it
//! last; the timekeeper sets the flag and wakes that waker. Sleeping is left
//! to the thread that owns the timekeeper.

use crate::sync::guarded;
use crate::sync::lock;
use std::future::Future;
use std::pin::Pin;
use std::sync::Arc;
use std::sync::Mutex;
use std::task::Context;
use std::task::Poll;
use std::task::Waker;
use std::time::Duration;
use vstd::prelude::*;

verus! {

/// The mathematical content of a [`SharedState`].
pub struct TimerModel {
    /// Whether the timekeeper has fired.
    pub completed: bool,
    /// The waker of the most recent pending poll, if it has not been woken.
    pub registered: Option<Waker>,
}

impl TimerModel {
    /// The state of a timer that nobody has polled or fired yet.
    pub open spec fn fresh() -> TimerModel {
        TimerModel { completed: false, registered: None }
    }

    /// What a poll answers in this state.
    pub open spec fn answer(self) -> Poll<()> {
        if self.completed {
            Poll::Ready(())
        } else {
            Poll::Pending
        }
    }

    /// The state after a poll that offers `handle`: a completed timer is
    /// left as it is, a running one keeps `handle` and forgets any other.
    pub open spec fn polled(self, handle: Waker) -> TimerModel {
        if self.completed {
            self
        } else {
            TimerModel { completed: false, registered: Some(handle) }
        }
    }

    /// The state after the timekeeper has fired.
    pub open spec fn fired(self) -> TimerModel {
        TimerModel { completed: true, registered: None }
    }

    /// The state after one poll for each handle of `handles`, in order.
    pub open spec fn polled_all(self, handles: Seq<Waker>) -> TimerModel
        decreases handles.len(),
    {
        if handles.len() == 0 {
            self
        } else {
            self.polled_all(handles.drop_last()).polled(handles.last())
        }
    }
}

/// The state that a timer future shares with its timekeeper.
pub struct SharedState {
    completed: bool,
    waker: Option<Waker>,
}

impl View for SharedState {
    type V = TimerModel;

    closed spec fn view(&self) -> TimerModel {
        TimerModel { completed: self.completed, registered: self.waker }
    }
}

impl SharedState {
    /// The state of a timer that has just been started.
    pub fn new() -> (state: SharedState)
        ensures
            state@ == TimerModel::fresh(),
    {
        SharedState { completed: false, waker: None }
    }

    /// Whether the timekeeper has fired.
    pub fn is_completed(&self) -> (completed: bool)
        ensures
            completed == self@.completed,
    {
        self.completed
    }

    /// Whether a waker is waiting to be woken.
    pub fn has_waker(&self) -> (registered: bool)
        ensures
            registered == (self@.registered is Some),
    {
        self.waker.is_some()
    }

    /// One poll of the timer on behalf of the task that `handle` wakes.
    ///
    /// A completed timer answers `Ready` and drops `handle` unused. A running
    /// timer answers `Pending` and keeps `handle` in place of any waker it
    /// held before.
    pub fn poll(&mut self, handle: Waker) -> (answer: Poll<()>)
        ensures
            answer == old(self)@.answer(),
            final(self)@ == old(self)@.polled(handle),
    {
        if self.completed {
            Poll::Ready(())
        } else {
            self.waker = Some(handle);
            Poll::Pending
        }
    }

    /// Marks the timer as completed and hands out the waker that has to be
    /// woken, if there is one. The state keeps no waker afterwards.
    pub fn complete(&mut self) -> (woken: Option<Waker>)
        ensures
            woken == old(self)@.registered,
            final(self)@ == old(self)@.fired(),
    {
        self.completed = true;
        self.waker.take()
    }
}

/// Once the timekeeper has fired the timer stays completed: a poll answers
/// `Ready` and leaves the state as it is, and firing again changes nothing.
pub proof fn lemma_completion_is_permanent(state: TimerModel, handle: Waker)
    requires
        state.completed,
    ensures
        state.answer() is Ready,
        state.polled(handle) == state,
        state.fired().completed,
{
}

/// A timer that has not been fired answers `Pending` however often it is
/// polled, and it holds the waker of the last poll and no other.
pub proof fn lemma_pending_until_fired(handles: Seq<Waker>)
    ensures
        !TimerModel::fresh().polled_all(handles).completed,
        TimerModel::fresh().polled_all(handles).answer() is Pending,
        TimerModel::fresh().polled_all(handles).registered == if handles.len() == 0 {
            None
        } else {
            Some(handles.last())
        },
    decreases handles.len(),
{
    if handles.len() > 0 {
        lemma_pending_until_fired(handles.drop_last());
    }
}

/// From the moment the timekeeper fires, every poll answers `Ready`, and no
/// poll registers a waker any more.
pub proof fn lemma_ready_once_fired(state: TimerModel, later: Seq<Waker>)
    ensures
        state.fired().polled_all(later) == state.fired(),
        state.fired().polled_all(later).answer() is Ready,
    decreases later.len(),
{
    if later.len() > 0 {
        lemma_ready_once_fired(state, later.drop_last());
    }
}

/// Firing hands out each registered waker at most once: after the first
/// firing no waker is left, so a second firing finds nothing to wake and
/// leaves the state as it is.
pub proof fn lemma_fire_is_idempotent(state: TimerModel)
    ensures
        state.fired().registered is None,
        state.fired().fired() == state.fired(),
{
}

/// A timer that is fired before anybody has polled it wakes nobody, and it
/// answers `Ready` to its first poll without keeping the waker of that poll:
/// no wake is needed and none is missed.
pub proof fn lemma_fired_before_first_poll(handle: Waker)
    ensures
        TimerModel::fresh().registered is None,
        TimerModel::fresh().fired().completed,
        TimerModel::fresh().fired().answer() is Ready,
        TimerModel::fresh().fired().polled(handle) == TimerModel::fresh().fired(),
        TimerModel::fresh().fired().polled(handle).registered is None,
{
}

/// Whether `timer` keeps a time of `duration`, seen when `elapsed` has gone
/// by since it was started: it is not completed before its time is up.
pub open spec fn keeps_time(timer: TimerModel, duration: nat, elapsed: nat) -> bool {
    timer.completed ==> elapsed >= duration
}

/// A timer that keeps its time answers `Pending` to a poll made before the
/// time is up, and `Ready` to every poll made after its timekeeper fired.
pub proof fn lemma_timer_by_the_clock(timer: TimerModel, duration: nat, elapsed: nat)
    requires
        keeps_time(timer, duration, elapsed),
    ensures
        elapsed < duration ==> timer.answer() is Pending,
        timer.answer() is Ready ==> elapsed >= duration,
        timer.fired().answer() is Ready,
{
}

/// A future that resolves once its [`Timekeeper`] has fired.
pub struct TimerFuture {
    shared_state: Arc<Mutex<SharedState>>,
}

/// The other end of a [`TimerFuture`]: whoever holds it decides when the
/// time is up.
pub struct Timekeeper {
    shared_state: Arc<Mutex<SharedState>>,
    duration: Duration,
}

/// Calls `Pin::get_mut`, which is allowed because a `TimerFuture` holds
/// nothing that depends on its own address. Nothing is claimed of the
/// reference.
#[verifier::external_body]
fn unpinned<'a>(timer: Pin<&'a mut TimerFuture>) -> (r: &'a mut TimerFuture) {
    timer.get_mut()
}

impl TimerFuture {
    /// The state that this future polls. Its timekeeper holds the same one.
    pub closed spec fn shared(&self) -> Arc<Mutex<SharedState>> {
        self.shared_state
    }

    /// Creates a timer that has not completed, together with the timekeeper
    /// that will complete it. `duration` is how long the timekeeper is meant
    /// to wait before it fires.
    pub fn new(duration: Duration) -> (pair: (TimerFuture, Timekeeper))
        ensures
            pair.0.shared() == pair.1.shared(),
            pair.1.spec_duration() == duration,
    {
        let shared_state = Arc::new(Mutex::new(SharedState::new()));
        let keeper_state = shared_state.clone();
        (TimerFuture { shared_state }, Timekeeper { shared_state: keeper_state, duration })
    }

    /// Polls the state behind [`Self::shared`] under its lock: see
    /// [`SharedState::poll`].
    pub fn attempt(&self, cx: &mut Context<'_>) -> (answer: Poll<()>) {
        let handle = cx.waker().clone();
        let mut guard = lock(&self.shared_state);
        let state = guarded(&mut guard);
        state.poll(handle)
    }
}

impl Future for TimerFuture {
    type Output = ();

    fn poll(self: Pin<&mut Self>, cx: &mut Context<'_>) -> (answer: Poll<()>) {
        let timer = unpinned(self);
        timer.attempt(cx)
    }
}

impl Timekeeper {
    /// The state that this timekeeper completes. Its future polls the same
    /// one.
    pub closed spec fn shared(&self) -> Arc<Mutex<SharedState>> {
        self.shared_state
    }

    /// The duration the timer was created with.
    pub closed spec fn spec_duration(&self) -> Duration {
        self.duration
    }

    /// How long to wait before firing.
    pub fn duration(&self) -> (duration: Duration)
        ensures
            duration == self.spec_duration(),
    {
        self.duration
    }

    /// Completes the state behind [`Self::shared`] under its lock: see
    /// [`SharedState::complete`].
    fn complete(&self) -> (woken: Option<Waker>) {
        let mut guard = lock(&self.shared_state);
        let state = guarded(&mut guard);
        state.complete()
    }

    /// Declares that the time is up: completes the timer and then, with the
    /// lock released, wakes the task that polled it last, if any.
    pub fn fire(self) {
        if let Some(waker) = self.complete() {
            waker.wake();
        }
    }
}

} // verus!
