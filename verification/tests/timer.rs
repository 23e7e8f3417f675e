use futures::task::noop_waker;
use futures::task::waker;
use futures::task::ArcWake;
use rust_async::SharedState;
use rust_async::TimerFuture;
use std::future::Future;
use std::pin::Pin;
use std::sync::atomic::AtomicUsize;
use std::sync::atomic::Ordering;
use std::sync::Arc;
use std::task::Context;
use std::task::Poll;
use std::time::Duration;

struct Counter {
    wakes: AtomicUsize,
}

impl ArcWake for Counter {
    fn wake_by_ref(arc_self: &Arc<Self>) {
        arc_self.wakes.fetch_add(1, Ordering::SeqCst);
    }
}

fn counter() -> Arc<Counter> {
    Arc::new(Counter { wakes: AtomicUsize::new(0) })
}

fn wakes(c: &Arc<Counter>) -> usize {
    c.wakes.load(Ordering::SeqCst)
}

#[test]
fn fresh_state_is_running_and_holds_no_waker() {
    let state = SharedState::new();
    assert!(!state.is_completed());
    assert!(!state.has_waker());
}

#[test]
fn poll_before_completion_is_pending_and_registers() {
    let mut state = SharedState::new();
    assert_eq!(state.poll(noop_waker()), Poll::Pending);
    assert!(state.has_waker());
    assert!(!state.is_completed());
}

#[test]
fn poll_after_completion_is_ready_and_registers_nothing() {
    let mut state = SharedState::new();
    assert!(state.complete().is_none());
    assert!(state.is_completed());
    assert_eq!(state.poll(noop_waker()), Poll::Ready(()));
    assert!(!state.has_waker());
    assert_eq!(state.poll(noop_waker()), Poll::Ready(()));
    assert!(state.is_completed());
}

#[test]
fn complete_hands_out_only_the_latest_waker() {
    let old = counter();
    let new = counter();
    let mut state = SharedState::new();
    assert_eq!(state.poll(waker(old.clone())), Poll::Pending);
    assert_eq!(state.poll(waker(new.clone())), Poll::Pending);
    let handed = state.complete().expect("a waker was registered");
    handed.wake();
    assert_eq!(wakes(&old), 0);
    assert_eq!(wakes(&new), 1);
    assert!(!state.has_waker());
}

#[test]
fn second_complete_hands_out_nothing() {
    let c = counter();
    let mut state = SharedState::new();
    assert_eq!(state.poll(waker(c.clone())), Poll::Pending);
    assert!(state.complete().is_some());
    assert!(state.complete().is_none());
    assert!(state.is_completed());
}

#[test]
fn timekeeper_remembers_duration() {
    let (_timer, keeper) = TimerFuture::new(Duration::new(5, 250));
    assert_eq!(keeper.duration(), Duration::new(5, 250));
}

#[test]
fn timer_is_pending_until_fired_then_ready() {
    let c = counter();
    let w = waker(c.clone());
    let mut cx = Context::from_waker(&w);
    let (mut timer, keeper) = TimerFuture::new(Duration::from_secs(1));
    assert_eq!(Pin::new(&mut timer).poll(&mut cx), Poll::Pending);
    assert_eq!(timer.attempt(&mut cx), Poll::Pending);
    assert_eq!(wakes(&c), 0);
    keeper.fire();
    assert_eq!(wakes(&c), 1);
    assert_eq!(Pin::new(&mut timer).poll(&mut cx), Poll::Ready(()));
    assert_eq!(wakes(&c), 1);
}

#[test]
fn timer_fired_before_first_poll_is_ready_without_wake() {
    let c = counter();
    let w = waker(c.clone());
    let mut cx = Context::from_waker(&w);
    let (timer, keeper) = TimerFuture::new(Duration::from_secs(2));
    keeper.fire();
    assert_eq!(timer.attempt(&mut cx), Poll::Ready(()));
    assert_eq!(wakes(&c), 0);
}

#[test]
fn timer_wakes_only_the_last_poller() {
    let first = counter();
    let last = counter();
    let w1 = waker(first.clone());
    let w2 = waker(last.clone());
    let (timer, keeper) = TimerFuture::new(Duration::from_millis(10));
    assert_eq!(timer.attempt(&mut Context::from_waker(&w1)), Poll::Pending);
    assert_eq!(timer.attempt(&mut Context::from_waker(&w2)), Poll::Pending);
    keeper.fire();
    assert_eq!(wakes(&first), 0);
    assert_eq!(wakes(&last), 1);
}
