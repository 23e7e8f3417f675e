use futures::task::noop_waker;
use rust_async::advance;
use rust_async::boxed;
use rust_async::new_executor_and_spawner;
use rust_async::spawn_result;
use rust_async::step_result;
use rust_async::AndThenFuture;
use rust_async::BoxedFuture;
use rust_async::Attempt;
use rust_async::JoinFuture;
use rust_async::Offer;
use rust_async::SpawnError;
use rust_async::Step;
use rust_async::Timekeeper;
use rust_async::TimerFuture;
use rust_async::MAX_QUEUED_TASKS;
use std::sync::atomic::AtomicUsize;
use std::sync::atomic::Ordering;
use std::sync::Arc;
use std::sync::Mutex;
use std::task::Context;
use std::time::Duration;

fn timer(secs: u64) -> (TimerFuture, Timekeeper) {
    TimerFuture::new(Duration::from_secs(secs))
}

#[test]
fn default_capacity_is_ten_thousand() {
    assert_eq!(MAX_QUEUED_TASKS, 10_000);
}

#[test]
fn spawn_result_maps_each_answer() {
    assert_eq!(spawn_result(Offer::Accepted), Ok(()));
    assert_eq!(spawn_result(Offer::Full), Err(SpawnError::QueueFull));
    assert_eq!(spawn_result(Offer::Disconnected), Err(SpawnError::Disconnected));
}

#[test]
fn spawn_errors_describe_themselves() {
    assert_eq!(SpawnError::QueueFull.message(), "Number of tasks exceed MAX_QUEUED_TASKS");
    assert_eq!(SpawnError::Disconnected.message(), "The executor is gone");
}

#[test]
fn step_result_maps_each_attempt() {
    assert_eq!(step_result(Attempt::Vacant), Step::Skipped);
    assert_eq!(step_result(Attempt::Pending), Step::Pending);
    assert_eq!(step_result(Attempt::Ready), Step::Finished);
}

#[test]
fn advance_skips_an_empty_slot() {
    let w = noop_waker();
    let mut cx = Context::from_waker(&w);
    let mut slot: Option<BoxedFuture> = None;
    assert_eq!(advance(&mut slot, &mut cx), Step::Skipped);
    assert!(slot.is_none());
}

#[test]
fn advance_keeps_a_pending_future_and_drops_a_finished_one() {
    let w = noop_waker();
    let mut cx = Context::from_waker(&w);
    let (t, keeper) = timer(1);
    let mut slot = Some(boxed(t));
    assert_eq!(advance(&mut slot, &mut cx), Step::Pending);
    assert!(slot.is_some());
    keeper.fire();
    assert_eq!(advance(&mut slot, &mut cx), Step::Finished);
    assert!(slot.is_none());
    assert_eq!(advance(&mut slot, &mut cx), Step::Skipped);
    assert!(slot.is_none());
}

#[test]
fn run_returns_at_once_when_nothing_was_spawned() {
    let (executor, spawner) = new_executor_and_spawner(4);
    drop(spawner);
    assert_eq!(executor.step(), Step::Closed);
    executor.run();
}

#[test]
fn spawning_up_to_capacity_succeeds_and_one_more_is_refused() {
    for capacity in [0usize, 1, 2, 7] {
        let (executor, spawner) = new_executor_and_spawner(capacity);
        for _ in 0..capacity {
            assert_eq!(spawner.spawn(async {}), Ok(()));
        }
        assert_eq!(spawner.spawn(async {}), Err(SpawnError::QueueFull));
        assert_eq!(spawner.spawn(async {}), Err(SpawnError::QueueFull));
        drop(spawner);
        for _ in 0..capacity {
            assert_eq!(executor.step(), Step::Finished);
        }
        assert_eq!(executor.step(), Step::Closed);
    }
}

#[test]
fn draining_makes_room_again() {
    let (executor, spawner) = new_executor_and_spawner(1);
    assert_eq!(spawner.spawn(async {}), Ok(()));
    assert_eq!(spawner.spawn(async {}), Err(SpawnError::QueueFull));
    assert_eq!(executor.step(), Step::Finished);
    assert_eq!(spawner.spawn(async {}), Ok(()));
}

#[test]
fn spawning_without_an_executor_is_refused() {
    let (executor, spawner) = new_executor_and_spawner(3);
    drop(executor);
    assert_eq!(spawner.spawn(async {}), Err(SpawnError::Disconnected));
}

#[test]
fn cloned_spawner_feeds_the_same_executor() {
    let (executor, spawner) = new_executor_and_spawner(2);
    let other = spawner.clone();
    assert_eq!(spawner.spawn(async {}), Ok(()));
    assert_eq!(other.spawn(async {}), Ok(()));
    assert_eq!(other.spawn(async {}), Err(SpawnError::QueueFull));
    drop(spawner);
    drop(other);
    assert_eq!(executor.step(), Step::Finished);
    assert_eq!(executor.step(), Step::Finished);
    assert_eq!(executor.step(), Step::Closed);
}

#[test]
fn run_drives_every_spawned_task() {
    let done = Arc::new(AtomicUsize::new(0));
    let (executor, spawner) = new_executor_and_spawner(8);
    for _ in 0..5 {
        let done = done.clone();
        assert_eq!(
            spawner.spawn(async move {
                done.fetch_add(1, Ordering::SeqCst);
            }),
            Ok(())
        );
    }
    drop(spawner);
    executor.run();
    assert_eq!(done.load(Ordering::SeqCst), 5);
}

#[test]
fn woken_task_is_requeued_and_finishes() {
    let (executor, spawner) = new_executor_and_spawner(4);
    let (t, keeper) = timer(1);
    assert_eq!(spawner.spawn(t), Ok(()));
    drop(spawner);
    assert_eq!(executor.step(), Step::Pending);
    keeper.fire();
    assert_eq!(executor.step(), Step::Finished);
    assert_eq!(executor.step(), Step::Closed);
}

#[test]
fn waking_a_finished_task_again_is_a_no_op() {
    // Two timers in one join register the same task twice. Both fire between
    // two steps, so the task is queued twice; the second arrival finds the
    // slot empty.
    let polls = Arc::new(AtomicUsize::new(0));
    let (executor, spawner) = new_executor_and_spawner(4);
    let (a, ka) = timer(1);
    let (b, kb) = timer(2);
    let seen = polls.clone();
    assert_eq!(
        spawner.spawn(async move {
            JoinFuture::new(a, b).await;
            seen.fetch_add(1, Ordering::SeqCst);
        }),
        Ok(())
    );
    assert_eq!(executor.step(), Step::Pending);
    ka.fire();
    kb.fire();
    assert_eq!(executor.step(), Step::Finished);
    assert_eq!(polls.load(Ordering::SeqCst), 1);
    assert_eq!(executor.step(), Step::Skipped);
    assert_eq!(polls.load(Ordering::SeqCst), 1);
    drop(spawner);
    assert_eq!(executor.step(), Step::Closed);
}

#[test]
fn timer_fired_before_its_first_poll_needs_no_wake() {
    let (executor, spawner) = new_executor_and_spawner(4);
    let (t, keeper) = timer(1);
    keeper.fire();
    assert_eq!(spawner.spawn(t), Ok(()));
    drop(spawner);
    assert_eq!(executor.step(), Step::Finished);
    assert_eq!(executor.step(), Step::Closed);
}

#[test]
fn three_independent_timers_finish_in_any_order() {
    let orders: [[usize; 3]; 6] =
        [[0, 1, 2], [0, 2, 1], [1, 0, 2], [1, 2, 0], [2, 0, 1], [2, 1, 0]];
    for order in orders {
        let finished = Arc::new(AtomicUsize::new(0));
        let (executor, spawner) = new_executor_and_spawner(MAX_QUEUED_TASKS);
        let mut keepers: Vec<Option<Timekeeper>> = Vec::new();
        for secs in [1u64, 2, 5] {
            let (t, keeper) = timer(secs);
            keepers.push(Some(keeper));
            let finished = finished.clone();
            assert_eq!(
                spawner.spawn(async move {
                    t.await;
                    finished.fetch_add(1, Ordering::SeqCst);
                }),
                Ok(())
            );
        }
        drop(spawner);
        for _ in 0..3 {
            assert_eq!(executor.step(), Step::Pending);
        }
        for (n, which) in order.iter().enumerate() {
            keepers[*which].take().expect("each timer fires once").fire();
            assert_eq!(executor.step(), Step::Finished);
            assert_eq!(finished.load(Ordering::SeqCst), n + 1);
        }
        executor.run();
        assert_eq!(finished.load(Ordering::SeqCst), 3);
    }
}

#[test]
fn sequence_of_join_and_timer_starts_the_last_timer_late() {
    // and_then(join(5 s, 2 s), 1 s): the last timer is created by the second
    // stage when that stage is first polled.
    let late: Arc<Mutex<Option<Timekeeper>>> = Arc::new(Mutex::new(None));
    let log: Arc<Mutex<Vec<&'static str>>> = Arc::new(Mutex::new(Vec::new()));
    let (executor, spawner) = new_executor_and_spawner(MAX_QUEUED_TASKS);
    let (t5, k5) = timer(5);
    let (t2, k2) = timer(2);
    let (log5, log2, log1) = (log.clone(), log.clone(), log.clone());
    let five = async move {
        log5.lock().unwrap().push("before 5");
        t5.await;
        log5.lock().unwrap().push("after 5");
    };
    let two = async move {
        log2.lock().unwrap().push("before 2");
        t2.await;
        log2.lock().unwrap().push("after 2");
    };
    let slot = late.clone();
    let one = async move {
        log1.lock().unwrap().push("before 1");
        let (t1, k1) = TimerFuture::new(Duration::from_secs(1));
        *slot.lock().unwrap() = Some(k1);
        t1.await;
        log1.lock().unwrap().push("after 1");
    };
    assert_eq!(spawner.spawn(AndThenFuture::new(JoinFuture::new(five, two), one)), Ok(()));
    drop(spawner);

    assert_eq!(executor.step(), Step::Pending);
    assert!(late.lock().unwrap().is_none());
    k2.fire();
    assert_eq!(executor.step(), Step::Pending);
    assert!(late.lock().unwrap().is_none());
    k5.fire();
    assert_eq!(executor.step(), Step::Pending);
    let k1 = late.lock().unwrap().take().expect("the second stage has started");
    assert_eq!(k1.duration(), Duration::from_secs(1));
    k1.fire();
    assert_eq!(executor.step(), Step::Finished);
    assert_eq!(executor.step(), Step::Closed);
    assert_eq!(
        *log.lock().unwrap(),
        vec!["before 5", "before 2", "after 2", "after 5", "before 1", "after 1"]
    );
}
