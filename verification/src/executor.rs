//! The executor, the spawner that feeds it, and the tasks that travel
//! between them.
//!
//! A task is queued once when it is spawned and once more each time its
//! waker is woken. The executor takes tasks off the queue one by one and
//! makes one attempt on each; a task whose future has completed has an empty
//! slot, so taking it off the queue again does nothing.

use crate::slot::attempt_slot;
use crate::slot::boxed;
use crate::slot::Attempt;
use crate::slot::BoxedFuture;
use crate::sync::guarded;
use crate::sync::lock;
use futures::task::waker_ref;
use futures::task::ArcWake;
use futures::task::WakerRef;
use std::future::Future;
use std::sync::mpsc::sync_channel;
use std::sync::mpsc::Receiver;
use std::sync::mpsc::SyncSender;
use std::sync::mpsc::TrySendError;
use std::sync::Arc;
use std::sync::Mutex;
use std::task::Context;
use std::task::Waker;
use vstd::prelude::*;

verus! {

/// The queue capacity that suits a program with no special needs.
pub const MAX_QUEUED_TASKS: usize = 10_000;

/// `std::sync::mpsc::Receiver`: the opaque receiving end of a channel.
#[verifier::external_type_specification]
#[verifier::external_body]
#[verifier::reject_recursive_types(T)]
pub struct ExReceiver<T>(Receiver<T>);

/// `futures::task::WakerRef`: an opaque borrowed waker.
#[verifier::external_type_specification]
#[verifier::external_body]
pub struct ExWakerRef<'a>(WakerRef<'a>);

/// The sending end of the task queue.
///
/// The field is a `std::sync::mpsc::SyncSender<Arc<Task>>`. A task holds such
/// a sender itself, and the verifier does not admit a type that contains
/// itself through a channel, so the whole struct is opaque to it.
#[verifier::external_body]
pub struct TaskSender {
    inner: SyncSender<Arc<Task>>,
}

/// A future that can put itself back on the queue.
struct Task {
    /// The future to drive; `None` once it has completed. One thread at a
    /// time polls it, and the lock says so to the compiler.
    future: Mutex<Option<BoxedFuture>>,
    /// Where to send the task when it is woken.
    sender: TaskSender,
}

/// What the queue said to a task that was offered without waiting.
#[derive(Clone, Copy, Debug, PartialEq, Eq, Structural)]
pub enum Offer {
    /// The task is in the queue.
    Accepted,
    /// The queue holds as many tasks as its capacity allows.
    Full,
    /// The executor is gone.
    Disconnected,
}

/// Why a task could not be spawned.
#[derive(Clone, Copy, Debug, PartialEq, Eq, Structural)]
pub enum SpawnError {
    /// The queue holds as many tasks as its capacity allows.
    QueueFull,
    /// The executor is gone, so nobody would ever run the task.
    Disconnected,
}

impl SpawnError {
    /// The words that describe the error.
    pub open spec fn text(self) -> Seq<char> {
        match self {
            SpawnError::QueueFull => "Number of tasks exceed MAX_QUEUED_TASKS"@,
            SpawnError::Disconnected => "The executor is gone"@,
        }
    }

    /// Describes the error in words.
    pub fn message(&self) -> (message: &'static str)
        ensures
            message@ == self.text(),
    {
        match self {
            SpawnError::QueueFull => "Number of tasks exceed MAX_QUEUED_TASKS",
            SpawnError::Disconnected => "The executor is gone",
        }
    }
}

/// What one step of the executor did.
#[derive(Clone, Copy, Debug, PartialEq, Eq, Structural)]
pub enum Step {
    /// No task is queued and none can ever be: every spawner and every task
    /// is gone.
    Closed,
    /// The task taken off the queue had completed before; nothing was polled.
    Skipped,
    /// The task was polled and is not done yet.
    Pending,
    /// The task was polled and has completed.
    Finished,
}

/// The size of the buffer of the queue that `sender` feeds: the bound that
/// the queue was made with. It never changes.
pub uninterp spec fn queue_limit(sender: TaskSender) -> nat;

/// Calls `std::sync::mpsc::sync_channel`, which makes a queue with a buffer
/// of `capacity` tasks. The contract says that this is the limit of the
/// sender; nothing is claimed of the receiver.
#[verifier::external_body]
fn task_channel(capacity: usize) -> (ends: (TaskSender, Receiver<Arc<Task>>))
    ensures
        queue_limit(ends.0) == capacity,
{
    let (sender, receiver) = sync_channel(capacity);
    (TaskSender { inner: sender }, receiver)
}

/// Calls `SyncSender::clone`, which makes another sender for the same
/// queue. The contract says that the copy has the limit of that queue;
/// nothing else is claimed of it.
#[verifier::external_body]
fn clone_sender(sender: &TaskSender) -> (copy: TaskSender)
    ensures
        queue_limit(copy) == queue_limit(*sender),
{
    TaskSender { inner: sender.inner.clone() }
}

/// Calls `SyncSender::try_send`, which queues the task if there is room and
/// never waits. The answer depends on what other threads have queued and
/// taken, so nothing is claimed of it.
#[verifier::external_body]
fn offer(sender: &TaskSender, task: Arc<Task>) -> (answer: Offer) {
    match sender.inner.try_send(task) {
        Ok(()) => Offer::Accepted,
        Err(TrySendError::Full(_)) => Offer::Full,
        Err(TrySendError::Disconnected(_)) => Offer::Disconnected,
    }
}

/// Calls `SyncSender::send`, which waits for room in the queue and then
/// queues the task. The result says whether the task was queued; it was not
/// if the executor is gone. Nothing is claimed of it.
#[verifier::external_body]
fn send(sender: &TaskSender, task: Arc<Task>) -> (queued: bool) {
    sender.inner.send(task).is_ok()
}

/// Calls `Receiver::recv`, which waits for the next task. The result is
/// `None` when the queue is empty and every sender is gone. Which task
/// arrives depends on other threads, so nothing is claimed of it.
#[verifier::external_body]
fn receive(receiver: &Receiver<Arc<Task>>) -> (task: Option<Arc<Task>>) {
    receiver.recv().ok()
}

/// Calls `futures::task::waker_ref`, which makes a waker that calls the
/// task's `wake_by_ref` when woken. Nothing is claimed of it.
#[verifier::external_body]
fn task_waker<'a>(task: &'a Arc<Task>) -> (waker: WakerRef<'a>) {
    waker_ref(task)
}

/// Calls `Deref::deref` on a `WakerRef`, which lends out the waker inside.
/// Nothing is claimed of it.
#[verifier::external_body]
fn as_waker<'a, 'b>(waker: &'a WakerRef<'b>) -> (r: &'a Waker) {
    waker
}

/// What `spawn` reports for an answer of the queue.
pub open spec fn spawn_outcome(answer: Offer) -> Result<(), SpawnError> {
    match answer {
        Offer::Accepted => Ok(()),
        Offer::Full => Err(SpawnError::QueueFull),
        Offer::Disconnected => Err(SpawnError::Disconnected),
    }
}

/// Computes [`spawn_outcome`].
pub fn spawn_result(answer: Offer) -> (result: Result<(), SpawnError>)
    ensures
        result == spawn_outcome(answer),
{
    match answer {
        Offer::Accepted => Ok(()),
        Offer::Full => Err(SpawnError::QueueFull),
        Offer::Disconnected => Err(SpawnError::Disconnected),
    }
}

/// What a step reports for an attempt on the slot of the task it took off
/// the queue.
pub open spec fn step_outcome(attempt: Attempt) -> Step {
    match attempt {
        Attempt::Vacant => Step::Skipped,
        Attempt::Pending => Step::Pending,
        Attempt::Ready => Step::Finished,
    }
}

/// Computes [`step_outcome`].
pub fn step_result(attempt: Attempt) -> (step: Step)
    ensures
        step == step_outcome(attempt),
{
    match attempt {
        Attempt::Vacant => Step::Skipped,
        Attempt::Pending => Step::Pending,
        Attempt::Ready => Step::Finished,
    }
}

impl ArcWake for Task {
    /// Wakes the task by sending it down the queue, waiting for room if the
    /// queue is full. Waking a task whose executor is gone does nothing.
    fn wake_by_ref(arc_self: &Arc<Self>) {
        let cloned = arc_self.clone();
        let _ = send(&arc_self.sender, cloned);
    }
}

/// What the executor does to the slot of a task that it has taken off the
/// queue.
///
/// A task that completed before has an empty slot: nothing is polled, the
/// slot stays empty and the step is `Skipped`. Otherwise the future is
/// polled once; it is put back if it is pending and dropped if it is done.
pub fn advance(slot: &mut Option<BoxedFuture>, cx: &mut Context<'_>) -> (step: Step)
    ensures
        *old(slot) is None ==> step == Step::Skipped && *final(slot) is None,
        *old(slot) is Some ==> step == Step::Pending || step == Step::Finished,
        *final(slot) is Some <==> step == Step::Pending,
{
    step_result(attempt_slot(slot, cx))
}

/// Makes one attempt on `task` with a waker that re-queues this very task.
fn drive(task: &Arc<Task>) -> (step: Step)
    ensures
        step != Step::Closed,
{
    let mut guard = lock(&task.future);
    let slot = guarded(&mut guard);
    let waker = task_waker(task);
    let mut cx = Context::from_waker(as_waker(&waker));
    advance(slot, &mut cx)
}

/// One step of the executor on what the queue delivered: `Closed` if and
/// only if the queue delivered nothing because it is closed, else what
/// [`advance`] makes of the task.
fn step_on(received: Option<Arc<Task>>) -> (step: Step)
    ensures
        received is None <==> step == Step::Closed,
{
    match received {
        None => Step::Closed,
        Some(task) => drive(&task),
    }
}

/// A simple task executor: receives tasks off a queue and runs them.
pub struct Executor {
    receiver: Receiver<Arc<Task>>,
}

impl Executor {
    /// Waits for the next task on the queue and makes one attempt on it.
    ///
    /// A task that is still pending stays alive through the waker it has
    /// registered somewhere; a task that has finished is dropped.
    pub fn step(&self) -> (step: Step) {
        step_on(receive(&self.receiver))
    }

    /// Runs tasks until the queue is closed, that is until every spawner is
    /// dropped and every task has completed.
    ///
    /// So that the loop provably ends it also gives up after `u64::MAX`
    /// steps.
    pub fn run(&self) {
        let mut left: u64 = u64::MAX;
        while left > 0
            decreases left,
        {
            match self.step() {
                Step::Closed => {
                    return ;
                },
                _ => {},
            }
            left = left - 1;
        }
    }
}

/// Hands new tasks to the executor. Clones feed the same executor.
pub struct TaskSpawner {
    sender: TaskSender,
}

impl Clone for TaskSpawner {
    /// Makes another spawner for the same queue.
    fn clone(&self) -> (copy: TaskSpawner)
        ensures
            copy.capacity() == self.capacity(),
    {
        TaskSpawner { sender: clone_sender(&self.sender) }
    }
}

impl TaskSpawner {
    /// The most tasks that the queue of this spawner holds at a time.
    pub closed spec fn capacity(&self) -> nat {
        queue_limit(self.sender)
    }

    /// Boxes `future`, wraps it in a task and queues the task without
    /// waiting.
    ///
    /// Fails with `QueueFull` when the queue is at its capacity, and with
    /// `Disconnected` when the executor is gone; the future is dropped then.
    pub fn spawn(&self, future: impl Future<Output = ()> + 'static + Send) -> (result: Result<
        (),
        SpawnError,
    >) {
        let future = boxed(future);
        let task = Arc::new(
            Task { future: Mutex::new(Some(future)), sender: clone_sender(&self.sender) },
        );
        spawn_result(offer(&self.sender, task))
    }
}

/// Makes an executor and a spawner joined by a queue of at most
/// `queue_capacity` tasks.
pub fn new_executor_and_spawner(queue_capacity: usize) -> (pair: (Executor, TaskSpawner))
    ensures
        pair.1.capacity() == queue_capacity,
{
    let (sender, receiver) = task_channel(queue_capacity);
    (Executor { receiver }, TaskSpawner { sender })
}

} // verus!
