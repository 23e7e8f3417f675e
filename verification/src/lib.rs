//! A small cooperative task runtime: a single-threaded executor, a timer
//! future, and two combinators that run futures side by side or one after
//! the other.

pub mod and_then_future;
pub mod executor;
pub mod join_future;
pub mod slot;
pub mod std_task;
pub mod sync;
pub mod timer_future;

pub use and_then_future::may_run_second;
pub use and_then_future::AndThenFuture;
pub use executor::advance;
pub use executor::new_executor_and_spawner;
pub use executor::spawn_result;
pub use executor::step_result;
pub use executor::Executor;
pub use executor::MAX_QUEUED_TASKS;
pub use executor::Offer;
pub use executor::SpawnError;
pub use executor::Step;
pub use executor::TaskSpawner;
pub use join_future::answer_join;
pub use join_future::JoinFuture;
pub use slot::attempt_slot;
pub use slot::boxed;
pub use slot::report;
pub use slot::settle;
pub use slot::Attempt;
pub use slot::BoxedFuture;
pub use timer_future::SharedState;
pub use timer_future::Timekeeper;
pub use timer_future::TimerFuture;
pub use timer_future::TimerModel;
