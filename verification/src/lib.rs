//! A minimal deferred-task executor.
//!
//! Producers build [`Task`]s, each with an optional deadline, and hand them to
//! a [`TaskQueue`]. One worker takes the tasks out in the order in which they
//! were accepted and runs each one unless its deadline has passed by the time
//! it is taken out.
//!
//! The crate holds the rules of that design and proves them:
//!
//! * [`clock`] reads the wall clock and turns time spans into nanoseconds;
//! * [`task`] is the unit of work and its expiration rule;
//! * [`queue`] is the first-in, first-out buffer with its write-ends and its
//!   read-end;
//! * [`worker`] is the consumer's state machine and the loop that serves what
//!   is buffered.
//!
//! Threads, blocking and synchronisation are left to the program that uses the
//! crate: it guards one queue with a lock and drives the worker with
//! [`worker::step`].

pub mod clock;
pub mod queue;
pub mod task;
pub mod worker;

pub use queue::Dequeued;
pub use queue::TaskQueue;
pub use task::Task;
pub use worker::Action;
pub use worker::Event;
pub use worker::WorkerState;
