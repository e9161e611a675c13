//! The core of an M:N coroutine scheduler.
//!
//! Coroutines are multiplexed onto a fixed pool of processors. Each processor
//! owns a work-stealing run queue and follows one rule: local work first,
//! then stealing from neighbours, then idling. The scheduler holds what the
//! processors share: the table of processors, the table of live coroutines,
//! the work counter and the count of awake processors.
//!
//! Everything here is a transition on plain state. Threads, context switches,
//! condition variables and panics belong to the caller: each operation that
//! needs one of them says so in the value it returns.

pub mod coroutine;
pub mod join;
pub mod options;
pub mod phase;
pub mod processor;
pub mod run_queue;
pub mod scheduler;
