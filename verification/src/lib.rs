//! Stackful coroutines that share one thread, as a verified protocol engine.
//!
//! A coroutine runs on a stack of its own and hands the thread over by a
//! symmetric transfer of control. Each transfer is accompanied by one
//! instruction, which travels through a single slot, the mailbox. This crate
//! holds everything that is decided around those transfers: what is stored in
//! the mailbox and when, which records the stack of active coroutines holds,
//! who owns the stack of a coroutine, and what a waiting coroutine and a join
//! handle report. The transfer itself, the boundary that catches the faults
//! of a task, and the polling of futures are the caller's: each operation
//! here is what is done between two of them.
//!
//! - [`worker`] holds the state of a thread and the steps of the protocol.
//! - [`coroutine`] holds the builder, the two halves of a wait and the join
//!   handle.
//! - [`switch`] holds the instructions and the mailbox.
//! - [`wait`], [`stream`] and [`producer`] are what a running coroutine uses.
//! - [`protocol`] proves what holds of every run of the protocol.
//! - [`stack`], [`reactor`] and [`channel`] declare what is used of the
//!   crates `context`, `tokio_core` and `futures`.

pub mod channel;
pub mod coroutine;
pub mod errors;
pub mod producer;
pub mod protocol;
pub mod reactor;
pub mod stack;
pub mod stream;
pub mod switch;
pub mod wait;
pub mod worker;

pub use coroutine::{Coroutine, CoroutineContext, CoroutineResult, TaskResult};
pub use errors::{Dropped, TaskFailed};
pub use producer::Producer;
pub use stream::StreamIterator;
pub use switch::{Async, Switch, Task, WaitTask};
pub use wait::Await;
pub use worker::Worker;
