//! The running coroutine as its own code sees it.

use vstd::prelude::*;
use tokio_core::reactor::Handle;
use crate::coroutine::{Coroutine, Waiting};
use crate::stream::StreamIterator;
use crate::worker::Worker;

verus! {

/// The running coroutine of a worker.
///
/// [`Await::current`] hands one out only while user code of a coroutine
/// runs, which is what every method asks for.
pub struct Await<'a, C, T, W> {
    pub worker: &'a mut Worker<C, T, W>,
}

impl<'a, C, T, W> Await<'a, C, T, W> {
    /// The running coroutine of `worker`, if user code of a coroutine is
    /// running there: a coroutine is active and no transfer is under way.
    /// Otherwise there is nothing that could wait.
    pub fn current(worker: &'a mut Worker<C, T, W>) -> (current: Option<Self>)
        ensures
            current is Some <==> old(worker).in_coroutine(),
            current matches Some(running) ==> *running.worker == *old(worker)
                && *final(running.worker) == *final(worker),
            current is None ==> *final(worker) == *old(worker),
    {
        if worker.depth() > 0 && worker.pending().is_none() {
            Some(Await { worker })
        } else {
            None
        }
    }

    /// The reactor handle of the coroutine.
    pub fn handle(&self) -> (handle: &Handle)
        requires
            old(self.worker).in_coroutine(),
        ensures
            *handle == old(self.worker).contexts().last().handle,
    {
        &self.worker.current().handle
    }

    /// The first half of a wait, as [`Coroutine::wait`] does it: the
    /// coroutine suspends until `poll` is ready.
    pub fn future(self, poll: W) -> (suspended: (Waiting, C))
        requires
            old(self.worker).in_coroutine(),
        ensures
            Coroutine::suspends(*old(self.worker), *final(self.worker), poll, suspended),
    {
        Coroutine::wait(self.worker, poll)
    }

    /// The first half of giving way once: the coroutine suspends and is
    /// resumed as soon as the reactor gets to it. `poll` is to be a step that
    /// is ready at its first run; for the protocol it is a wait like any
    /// other.
    pub fn yield_now(self, poll: W) -> (suspended: (Waiting, C))
        requires
            old(self.worker).in_coroutine(),
        ensures
            Coroutine::suspends(*old(self.worker), *final(self.worker), poll, suspended),
    {
        self.future(poll)
    }

    /// An iterator over the items of `stream`, each of which the coroutine
    /// waits for.
    pub fn stream<S>(&self, stream: S) -> (iterator: StreamIterator<S>)
        ensures
            iterator@ == Some(stream),
    {
        StreamIterator::new(stream)
    }
}

} // verus!
