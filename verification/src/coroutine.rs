//! Coroutines: how they are configured and started, how they wait, and how
//! their result is reported.

use vstd::prelude::*;
use context::stack::{ProtectedFixedSizeStack, StackError};
use futures::unsync::oneshot::{Receiver, Sender};
use futures::Canceled;
use tokio_core::reactor::Handle;
use crate::channel::channel;
use crate::errors::{Dropped, TaskFailed};
use crate::protocol::Step;
use crate::stack::{allocate, default_size};
use crate::switch::{Async, Instruction, Switch, Task, WaitTask};
use crate::worker::Worker;

verus! {

/// The record of one active coroutine.
pub struct CoroutineContext<C> {
    /// The reactor that the coroutine's futures are registered with.
    pub handle: Handle,
    /// The context that gave control to the coroutine most recently. The
    /// coroutine transfers back to it when it suspends or ends.
    pub parent_context: C,
    /// The coroutine's own stack, kept alive by the record.
    pub stack: ProtectedFixedSizeStack,
}

/// How a task ended.
pub enum TaskResult<R, P> {
    /// The task raised a fault, which carried `P`.
    Panicked(P),
    /// The task returned.
    Finished(R),
}

impl<R, P> TaskResult<R, P> {
    /// How a task ended whose run inside the boundary that catches faults
    /// gave `outcome`: the task's value, or what the fault carried.
    pub open spec fn of(outcome: Result<R, P>) -> Self {
        match outcome {
            Ok(value) => TaskResult::Finished(value),
            Err(payload) => TaskResult::Panicked(payload),
        }
    }

    /// The result of a task that ran inside the boundary which catches
    /// faults: `outcome` is the task's value, or what the fault carried.
    pub fn new(outcome: Result<R, P>) -> (result: Self)
        ensures
            result == Self::of(outcome),
    {
        match outcome {
            Ok(value) => TaskResult::Finished(value),
            Err(payload) => TaskResult::Panicked(payload),
        }
    }
}

/// The join handle of a coroutine: the receiving end of its result channel.
///
/// The coroutine runs whether or not its handle is ever looked at.
#[verifier::reject_recursive_types(R)]
#[verifier::reject_recursive_types(P)]
pub struct CoroutineResult<R, P> {
    receiver: Receiver<TaskResult<R, P>>,
}

impl<R, P> CoroutineResult<R, P> {
    /// The receiving end of the result channel.
    pub closed spec fn receiver(&self) -> Receiver<TaskResult<R, P>> {
        self.receiver
    }

    /// What a poll of the handle answers when the result channel answered
    /// `received`: the task's value once it has finished, `Panicked` with
    /// what the fault carried if it raised one, `Lost` if the channel was
    /// closed with nothing in it, and not ready as long as the channel is not.
    pub open spec fn answer(received: Result<Async<TaskResult<R, P>>, Canceled>) -> Result<
        Async<R>,
        TaskFailed<P>,
    > {
        match received {
            Ok(Async::Ready(TaskResult::Panicked(reason))) => Err(TaskFailed::Panicked(reason)),
            Ok(Async::Ready(TaskResult::Finished(result))) => Ok(Async::Ready(result)),
            Ok(Async::NotReady) => Ok(Async::NotReady),
            Err(_) => Err(TaskFailed::Lost),
        }
    }

    /// Fault isolation: a fault ends the coroutine that raised it and nothing
    /// else. However the task ended, once its result has arrived the handle
    /// reports just that: the value of a task that returned, or `Panicked`
    /// with what the fault carried.
    pub proof fn law_handle_reports_outcome(outcome: Result<R, P>)
        ensures
            Self::answer(Ok(Async::Ready(TaskResult::of(outcome)))) == (match outcome {
                Ok(value) => Ok::<Async<R>, TaskFailed<P>>(Async::Ready(value)),
                Err(payload) => Err(TaskFailed::Panicked(payload)),
            }),
    {
    }

    /// Gives up the handle for the receiving end it wraps, to be polled.
    pub fn into_receiver(self) -> (receiver: Receiver<TaskResult<R, P>>)
        ensures
            receiver == self.receiver(),
    {
        self.receiver
    }

    /// One poll of the handle. `received` is what the receiving end of the
    /// result channel answered to the poll.
    pub fn poll(received: Result<Async<TaskResult<R, P>>, Canceled>) -> (polled: Result<
        Async<R>,
        TaskFailed<P>,
    >)
        ensures
            polled == Self::answer(received),
    {
        match received {
            Ok(Async::Ready(TaskResult::Panicked(reason))) => Err(TaskFailed::Panicked(reason)),
            Ok(Async::Ready(TaskResult::Finished(result))) => Ok(Async::Ready(result)),
            Ok(Async::NotReady) => Ok(Async::NotReady),
            Err(_) => Err(TaskFailed::Lost),
        }
    }
}

/// The result slot of a wait after one step of the poll wrapper, where
/// `polled` is what the future answered to the poll and `slot` is what the
/// slot held before. A future that is not ready leaves the slot alone; one
/// that has resolved fills it with its outcome, a value or an error.
pub open spec fn stored<I, E>(polled: Result<Async<I>, E>, slot: Option<Result<I, E>>) -> Option<
    Result<I, E>,
> {
    match polled {
        Ok(Async::NotReady) => slot,
        Ok(Async::Ready(item)) => Some(Ok(item)),
        Err(error) => Some(Err(error)),
    }
}

/// What a step of the poll wrapper reports: ready, which gets the coroutine
/// resumed, as soon as the future has resolved, be it to an error.
pub open spec fn reported<I, E>(polled: Result<Async<I>, E>) -> Async<()> {
    match polled {
        Ok(Async::NotReady) => Async::NotReady,
        _ => Async::Ready(()),
    }
}

/// What a wait yields to a coroutine that was resumed with an instruction of
/// the kind `reply`, where `slot` is what the result slot holds: after
/// `Resume` what is in the slot, otherwise `Dropped`, whatever the slot
/// holds.
pub open spec fn yields<I, E>(reply: Instruction, slot: Option<Result<I, E>>) -> Result<
    Result<I, E>,
    Dropped,
> {
    if reply == Instruction::Resume {
        Ok(slot->0)
    } else {
        Err(Dropped)
    }
}

/// A wait yields what the future resolved to. The step at which the future
/// resolves is the one that reports ready. If the coroutine is resumed with
/// `Resume` after it, the wait yields the outcome of the future: `Ok` with the
/// value or `Err` with the error, inside `Ok`.
pub proof fn law_wait_yields_the_outcome<I, E>(
    polled: Result<Async<I>, E>,
    slot: Option<Result<I, E>>,
)
    ensures
        reported(polled) is Ready <==> !(polled matches Ok(Async::NotReady)),
        polled matches Ok(Async::Ready(item)) ==> yields(Instruction::Resume, stored(polled, slot))
            == Ok::<Result<I, E>, Dropped>(Ok(item)),
        polled matches Err(error) ==> yields(Instruction::Resume, stored(polled, slot)) == Ok::<
            Result<I, E>,
            Dropped,
        >(Err(error)),
        yields(Instruction::Cleanup, stored(polled, slot)) == Err::<Result<I, E>, Dropped>(Dropped),
{
}

/// A waiting coroutine is held back until its future is ready. As long as
/// the future answers that it is not ready, the step reports the same, the
/// reactor is handed no context to resume, and task and slot stay as they
/// are. The first step at which the future has resolved hands out the
/// context that the task holds.
pub proof fn law_held_back_until_ready<C, W, I, E>(
    task: WaitTask<C, W>,
    polled: Result<Async<I>, E>,
    slot: Option<Result<I, E>>,
)
    ensures
        polled matches Ok(Async::NotReady) ==> {
            &&& task.resumes(reported(polled).handling()) is None
            &&& task.handled(reported(polled).handling()) == task
            &&& stored(polled, slot) == slot
        },
        !(polled matches Ok(Async::NotReady)) ==> task.resumes(reported(polled).handling())
            == task.context,
{
}

/// One step of the wrapper that drives a future on behalf of a waiting
/// coroutine.
///
/// `polled` is what the future answered to one poll. While the future is not
/// ready the slot is left alone. Once it resolves, its outcome, a value or an
/// error, is stored in `slot` and the step reports that it is ready, which
/// gets the coroutine resumed.
pub fn poll_step<I, E>(polled: Result<Async<I>, E>, slot: &mut Option<Result<I, E>>) -> (step:
    Async<()>)
    ensures
        step == reported(polled),
        *final(slot) == stored(polled, *old(slot)),
{
    let outcome = match polled {
        Ok(Async::NotReady) => {
            return Async::NotReady;
        },
        Ok(Async::Ready(item)) => Ok(item),
        Err(error) => Err(error),
    };
    *slot = Some(outcome);
    Async::Ready(())
}

/// What a suspended coroutine keeps of its record until it is resumed.
pub struct Waiting {
    handle: Handle,
    stack: ProtectedFixedSizeStack,
}

impl Waiting {
    /// The reactor handle of the suspended coroutine.
    pub closed spec fn handle(&self) -> Handle {
        self.handle
    }

    /// The stack of the suspended coroutine.
    pub closed spec fn stack(&self) -> ProtectedFixedSizeStack {
        self.stack
    }

    /// The second half of a wait: the coroutine has control again.
    ///
    /// `context` is the context that the transfer came from, which is the
    /// coroutine's parent from now on, and `slot` is the result slot of the
    /// wait. The coroutine becomes active again whatever the reply is, with
    /// the reactor handle and the stack that it had before. After `Resume`
    /// the wait yields what the poll step stored in the slot; after `Cleanup`
    /// the future is gone and the wait yields `Dropped`, whatever the slot
    /// holds.
    ///
    /// Any other instruction, or `Resume` with an empty slot, breaks the
    /// protocol.
    pub fn resumed<C, T, W, I, E>(
        self,
        worker: &mut Worker<C, T, W>,
        context: C,
        slot: Option<Result<I, E>>,
    ) -> (outcome: Result<Result<I, E>, Dropped>)
        requires
            old(worker).mailbox() matches Some(reply) && (reply is Cleanup || (reply is Resume
                && slot is Some)),
        ensures
            outcome == yields(old(worker).mailbox()->0.instruction(), slot),
            final(worker).mailbox() is None,
            final(worker).contexts() == old(worker).contexts().push(
                (CoroutineContext {
                    handle: self.handle(),
                    parent_context: context,
                    stack: self.stack(),
                }),
            ),
            old(worker).phase().enabled(Step::Resumed),
            final(worker).phase() == old(worker).phase().next(Step::Resumed),
    {
        let reply = worker.take();
        worker.push(
            CoroutineContext { handle: self.handle, parent_context: context, stack: self.stack },
        );
        match reply {
            Switch::Resume => Ok(slot.unwrap()),
            _ => Err(Dropped),
        }
    }
}

/// A builder of coroutines: the reactor they run on and the size of their
/// stacks. Any number of coroutines can be spawned from one builder.
pub struct Coroutine {
    handle: Handle,
    stack_size: usize,
}

impl Clone for Coroutine {
    /// A builder with the same stack size and a copy of the reactor handle.
    fn clone(&self) -> (copy: Self)
        ensures
            copy.size() == self.size(),
            cloned(self.handle(), copy.handle()),
    {
        Coroutine { handle: self.handle.clone(), stack_size: self.stack_size }
    }
}

impl Coroutine {
    /// The reactor handle that spawned coroutines get a copy of.
    pub closed spec fn handle(&self) -> Handle {
        self.handle
    }

    /// The size, in bytes, that is asked for the stack of a spawned
    /// coroutine.
    pub closed spec fn size(&self) -> usize {
        self.stack_size
    }

    /// Whether `size` is what the platform answered when it was asked which
    /// stack size it suggests.
    pub closed spec fn suggested(size: usize) -> bool {
        call_ensures(default_size, (), size)
    }

    /// Whether `allocated` is what came of asking the platform for a stack
    /// of `size` bytes.
    pub closed spec fn allocates(
        size: usize,
        allocated: Result<ProtectedFixedSizeStack, StackError>,
    ) -> bool {
        call_ensures(allocate, (size,), allocated)
    }

    /// Whether `sender` and `receiver` were made as the two ends of one
    /// result channel.
    pub closed spec fn joins<R, P>(
        sender: Sender<TaskResult<R, P>>,
        receiver: Receiver<TaskResult<R, P>>,
    ) -> bool {
        call_ensures(channel::<TaskResult<R, P>>, (), (sender, receiver))
    }

    /// What starting a coroutine on `stack`, from a builder with the reactor
    /// handle `handle`, makes of the worker `before`: the mailbox holds the
    /// instruction to start a task on that stack. The task's reactor handle
    /// is a copy of `handle`, and its body is what `make_task` made from the
    /// sending end of the channel of which `receiver` is the other end. The
    /// active coroutines are as they were.
    pub open spec fn prepares<R, P, C, T, W, M: FnOnce(Sender<TaskResult<R, P>>) -> T>(
        handle: Handle,
        make_task: M,
        stack: ProtectedFixedSizeStack,
        receiver: Receiver<TaskResult<R, P>>,
        before: Worker<C, T, W>,
        after: Worker<C, T, W>,
    ) -> bool {
        &&& after.contexts() == before.contexts()
        &&& after.mailbox() matches Some(Switch::StartTask { stack: starting, task })
            && starting == stack && cloned(handle, task.handle)
            && exists|sender: Sender<TaskResult<R, P>>|
                Self::joins(sender, receiver)
                    && #[trigger] call_ensures(make_task, (sender,), task.body)
        &&& before.phase().enabled(Step::Spawn)
        &&& after.phase() == before.phase().next(Step::Spawn)
    }

    /// What `spawn` from a builder with the reactor handle `handle` and the
    /// stack size `size` makes of the worker `before`, and what it returns.
    ///
    /// The platform is asked for a stack of `size` bytes. If there is none,
    /// its error is returned and the worker is as it was. If there is one,
    /// the coroutine is prepared on it, and the join handle that is returned
    /// is the receiving end of the task's result channel.
    pub open spec fn spawns<R, P, C, T, W, M: FnOnce(Sender<TaskResult<R, P>>) -> T>(
        handle: Handle,
        size: usize,
        make_task: M,
        before: Worker<C, T, W>,
        after: Worker<C, T, W>,
        spawned: Result<CoroutineResult<R, P>, StackError>,
    ) -> bool {
        match spawned {
            Ok(result) => {
                &&& after.mailbox() matches Some(Switch::StartTask { stack, .. })
                &&& Self::allocates(size, Ok(stack))
                &&& Self::prepares(handle, make_task, stack, result.receiver(), before, after)
            },
            Err(error) => {
                &&& Self::allocates(size, Err(error))
                &&& after.mailbox() is None
                &&& after.contexts() == before.contexts()
            },
        }
    }

    /// A builder for coroutines on the reactor behind `handle`, with stacks
    /// of `size` bytes.
    pub fn with_stack_size(handle: Handle, size: usize) -> (builder: Self)
        ensures
            builder.handle() == handle,
            builder.size() == size,
    {
        Coroutine { handle, stack_size: size }
    }

    /// A builder for coroutines on the reactor behind `handle`, with the
    /// stack size that the platform suggests.
    pub fn new(handle: Handle) -> (builder: Self)
        ensures
            builder.handle() == handle,
            Self::suggested(builder.size()),
    {
        Coroutine::with_stack_size(handle, default_size())
    }

    /// The same as [`Coroutine::new`].
    pub fn build(handle: Handle) -> (builder: Self)
        ensures
            builder.handle() == handle,
            Self::suggested(builder.size()),
    {
        Coroutine::new(handle)
    }

    /// Sets the size of the stacks of the coroutines spawned from now on.
    ///
    /// No size is refused here. One that the platform cannot provide makes
    /// `spawn` fail.
    pub fn stack_size(&mut self, size: usize) -> (builder: &mut Self)
        ensures
            builder.size() == size,
            builder.handle() == old(self).handle(),
            *final(self) == *final(builder),
    {
        self.stack_size = size;
        self
    }

    /// What `spawn` does once the stack was asked for.
    ///
    /// If there is no stack, the error is passed on as it is: nothing has
    /// changed and `make_task` was not called. If there is one, a result
    /// channel is made, `make_task` turns its sending end into the body of
    /// the task, the mailbox gets the instruction to start the task on the
    /// stack, and the receiving end is returned as the join handle.
    ///
    /// No transfer may be under way.
    pub fn start<R, P, C, T, W, M>(
        &self,
        worker: &mut Worker<C, T, W>,
        allocated: Result<ProtectedFixedSizeStack, StackError>,
        make_task: M,
    ) -> (started: Result<CoroutineResult<R, P>, StackError>) where
        M: FnOnce(Sender<TaskResult<R, P>>) -> T,

        requires
            old(worker).mailbox() is None,
            forall|sender: Sender<TaskResult<R, P>>| call_requires(make_task, (sender,)),
        ensures
            match allocated {
                Ok(stack) => {
                    &&& started matches Ok(result)
                    &&& Self::prepares(
                        self.handle(),
                        make_task,
                        stack,
                        result.receiver(),
                        *old(worker),
                        *final(worker),
                    )
                },
                Err(error) => {
                    &&& started matches Err(passed)
                    &&& passed == error
                    &&& final(worker).mailbox() is None
                    &&& final(worker).contexts() == old(worker).contexts()
                },
            },
    {
        match allocated {
            Ok(stack) => {
                let (sender, receiver) = channel();
                let handle = self.handle.clone();
                let body = make_task(sender);
                worker.put(Switch::StartTask { stack, task: Task { handle, body } });
                assert(worker.mailbox()->0->StartTask_task.body == body);
                Ok(CoroutineResult { receiver })
            },
            Err(error) => Err(error),
        }
    }

    /// Prepares a new coroutine, up to the first transfer into it.
    ///
    /// A stack of the configured size is allocated first. If that fails, the
    /// error is returned and nothing else has happened. Otherwise a result
    /// channel is made, and `make_task` turns its sending end into the body
    /// that the coroutine will run. The mailbox holds the instruction to
    /// start the task on the new stack, the task has a copy of the builder's
    /// reactor handle, and the receiving end of the channel is returned as
    /// the join handle.
    ///
    /// No transfer may be under way.
    pub fn spawn<R, P, C, T, W, M>(&self, worker: &mut Worker<C, T, W>, make_task: M) -> (spawned:
        Result<CoroutineResult<R, P>, StackError>) where M: FnOnce(Sender<TaskResult<R, P>>) -> T
        requires
            old(worker).mailbox() is None,
            forall|sender: Sender<TaskResult<R, P>>| call_requires(make_task, (sender,)),
        ensures
            Self::spawns(
                self.handle(),
                self.size(),
                make_task,
                *old(worker),
                *final(worker),
                spawned,
            ),
    {
        self.start(worker, allocate(self.stack_size), make_task)
    }

    /// The same as [`Coroutine::spawn`], for a task that is not known to leave
    /// what it shares in order when it faults. Whether it does is the
    /// caller's promise, for which there is nothing to check here.
    pub fn spawn_aus<R, P, C, T, W, M>(&self, worker: &mut Worker<C, T, W>, make_task: M) -> (spawned:
        Result<CoroutineResult<R, P>, StackError>) where M: FnOnce(Sender<TaskResult<R, P>>) -> T
        requires
            old(worker).mailbox() is None,
            forall|sender: Sender<TaskResult<R, P>>| call_requires(make_task, (sender,)),
        ensures
            Self::spawns(
                self.handle(),
                self.size(),
                make_task,
                *old(worker),
                *final(worker),
                spawned,
            ),
    {
        self.spawn(worker, make_task)
    }

    /// Prepares a coroutine with the default configuration, as `spawn` does
    /// from a new builder for `handle`: the stack is of the size that the
    /// platform suggests.
    pub fn with_defaults<R, P, C, T, W, M>(
        handle: Handle,
        worker: &mut Worker<C, T, W>,
        make_task: M,
    ) -> (spawned: Result<CoroutineResult<R, P>, StackError>) where
        M: FnOnce(Sender<TaskResult<R, P>>) -> T,

        requires
            old(worker).mailbox() is None,
            forall|sender: Sender<TaskResult<R, P>>| call_requires(make_task, (sender,)),
        ensures
            exists|size: usize| #[trigger]
                Self::suggested(size) && Self::spawns(
                    handle,
                    size,
                    make_task,
                    *old(worker),
                    *final(worker),
                    spawned,
                ),
    {
        Coroutine::new(handle).spawn(worker, make_task)
    }

    /// A copy of the reactor handle of the running coroutine.
    ///
    /// There has to be a running coroutine.
    pub fn reactor<C, T, W>(worker: &Worker<C, T, W>) -> (handle: Handle)
        requires
            worker.contexts().len() > 0,
        ensures
            cloned(worker.contexts().last().handle, handle),
    {
        worker.current().handle.clone()
    }

    /// The first half of a wait: the running coroutine suspends.
    ///
    /// The coroutine's record leaves the stack of active coroutines, and the
    /// mailbox gets the instruction to drive `poll`, with a copy of the
    /// coroutine's reactor handle and no context yet. What is handed out is
    /// what the coroutine keeps while it is suspended, and the context of its
    /// parent, which is to be transferred to next.
    ///
    /// There has to be a running coroutine, and no transfer under way.
    pub fn wait<C, T, W>(worker: &mut Worker<C, T, W>, poll: W) -> (suspended: (Waiting, C))
        requires
            old(worker).in_coroutine(),
        ensures
            Self::suspends(*old(worker), *final(worker), poll, suspended),
    {
        let record = worker.pop();
        let task = WaitTask { poll, context: None, handle: record.handle.clone() };
        worker.put(Switch::WaitFuture { task });
        (Waiting { handle: record.handle, stack: record.stack }, record.parent_context)
    }

    /// The first half of a wait, for a caller that does not know whether a
    /// coroutine is running.
    ///
    /// Where user code of a coroutine runs, this is [`Coroutine::wait`].
    /// Where none does, be it that no coroutine is active or that a transfer
    /// is under way, there is nothing that could wait: the poll step comes
    /// back as it was given, nothing is stored in the mailbox and the active
    /// coroutines are as they were. This holds of every poll step, whatever
    /// future is behind it.
    pub fn try_wait<C, T, W>(worker: &mut Worker<C, T, W>, poll: W) -> (suspended: Result<
        (Waiting, C),
        W,
    >)
        ensures
            old(worker).in_coroutine() ==> (suspended matches Ok(halves) && Self::suspends(
                *old(worker),
                *final(worker),
                poll,
                halves,
            )),
            !old(worker).in_coroutine() ==> {
                &&& suspended == Err::<(Waiting, C), W>(poll)
                &&& final(worker).mailbox() == old(worker).mailbox()
                &&& final(worker).contexts() == old(worker).contexts()
            },
    {
        if worker.depth() > 0 && worker.pending().is_none() {
            Ok(Coroutine::wait(worker, poll))
        } else {
            Err(poll)
        }
    }

    /// What the first half of a wait on `poll` makes of the worker `before`,
    /// whose running coroutine suspends, and what it hands out.
    pub open spec fn suspends<C, T, W>(
        before: Worker<C, T, W>,
        after: Worker<C, T, W>,
        poll: W,
        suspended: (Waiting, C),
    ) -> bool {
        let record = before.contexts().last();
        &&& suspended.0.handle() == record.handle
        &&& suspended.0.stack() == record.stack
        &&& suspended.1 == record.parent_context
        &&& after.contexts() == before.contexts().drop_last()
        &&& after.mailbox() matches Some(Switch::WaitFuture { task }) && task.poll == poll
            && task.context is None && cloned(record.handle, task.handle)
        &&& before.phase().enabled(Step::Wait)
        &&& after.phase() == before.phase().next(Step::Wait)
    }
}

} // verus!
