//! The state of one thread that runs coroutines: the mailbox and the stack of
//! active coroutines.
//!
//! A coroutine is active from the moment it gains control until it suspends
//! or ends. An active coroutine that starts or resumes another one stays
//! active below it, so the records nest, and their number is the depth at
//! which the running code sits. Code that runs with no record at all is the
//! scheduler's.
//!
//! Every operation that changes a worker is one step of the switch protocol:
//! it either stores the instruction for a transfer that the caller makes
//! next, or takes the instruction that came with the transfer that the caller
//! has just received. See [`crate::protocol`] for what follows from that.

use vstd::prelude::*;
use context::stack::ProtectedFixedSizeStack;
use futures::unsync::oneshot::Sender;
use crate::channel::send;
use crate::coroutine::{CoroutineContext, TaskResult};
use crate::protocol::{Phase, Step};
use crate::switch::{Async, Handling, Instruction, Mailbox, Switch, WaitTask};

verus! {

/// What a coroutine asks of the code that resumed it, once control is back
/// there.
pub enum Yielded<C, W> {
    /// The coroutine has ended. Its stack came back with the transfer and is
    /// to be freed here, on another stack, after `context`, which points into
    /// it, is gone.
    Finished { context: C, stack: ProtectedFixedSizeStack },
    /// The coroutine waits for a future. `task` holds the context to resume
    /// and is to be handed to the reactor.
    Waiting { task: WaitTask<C, W> },
}

/// The mailbox and the stack of active coroutines of one thread.
pub struct Worker<C, T, W> {
    mailbox: Mailbox<C, T, W>,
    contexts: Vec<CoroutineContext<C>>,
}

impl<C, T, W> Worker<C, T, W> {
    /// The instruction that is pending in the mailbox, if any.
    pub closed spec fn mailbox(&self) -> Option<Switch<C, T, W>> {
        self.mailbox@
    }

    /// The records of the active coroutines, the running one last.
    pub closed spec fn contexts(&self) -> Seq<CoroutineContext<C>> {
        self.contexts@
    }

    /// User code of a coroutine is running: no transfer is under way and a
    /// coroutine is active.
    pub open spec fn in_coroutine(&self) -> bool {
        self.mailbox() is None && self.contexts().len() > 0
    }

    /// What the protocol keeps of the worker: the kind of the instruction
    /// that is pending, and the number of active coroutines.
    pub open spec fn phase(&self) -> Phase {
        Phase {
            pending: match self.mailbox() {
                Some(switch) => seq![switch.instruction()],
                None => Seq::empty(),
            },
            depth: self.contexts().len(),
        }
    }

    /// A worker with an empty mailbox and no active coroutine.
    pub fn new() -> (worker: Self)
        ensures
            worker.mailbox() is None,
            worker.contexts() == Seq::<CoroutineContext<C>>::empty(),
    {
        Worker { mailbox: Mailbox::new(), contexts: Vec::new() }
    }

    /// The kind of the instruction that is pending, if any.
    pub fn pending(&self) -> (kind: Option<Instruction>)
        ensures
            kind == match self.mailbox() {
                Some(switch) => Some(switch.instruction()),
                None => None,
            },
    {
        match self.mailbox.peek() {
            Some(switch) => Some(switch.kind()),
            None => None,
        }
    }

    /// The number of active coroutines.
    pub fn depth(&self) -> (depth: usize)
        ensures
            depth == self.contexts().len(),
    {
        self.contexts.len()
    }

    /// The record of the running coroutine.
    ///
    /// There has to be an active coroutine.
    pub fn current(&self) -> (record: &CoroutineContext<C>)
        requires
            self.contexts().len() > 0,
        ensures
            *record == self.contexts().last(),
    {
        &self.contexts[self.contexts.len() - 1]
    }

    /// The stack that a coroutine is about to be started on, for the context
    /// of the new coroutine to be made on it.
    ///
    /// The mailbox has to hold `StartTask`.
    pub fn starting_stack(&self) -> (stack: &ProtectedFixedSizeStack)
        requires
            self.mailbox() matches Some(start) && start is StartTask,
        ensures
            self.mailbox() matches Some(Switch::StartTask { stack: starting, .. }) && *stack
                == starting,
    {
        match self.mailbox.peek() {
            Some(Switch::StartTask { stack, .. }) => stack,
            _ => unreached(),
        }
    }

    /// Stores the instruction for a transfer that is about to be made.
    pub(crate) fn put(&mut self, switch: Switch<C, T, W>)
        requires
            old(self).mailbox() is None,
        ensures
            final(self).mailbox() == Some(switch),
            final(self).contexts() == old(self).contexts(),
    {
        self.mailbox.put(switch);
    }

    /// Takes out the instruction that came with a transfer.
    pub(crate) fn take(&mut self) -> (switch: Switch<C, T, W>)
        requires
            old(self).mailbox() is Some,
        ensures
            old(self).mailbox() == Some(switch),
            final(self).mailbox() is None,
            final(self).contexts() == old(self).contexts(),
    {
        self.mailbox.take()
    }

    /// Activates a coroutine: its record goes on top of the stack.
    pub(crate) fn push(&mut self, record: CoroutineContext<C>)
        ensures
            final(self).contexts() == old(self).contexts().push(record),
            final(self).mailbox() == old(self).mailbox(),
    {
        self.contexts.push(record);
    }

    /// Deactivates the running coroutine and hands out its record.
    pub(crate) fn pop(&mut self) -> (record: CoroutineContext<C>)
        requires
            old(self).contexts().len() > 0,
        ensures
            record == old(self).contexts().last(),
            final(self).contexts() == old(self).contexts().drop_last(),
            final(self).mailbox() == old(self).mailbox(),
    {
        self.contexts.pop().unwrap()
    }

    /// Whether `answer` is what came of sending `result` through `sender`:
    /// the result was stored for the receiving end, or it was handed back
    /// because that end is gone.
    pub closed spec fn sends<R, P>(
        sender: Sender<TaskResult<R, P>>,
        result: TaskResult<R, P>,
        answer: Result<(), TaskResult<R, P>>,
    ) -> bool {
        call_ensures(send::<TaskResult<R, P>>, (sender, result), answer)
    }

    /// The first thing a new coroutine does: it takes the instruction that
    /// started it and becomes active.
    ///
    /// `parent` is the context that the transfer came from. The record that
    /// goes on the stack holds the task's reactor handle, `parent`, and the
    /// stack that the instruction carried, which the coroutine now runs on.
    /// The task's body is handed out, to be run inside the boundary that
    /// catches faults.
    ///
    /// Any instruction but `StartTask`, or none, breaks the protocol.
    pub fn enter(&mut self, parent: C) -> (body: T)
        requires
            old(self).mailbox() matches Some(start) && start is StartTask,
        ensures
            old(self).mailbox() matches Some(Switch::StartTask { stack, task }) && body == task.body
                && final(self).contexts() == old(self).contexts().push(
                (CoroutineContext { handle: task.handle, parent_context: parent, stack }),
            ),
            final(self).mailbox() is None,
            old(self).phase().enabled(Step::Enter),
            final(self).phase() == old(self).phase().next(Step::Enter),
    {
        match self.take() {
            Switch::StartTask { stack, task } => {
                self.push(CoroutineContext { handle: task.handle, parent_context: parent, stack });
                task.body
            },
            _ => unreached(),
        }
    }

    /// The last thing a coroutine does: it reports how its task ended, gives
    /// up its record and sends its stack back.
    ///
    /// `outcome` is what the run of the task inside the boundary that catches
    /// faults gave: the task's value, or what the fault carried. It is sent
    /// to the join handle first, while the coroutine still has its record. A
    /// join handle that was dropped is no error: the result comes back
    /// unchanged, for the caller to drop.
    ///
    /// A coroutine cannot free the stack it runs on. So the stack travels in
    /// the `Destroy` instruction to the parent, whose context is handed out
    /// to be transferred to, and the parent frees it.
    ///
    /// There has to be a running coroutine, and no transfer under way.
    pub fn finish<R, P>(&mut self, sender: Sender<TaskResult<R, P>>, outcome: Result<R, P>) -> (left:
        (C, Result<(), TaskResult<R, P>>))
        requires
            old(self).in_coroutine(),
        ensures
            left.0 == old(self).contexts().last().parent_context,
            Self::sends(sender, TaskResult::of(outcome), left.1),
            left.1 matches Err(result) ==> result == TaskResult::of(outcome),
            final(self).contexts() == old(self).contexts().drop_last(),
            final(self).mailbox() == Some(
                Switch::<C, T, W>::Destroy { stack: old(self).contexts().last().stack },
            ),
            old(self).phase().enabled(Step::Leave),
            final(self).phase() == old(self).phase().next(Step::Leave),
    {
        let undelivered = send(sender, TaskResult::new(outcome));
        let record = self.pop();
        self.put(Switch::Destroy { stack: record.stack });
        (record.parent_context, undelivered)
    }

    /// What the code that resumed a coroutine does when control comes back:
    /// it takes the coroutine's instruction and learns what is asked of it.
    ///
    /// `context` is the context that the transfer came from, which is where
    /// the coroutine stands now. After `Destroy` the coroutine has ended and
    /// its stack is handed out together with `context`. After `WaitFuture`
    /// the coroutine is suspended: `context` is stored in the task, which is
    /// handed out for the reactor.
    ///
    /// Any other instruction, or none, breaks the protocol.
    pub fn yielded(&mut self, context: C) -> (yielded: Yielded<C, W>)
        requires
            old(self).mailbox() matches Some(reply) && (reply is Destroy || reply is WaitFuture),
        ensures
            old(self).mailbox() matches Some(Switch::Destroy { stack }) ==> yielded
                == (Yielded::<C, W>::Finished { context, stack }),
            old(self).mailbox() matches Some(Switch::WaitFuture { task }) ==> yielded
                == (Yielded::Waiting {
                task: WaitTask { poll: task.poll, context: Some(context), handle: task.handle },
            }),
            final(self).mailbox() is None,
            final(self).contexts() == old(self).contexts(),
            old(self).phase().enabled(Step::Yielded),
            final(self).phase() == old(self).phase().next(Step::Yielded),
    {
        match self.take() {
            Switch::Destroy { stack } => Yielded::Finished { context, stack },
            Switch::WaitFuture { task } => Yielded::Waiting {
                task: WaitTask { poll: task.poll, context: Some(context), handle: task.handle },
            },
            _ => unreached(),
        }
    }

    /// What the reactor does with a suspended coroutine after it ran the
    /// poll step of its task once; `step` is what the poll step reported.
    ///
    /// While the step is not ready nothing happens. Once it is ready, the
    /// context is taken out of the task and handed out, to be transferred to,
    /// and the mailbox holds `Resume` for it. A task without a context was
    /// resumed before and is left alone.
    ///
    /// No transfer may be under way.
    pub fn resume(&mut self, task: &mut WaitTask<C, W>, step: Async<()>) -> (context: Option<C>)
        requires
            old(self).mailbox() is None,
        ensures
            context == old(task).resumes(step.handling()),
            *final(task) == old(task).handled(step.handling()),
            final(self).contexts() == old(self).contexts(),
            context is None ==> final(self).mailbox() is None,
            context is Some ==> {
                &&& final(self).mailbox() == Some(Switch::<C, T, W>::Resume)
                &&& old(self).phase().enabled(Step::Resume)
                &&& final(self).phase() == old(self).phase().next(Step::Resume)
            },
    {
        let context = task.polled(step);
        if context.is_some() {
            self.put(Switch::Resume);
        }
        context
    }

    /// What is done with a suspended coroutine when the reactor drops its
    /// task.
    ///
    /// A coroutine must not be left suspended for good. If the task still
    /// holds the context, it is taken out and handed out, to be transferred
    /// to, and the mailbox holds `Cleanup` for it. A task without a context
    /// was resumed before and is left alone.
    ///
    /// No transfer may be under way.
    pub fn cleanup(&mut self, task: &mut WaitTask<C, W>) -> (context: Option<C>)
        requires
            old(self).mailbox() is None,
        ensures
            context == old(task).resumes(Handling::Dropped),
            *final(task) == old(task).handled(Handling::Dropped),
            final(self).contexts() == old(self).contexts(),
            context is None ==> final(self).mailbox() is None,
            context is Some ==> {
                &&& final(self).mailbox() == Some(Switch::<C, T, W>::Cleanup)
                &&& old(self).phase().enabled(Step::Cleanup)
                &&& final(self).phase() == old(self).phase().next(Step::Cleanup)
            },
    {
        let context = task.dropped();
        if context.is_some() {
            self.put(Switch::Cleanup);
        }
        context
    }
}

} // verus!
