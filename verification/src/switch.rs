//! The instructions that accompany a transfer of control, and the mailbox
//! that carries them.
//!
//! A transfer hands over one machine word, which is too little for a task, a
//! stack or a future. So whoever gives up control first stores an instruction
//! in the mailbox, and whoever gains control takes it out. At most one
//! transfer is under way on a thread, so one slot is enough.

use vstd::prelude::*;
use context::stack::ProtectedFixedSizeStack;
use tokio_core::reactor::Handle;

verus! {

/// The outcome of one poll: a value, or nothing yet.
#[derive(Debug, PartialEq, Eq)]
pub enum Async<T> {
    Ready(T),
    NotReady,
}

/// What a new coroutine runs: the body, and the reactor handle that the
/// coroutine's record will hold.
pub struct Task<T> {
    pub handle: Handle,
    pub body: T,
}

/// A suspended coroutine as the reactor holds it: the step that polls the
/// future, the context to go back to once the step is ready, and the handle
/// of the reactor to register with.
///
/// `context` is empty while the instruction that carries the task is in the
/// mailbox; the scheduler fills it in. It is taken out when the coroutine is
/// resumed, so that a suspended coroutine is resumed once and no more.
pub struct WaitTask<C, W> {
    pub poll: W,
    pub context: Option<C>,
    pub handle: Handle,
}

impl Async<()> {
    /// What the reactor has done with a task whose poll step answered this.
    pub open spec fn handling(self) -> Handling {
        match self {
            Async::Ready(_) => Handling::Ready,
            Async::NotReady => Handling::NotReady,
        }
    }
}

/// What the reactor does with a task that it holds.
#[derive(Debug, Clone, Copy, PartialEq, Eq, Structural)]
pub enum Handling {
    /// It ran the poll step, which was not ready.
    NotReady,
    /// It ran the poll step, which was ready.
    Ready,
    /// It dropped the task.
    Dropped,
}

impl<C, W> WaitTask<C, W> {
    /// The context that is handed out for a resumption when the reactor
    /// handles the task, if one is.
    pub open spec fn resumes(self, handling: Handling) -> Option<C> {
        match handling {
            Handling::NotReady => None,
            Handling::Ready | Handling::Dropped => self.context,
        }
    }

    /// The task after the reactor handled it.
    pub open spec fn handled(self, handling: Handling) -> Self {
        match handling {
            Handling::NotReady => self,
            Handling::Ready | Handling::Dropped => WaitTask {
                poll: self.poll,
                context: None,
                handle: self.handle,
            },
        }
    }

    /// The contexts that are handed out for a resumption over all that the
    /// reactor does with the task, in `handlings`.
    pub open spec fn resumptions(self, handlings: Seq<Handling>) -> Seq<C>
        decreases handlings.len(),
    {
        if handlings.len() == 0 {
            Seq::empty()
        } else {
            let later = self.handled(handlings.first()).resumptions(handlings.drop_first());
            match self.resumes(handlings.first()) {
                Some(context) => seq![context] + later,
                None => later,
            }
        }
    }

    /// A suspended coroutine is resumed once and no more: whatever the
    /// reactor does with the task and however often, it is handed the
    /// context at most once. It is handed the context exactly once if the
    /// task holds one and the reactor gets as far as a poll step that is
    /// ready or drops the task.
    pub proof fn law_resumed_once(self, handlings: Seq<Handling>)
        ensures
            self.resumptions(handlings).len() <= 1,
            self.context is None ==> self.resumptions(handlings).len() == 0,
            (self.context is Some && exists|i: int|
                0 <= i < handlings.len() && handlings[i] != Handling::NotReady)
                ==> self.resumptions(handlings) == seq![self.context->0],
        decreases handlings.len(),
    {
        if handlings.len() > 0 {
            let first = handlings.first();
            let rest = handlings.drop_first();
            self.handled(first).law_resumed_once(rest);
            if self.context is Some && first == Handling::NotReady {
                if exists|i: int| 0 <= i < handlings.len() && handlings[i] != Handling::NotReady {
                    let i = choose|i: int|
                        0 <= i < handlings.len() && handlings[i] != Handling::NotReady;
                    assert(rest[i - 1] == handlings[i]);
                }
            }
        }
    }

    /// What the reactor does after it ran the poll step once.
    ///
    /// While the step is not ready the task stays as it is. Once the step
    /// is ready the context is taken out of the task and handed out, to be
    /// resumed with `Resume`.
    pub(crate) fn polled(&mut self, step: Async<()>) -> (resume: Option<C>)
        ensures
            resume == old(self).resumes(step.handling()),
            *final(self) == old(self).handled(step.handling()),
    {
        match step {
            Async::NotReady => None,
            Async::Ready(_) => self.context.take(),
        }
    }

    /// What is done when the reactor drops the task.
    ///
    /// A coroutine that is still suspended must not be left behind: its
    /// context is taken out and handed out, to be resumed with `Cleanup`.
    pub(crate) fn dropped(&mut self) -> (cleanup: Option<C>)
        ensures
            cleanup == old(self).resumes(Handling::Dropped),
            *final(self) == old(self).handled(Handling::Dropped),
    {
        self.context.take()
    }
}

/// The instruction that accompanies one transfer of control.
#[allow(inconsistent_fields)]
pub enum Switch<C, T, W> {
    /// To a new coroutine: run `task` on `stack`.
    StartTask { stack: ProtectedFixedSizeStack, task: Task<T> },
    /// From a coroutine that suspends: drive `task` and come back.
    WaitFuture { task: WaitTask<C, W> },
    /// To a suspended coroutine: the future has resolved.
    Resume,
    /// To a suspended coroutine: the future was dropped, there will be no
    /// result.
    Cleanup,
    /// From a coroutine that has ended: free `stack`.
    Destroy { stack: ProtectedFixedSizeStack },
}

/// The kind of an instruction, without what it carries.
#[derive(Debug, Clone, Copy, PartialEq, Eq, Structural)]
pub enum Instruction {
    StartTask,
    WaitFuture,
    Resume,
    Cleanup,
    Destroy,
}

impl<C, T, W> Switch<C, T, W> {
    /// The kind of this instruction.
    pub open spec fn instruction(self) -> Instruction {
        match self {
            Switch::StartTask { .. } => Instruction::StartTask,
            Switch::WaitFuture { .. } => Instruction::WaitFuture,
            Switch::Resume => Instruction::Resume,
            Switch::Cleanup => Instruction::Cleanup,
            Switch::Destroy { .. } => Instruction::Destroy,
        }
    }

    /// The kind of this instruction.
    pub fn kind(&self) -> (kind: Instruction)
        ensures
            kind == self.instruction(),
    {
        match self {
            Switch::StartTask { .. } => Instruction::StartTask,
            Switch::WaitFuture { .. } => Instruction::WaitFuture,
            Switch::Resume => Instruction::Resume,
            Switch::Cleanup => Instruction::Cleanup,
            Switch::Destroy { .. } => Instruction::Destroy,
        }
    }
}

/// The slot that carries one instruction alongside each transfer.
pub struct Mailbox<C, T, W> {
    slot: Option<Switch<C, T, W>>,
}

impl<C, T, W> View for Mailbox<C, T, W> {
    type V = Option<Switch<C, T, W>>;

    /// The instruction that is pending, if any.
    closed spec fn view(&self) -> Option<Switch<C, T, W>> {
        self.slot
    }
}

impl<C, T, W> Mailbox<C, T, W> {
    /// An empty mailbox.
    pub fn new() -> (mailbox: Self)
        ensures
            mailbox@ is None,
    {
        Mailbox { slot: None }
    }

    /// Whether an instruction is pending.
    pub fn is_empty(&self) -> (empty: bool)
        ensures
            empty == (self@ is None),
    {
        self.slot.is_none()
    }

    /// The instruction that is pending, if any, without taking it out.
    pub fn peek(&self) -> (pending: Option<&Switch<C, T, W>>)
        ensures
            self@ is None ==> pending is None,
            self@ matches Some(switch) ==> pending == Some(&switch),
    {
        self.slot.as_ref()
    }

    /// Stores `switch` for the side that gains control next.
    ///
    /// The mailbox has to be empty: an instruction that is still there was
    /// meant for a transfer that has not been answered.
    pub fn put(&mut self, switch: Switch<C, T, W>)
        requires
            old(self)@ is None,
        ensures
            final(self)@ == Some(switch),
    {
        self.slot = Some(switch);
    }

    /// Stores `switch` if the mailbox is empty. If an instruction is pending,
    /// it stays where it is: the new one neither replaces nor joins it and
    /// comes back as it was given.
    pub fn try_put(&mut self, switch: Switch<C, T, W>) -> (refused: Result<(), Switch<C, T, W>>)
        ensures
            old(self)@ is None ==> refused is Ok && final(self)@ == Some(switch),
            old(self)@ is Some ==> refused == Err::<(), Switch<C, T, W>>(switch) && final(self)@
                == old(self)@,
    {
        if self.slot.is_none() {
            self.slot = Some(switch);
            Ok(())
        } else {
            Err(switch)
        }
    }

    /// Takes out the instruction that came with the transfer.
    ///
    /// There has to be one: whoever handed over control stored it first.
    pub fn take(&mut self) -> (switch: Switch<C, T, W>)
        requires
            old(self)@ is Some,
        ensures
            old(self)@ == Some(switch),
            final(self)@ is None,
    {
        self.slot.take().unwrap()
    }
}

} // verus!
