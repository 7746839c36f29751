//! The switch protocol, without what the instructions carry.
//!
//! Seen from the mailbox, every operation of a worker is one of eight steps.
//! Five of them store an instruction and are followed by a transfer of
//! control; three take an instruction out and follow a transfer. The model
//! here keeps of a worker only the kinds of the pending instructions and the
//! number of active coroutines, and says when a step is allowed and what it
//! leads to. Each operation of a worker states which step it makes.
//!
//! What is proved of every run of allowed steps: there is never more than
//! one instruction pending, the steps that store and the steps that take
//! alternate and match, the number of active coroutines follows the steps,
//! and a new coroutine runs up to its first suspension or its end before the
//! code that spawned it goes on. And the other way round: nothing but that
//! pairing, which the transfers bring about, and that only running
//! coroutines suspend or end, is needed for every step to be allowed.

use vstd::prelude::*;
use crate::switch::Instruction;

verus! {

/// One operation of a worker, as the protocol sees it.
#[derive(Debug, Clone, Copy, PartialEq, Eq, Structural)]
pub enum Step {
    /// A coroutine is started: `StartTask` is stored.
    Spawn,
    /// The new coroutine takes `StartTask` and becomes active.
    Enter,
    /// The running coroutine suspends: `WaitFuture` is stored.
    Wait,
    /// The running coroutine ends: `Destroy` is stored.
    Leave,
    /// The code that resumed a coroutine takes `WaitFuture` or `Destroy`.
    Yielded,
    /// A suspended coroutine is resumed with its result: `Resume` is stored.
    Resume,
    /// A suspended coroutine is resumed without a result: `Cleanup` is
    /// stored.
    Cleanup,
    /// The resumed coroutine takes `Resume` or `Cleanup` and becomes active.
    Resumed,
}

impl Step {
    /// The instruction that the step stores, if it stores one.
    pub open spec fn sends(self) -> Option<Instruction> {
        match self {
            Step::Spawn => Some(Instruction::StartTask),
            Step::Wait => Some(Instruction::WaitFuture),
            Step::Leave => Some(Instruction::Destroy),
            Step::Resume => Some(Instruction::Resume),
            Step::Cleanup => Some(Instruction::Cleanup),
            Step::Enter | Step::Yielded | Step::Resumed => None,
        }
    }

    /// Whether the step is one that takes `instruction` out.
    pub open spec fn takes(self, instruction: Instruction) -> bool {
        match self {
            Step::Enter => instruction == Instruction::StartTask,
            Step::Yielded => instruction == Instruction::WaitFuture || instruction
                == Instruction::Destroy,
            Step::Resumed => instruction == Instruction::Resume || instruction
                == Instruction::Cleanup,
            Step::Spawn | Step::Wait | Step::Leave | Step::Resume | Step::Cleanup => false,
        }
    }

    /// By how much the step changes the number of active coroutines.
    pub open spec fn activates(self) -> int {
        match self {
            Step::Enter | Step::Resumed => 1,
            Step::Wait | Step::Leave => -1,
            Step::Spawn | Step::Yielded | Step::Resume | Step::Cleanup => 0,
        }
    }
}

/// What the protocol keeps of a worker.
///
/// The pending instructions are a sequence here, although a mailbox has room
/// for one: that there is never a second one is not assumed but proved.
#[verifier::ext_equal]
pub struct Phase {
    /// The kinds of the instructions that were stored and not yet taken, the
    /// oldest first.
    pub pending: Seq<Instruction>,
    /// The number of active coroutines.
    pub depth: nat,
}

impl Phase {
    /// Whether `step` is allowed.
    ///
    /// A step that stores an instruction needs an empty mailbox, and a
    /// running coroutine if it is that coroutine which suspends or ends. A
    /// step that takes an instruction needs one of a kind that it takes.
    pub open spec fn enabled(self, step: Step) -> bool {
        if step.sends() is Some {
            self.pending.len() == 0 && self.depth + step.activates() >= 0
        } else {
            self.pending.len() > 0 && step.takes(self.pending.first())
        }
    }

    /// The phase that `step` leads to.
    pub open spec fn next(self, step: Step) -> Phase {
        Phase {
            pending: match step.sends() {
                Some(instruction) => self.pending.push(instruction),
                None => self.pending.drop_first(),
            },
            depth: (self.depth + step.activates()) as nat,
        }
    }

    /// Whether each step of `steps` is allowed where it stands, if they are
    /// made one after the other from this phase on.
    pub open spec fn admits(self, steps: Seq<Step>) -> bool
        decreases steps.len(),
    {
        steps.len() == 0 || (self.enabled(steps.first()) && self.next(steps.first()).admits(
            steps.drop_first(),
        ))
    }

    /// The phase that `steps` lead to, made one after the other.
    pub open spec fn after(self, steps: Seq<Step>) -> Phase
        decreases steps.len(),
    {
        if steps.len() == 0 {
            self
        } else {
            self.next(steps.first()).after(steps.drop_first())
        }
    }
}

/// The sum of what the steps add to the number of active coroutines.
pub open spec fn activated(steps: Seq<Step>) -> int
    decreases steps.len(),
{
    if steps.len() == 0 {
        0
    } else {
        steps.first().activates() + activated(steps.drop_first())
    }
}

/// Whether the step at `i` is in its place in a run of paired transfers: a
/// step that stores an instruction if `i` is even, and if `i` is odd a step
/// that takes what the step before it stored.
pub open spec fn fits(steps: Seq<Step>, i: int) -> bool {
    if i % 2 == 0 {
        steps[i].sends() is Some
    } else {
        steps[i - 1].sends() matches Some(instruction) && steps[i].takes(instruction)
    }
}

/// Whether the transfers of `steps` come in pairs: each instruction that is
/// stored is taken, by a step for its kind, before anything else is done.
/// This is what a transfer of control brings about: the side that stored the
/// instruction stands still until the other side has taken it.
pub open spec fn paired(steps: Seq<Step>) -> bool {
    forall|i: int| 0 <= i < steps.len() ==> #[trigger] fits(steps, i)
}

/// Whether only running coroutines suspend or end in `steps`, made from a
/// depth of `depth` on: the number of active coroutines never falls below
/// zero.
pub open spec fn grounded(depth: nat, steps: Seq<Step>) -> bool {
    forall|n: int| 0 <= n <= steps.len() ==> depth + #[trigger] activated(steps.take(n)) >= 0
}

/// A run of allowed steps stays allowed when it is cut short.
pub proof fn lemma_admits_prefix(start: Phase, steps: Seq<Step>, n: int)
    requires
        start.admits(steps),
        0 <= n <= steps.len(),
    ensures
        start.admits(steps.take(n)),
    decreases n,
{
    if n > 0 {
        lemma_admits_prefix(start.next(steps.first()), steps.drop_first(), n - 1);
        assert(steps.take(n).drop_first() =~= steps.drop_first().take(n - 1));
    }
}

/// In a run of allowed steps, each step is allowed in the phase that the
/// steps before it lead to, and leads on to the phase after it.
pub proof fn lemma_step_by_step(start: Phase, steps: Seq<Step>, i: int)
    requires
        start.admits(steps),
        0 <= i < steps.len(),
    ensures
        start.after(steps.take(i)).enabled(steps[i]),
        start.after(steps.take(i + 1)) == start.after(steps.take(i)).next(steps[i]),
    decreases i,
{
    let first = steps.first();
    let rest = steps.drop_first();
    assert(steps.take(i + 1).drop_first() =~= rest.take(i));
    assert(start.after(steps.take(i + 1)) == start.next(first).after(rest.take(i)));
    if i > 0 {
        lemma_step_by_step(start.next(first), rest, i - 1);
        assert(steps.take(i).drop_first() =~= rest.take(i - 1));
    }
}

/// Mailbox framing: however the allowed steps follow each other, there is
/// never more than one instruction pending.
///
/// This holds after each of the steps, not only after the last one.
pub proof fn law_mailbox_framing(start: Phase, steps: Seq<Step>, n: int)
    requires
        start.pending.len() <= 1,
        start.admits(steps),
        0 <= n <= steps.len(),
    ensures
        start.after(steps.take(n)).pending.len() <= 1,
    decreases n,
{
    if n > 0 {
        law_mailbox_framing(start, steps, n - 1);
        lemma_step_by_step(start, steps, n - 1);
    }
}

/// Transfers come in pairs: in a run of allowed steps that begins with an
/// empty mailbox, the steps that store an instruction and the steps that take
/// one alternate, and each instruction is taken by the step right after the
/// one that stored it, which is a step that takes that kind. The mailbox is
/// empty before each step that stores and holds the one instruction before
/// each step that takes.
pub proof fn law_transfers_pair(start: Phase, steps: Seq<Step>, i: int)
    requires
        start.pending.len() == 0,
        start.admits(steps),
        0 <= i < steps.len(),
    ensures
        i % 2 == 0 ==> steps[i].sends() is Some && start.after(steps.take(i)).pending.len() == 0,
        i % 2 == 1 ==> (steps[i - 1].sends() matches Some(instruction) && steps[i].takes(
            instruction,
        ) && start.after(steps.take(i)).pending == seq![instruction]),
    decreases i,
{
    lemma_step_by_step(start, steps, i);
    if i > 0 {
        law_transfers_pair(start, steps, i - 1);
        lemma_step_by_step(start, steps, i - 1);
    }
}

/// The stack of active coroutines follows the steps: after a run of allowed
/// steps its depth is what it was, plus one for every coroutine that became
/// active, minus one for every coroutine that suspended or ended.
pub proof fn law_depth_follows_steps(start: Phase, steps: Seq<Step>)
    requires
        start.admits(steps),
    ensures
        start.after(steps).depth == start.depth + activated(steps),
    decreases steps.len(),
{
    if steps.len() > 0 {
        law_depth_follows_steps(start.next(steps.first()), steps.drop_first());
    }
}

/// The number of active coroutines after the first `n` of `steps`.
pub open spec fn depth_after(start: Phase, steps: Seq<Step>, n: int) -> nat {
    start.after(steps.take(n)).depth
}

/// Whether the run stays above the depth `depth` from after the first `from`
/// steps up to after the first `to` steps.
pub open spec fn stays_above(start: Phase, steps: Seq<Step>, depth: nat, from: int, to: int) -> bool {
    forall|m: int| from <= m <= to ==> #[trigger] depth_after(start, steps, m) > depth
}

/// Whether the step after the first `k` steps is the first one since the
/// first `from` steps that brings the run back to the depth `depth`: the run
/// has stayed above that depth, stands one level above it, and the step is
/// the suspension or the end of the coroutine that runs there.
pub open spec fn returns_at(start: Phase, steps: Seq<Step>, depth: nat, from: int, k: int) -> bool {
    &&& stays_above(start, steps, depth, from, k)
    &&& depth_after(start, steps, k) == depth + 1
    &&& steps[k] == Step::Wait || steps[k] == Step::Leave
}

/// A spawn is eager. In a run of allowed steps that begins with an empty
/// mailbox, the step after a spawn is the entry of the new coroutine, which
/// runs one level above the code that spawned it. From there on the run
/// stays above the level of that code until the coroutine at the level above
/// suspends for the first time or ends. So the code that spawned the
/// coroutine goes on only after the coroutine has run up to its first
/// suspension or to its end.
pub proof fn law_spawn_is_eager(start: Phase, steps: Seq<Step>, i: int, n: int)
    requires
        start.pending.len() == 0,
        start.admits(steps),
        0 <= i,
        i + 2 <= n <= steps.len(),
        steps[i] == Step::Spawn,
    ensures
        steps[i + 1] == Step::Enter,
        depth_after(start, steps, i + 2) == depth_after(start, steps, i) + 1,
        stays_above(start, steps, depth_after(start, steps, i), i + 2, n) || exists|k: int|
            i + 2 <= k < n && #[trigger] returns_at(
                start,
                steps,
                depth_after(start, steps, i),
                i + 2,
                k,
            ),
    decreases n,
{
    let level = depth_after(start, steps, i);
    law_transfers_pair(start, steps, i);
    law_transfers_pair(start, steps, i + 1);
    lemma_step_by_step(start, steps, i);
    lemma_step_by_step(start, steps, i + 1);
    if n > i + 2 {
        law_spawn_is_eager(start, steps, i, n - 1);
        lemma_step_by_step(start, steps, n - 1);
        if stays_above(start, steps, level, i + 2, n - 1) && depth_after(start, steps, n)
            <= level {
            // The last step is the first that brings the run back.
            assert(returns_at(start, steps, level, i + 2, n - 1));
        }
    }
}

/// The mailbox takes care of itself: if the transfers come in pairs and only
/// running coroutines suspend or end, every step of the run is allowed. So
/// no operation ever finds the mailbox occupied when it has an instruction to
/// store, or empty or with the wrong instruction when it has one to take.
pub proof fn law_paired_runs_are_allowed(start: Phase, steps: Seq<Step>)
    requires
        start.pending.len() == 0,
        paired(steps),
        grounded(start.depth, steps),
    ensures
        start.admits(steps),
    decreases steps.len(),
{
    if steps.len() > 0 {
        // The first step stores an instruction, and the mailbox is empty.
        let first = steps.first();
        let later = steps.drop_first();
        let middle = start.next(first);
        assert(fits(steps, 0));
        assert(activated(steps.take(1).drop_first()) == 0);
        assert(activated(steps.take(1)) == first.activates());
        assert(later.len() == 0 ==> middle.admits(later));
        if steps.len() > 1 {
            // The second step takes it, which leaves the mailbox empty for
            // the rest of the run.
            let second = steps[1];
            let rest = later.drop_first();
            let settled = middle.next(second);
            assert(fits(steps, 1));
            assert forall|i: int| 0 <= i < rest.len() implies #[trigger] fits(rest, i) by {
                assert(fits(steps, i + 2));
            }
            assert forall|n: int| 0 <= n <= rest.len() implies settled.depth + #[trigger] activated(
                rest.take(n),
            ) >= 0 by {
                let upto = steps.take(n + 2);
                assert(upto.drop_first().drop_first() =~= rest.take(n));
                assert(activated(upto.drop_first()) == second.activates() + activated(
                    rest.take(n),
                ));
                assert(activated(upto) == first.activates() + activated(upto.drop_first()));
            }
            law_paired_runs_are_allowed(settled, rest);
            assert(middle.admits(later));
        }
    }
}

/// The other way round: a run of allowed steps that begins with an empty
/// mailbox is one whose transfers come in pairs and in which only running
/// coroutines suspend or end.
pub proof fn law_allowed_runs_are_paired(start: Phase, steps: Seq<Step>)
    requires
        start.pending.len() == 0,
        start.admits(steps),
    ensures
        paired(steps),
        grounded(start.depth, steps),
{
    assert forall|i: int| 0 <= i < steps.len() implies #[trigger] fits(steps, i) by {
        law_transfers_pair(start, steps, i);
    }
    assert forall|n: int| 0 <= n <= steps.len() implies start.depth + #[trigger] activated(
        steps.take(n),
    ) >= 0 by {
        lemma_admits_prefix(start, steps, n);
        law_depth_follows_steps(start, steps.take(n));
    }
}

} // verus!
