//! Best-effort application of a list of commands.
//!
//! The device offers no transaction, so a batch hands out its commands one
//! at a time and goes on after a failure: the caller performs each command
//! and records whether it succeeded, and the batch counts the failures.
use vstd::prelude::*;
use crate::reconcile::{commands_view, Command, CommandModel};

verus! {

/// Position and failure count after one more command was recorded.
pub open spec fn recorded(next: nat, failures: nat, succeeded: bool) -> (nat, nat) {
    (next + 1, if succeeded {
        failures
    } else {
        failures + 1
    })
}

/// The commands handed out, from position `next` on, while the outcomes are
/// recorded in turn.
pub open spec fn attempted(
    cmds: Seq<CommandModel>,
    next: nat,
    failures: nat,
    outcomes: Seq<bool>,
) -> Seq<CommandModel>
    decreases outcomes.len(),
{
    if outcomes.len() == 0 || next >= cmds.len() {
        seq![]
    } else {
        let (n, f) = recorded(next, failures, outcomes[0]);
        seq![cmds[next as int]] + attempted(cmds, n, f, outcomes.drop_first())
    }
}

/// The number of failures among the outcomes.
pub open spec fn failures_in(outcomes: Seq<bool>) -> nat
    decreases outcomes.len(),
{
    if outcomes.len() == 0 {
        0
    } else {
        failures_in(outcomes.drop_last()) + if outcomes.last() {
            0nat
        } else {
            1nat
        }
    }
}

/// A list of commands being applied.
pub struct Batch {
    commands: Vec<Command>,
    next: usize,
    failures: usize,
}

impl Batch {
    /// The commands of the batch.
    pub closed spec fn commands(&self) -> Seq<CommandModel> {
        commands_view(self.commands@)
    }

    /// Index of the next command to hand out.
    pub closed spec fn position(&self) -> nat {
        self.next as nat
    }

    /// How many recorded commands failed.
    pub closed spec fn failure_count(&self) -> nat {
        self.failures as nat
    }

    pub closed spec fn wf(&self) -> bool {
        &&& self.next <= self.commands@.len()
        &&& self.failures <= self.next
    }

    /// A batch that has handed out nothing yet.
    pub fn new(commands: Vec<Command>) -> (r: Batch)
        ensures
            r.wf(),
            r.commands() == commands_view(commands@),
            r.position() == 0,
            r.failure_count() == 0,
    {
        Batch { commands, next: 0, failures: 0 }
    }

    /// The command to perform next, or `None` once all were handed out.
    pub fn next_command(&self) -> (r: Option<&Command>)
        requires
            self.wf(),
        ensures
            self.position() < self.commands().len() ==> r is Some && r->Some_0@
                == self.commands()[self.position() as int],
            self.position() >= self.commands().len() ==> r is None,
    {
        assert(self.commands().len() == self.commands@.len());
        if self.next < self.commands.len() {
            Some(&self.commands[self.next])
        } else {
            None
        }
    }

    /// Records the outcome of the command last handed out and moves on,
    /// whether it succeeded or not.
    pub fn record(&mut self, succeeded: bool)
        requires
            old(self).wf(),
            old(self).position() < old(self).commands().len(),
        ensures
            final(self).wf(),
            final(self).commands() == old(self).commands(),
            (final(self).position(), final(self).failure_count()) == recorded(
                old(self).position(),
                old(self).failure_count(),
                succeeded,
            ),
    {
        let n = self.commands.len();
        assert(self.commands().len() == n);
        self.next = self.next + 1;
        if !succeeded {
            self.failures = self.failures + 1;
        }
    }

    /// Whether every command was handed out.
    pub fn is_done(&self) -> (r: bool)
        requires
            self.wf(),
        ensures
            r == (self.position() >= self.commands().len()),
    {
        assert(self.commands().len() == self.commands@.len());
        self.next >= self.commands.len()
    }

    /// How many recorded commands failed.
    pub fn failures(&self) -> (r: usize)
        ensures
            r == self.failure_count(),
    {
        self.failures
    }
}

/// A failure does not stop a batch: whatever the outcomes, every command
/// from the current position on is handed out, once and in order.
pub proof fn lemma_every_command_attempted(
    cmds: Seq<CommandModel>,
    next: nat,
    failures: nat,
    outcomes: Seq<bool>,
)
    requires
        next <= cmds.len(),
        outcomes.len() == cmds.len() - next,
    ensures
        attempted(cmds, next, failures, outcomes) == cmds.subrange(next as int, cmds.len() as int),
    decreases outcomes.len(),
{
    if outcomes.len() == 0 {
        assert(cmds.subrange(next as int, cmds.len() as int) =~= seq![]);
    } else {
        let (n, f) = recorded(next, failures, outcomes[0]);
        lemma_every_command_attempted(cmds, n, f, outcomes.drop_first());
        assert(seq![cmds[next as int]] + cmds.subrange(n as int, cmds.len() as int) =~= cmds.subrange(
            next as int,
            cmds.len() as int,
        ));
    }
}

/// Position and failure count after recording the outcomes in turn.
pub open spec fn fold_recorded(next: nat, failures: nat, outcomes: Seq<bool>) -> (nat, nat)
    decreases outcomes.len(),
{
    if outcomes.len() == 0 {
        (next, failures)
    } else {
        let (n, f) = fold_recorded(next, failures, outcomes.drop_last());
        recorded(n, f, outcomes.last())
    }
}

/// Recording the outcomes in turn counts exactly the failures among them.
pub proof fn lemma_failures_counted(next: nat, failures: nat, outcomes: Seq<bool>)
    ensures
        fold_recorded(next, failures, outcomes) == (next + outcomes.len(), failures + failures_in(
            outcomes,
        )),
    decreases outcomes.len(),
{
    if outcomes.len() > 0 {
        lemma_failures_counted(next, failures, outcomes.drop_last());
    }
}

} // verus!
