//! Carrying out a plan: every action is issued, in order, whatever became
//! of the ones before it.
//!
//! The appliance has no operator at hand when its network commands fail, so
//! a failure is noted and the next action follows: partial connectivity is
//! better than none. A [`Reconciliation`] keeps the place in the plan and
//! the failures so far; the caller carries out the action it is handed and
//! reports how it went.

use vstd::prelude::*;
use crate::wireless::{Action, ActionView};

verus! {

/// Why an action failed.
#[derive(Clone, Debug, PartialEq, Eq)]
pub enum CommandError {
    /// The command could not be started; the text is the system's reason.
    Spawn(String),
    /// The command ended with this exit code, which is not zero.
    ExitCode(i32),
    /// The command ended without an exit code: it was terminated.
    Terminated,
    /// The network manager refused the request; the text is its reason.
    Refused(String),
}

/// Mathematical content of a [`CommandError`].
pub enum CommandErrorView {
    Spawn(Seq<char>),
    ExitCode(i32),
    Terminated,
    Refused(Seq<char>),
}

impl View for CommandError {
    type V = CommandErrorView;

    open spec fn view(&self) -> CommandErrorView {
        match self {
            CommandError::Spawn(reason) => CommandErrorView::Spawn(reason@),
            CommandError::ExitCode(code) => CommandErrorView::ExitCode(*code),
            CommandError::Terminated => CommandErrorView::Terminated,
            CommandError::Refused(reason) => CommandErrorView::Refused(reason@),
        }
    }
}

/// How an action went.
#[derive(Clone, Debug, PartialEq, Eq)]
pub enum Outcome {
    /// The action was carried out.
    Succeeded,
    /// The action failed.
    Failed(CommandError),
}

/// What an [`Outcome`] says of failure: the error, or `None` for success.
pub open spec fn failure_of(outcome: Outcome) -> Option<CommandErrorView> {
    match outcome {
        Outcome::Succeeded => None,
        Outcome::Failed(error) => Some(error@),
    }
}

/// What the exit of a command says of failure: nothing where the exit code
/// is zero, an error for every other code and where there is none.
pub open spec fn exit_failure(code: Option<i32>) -> Option<CommandErrorView> {
    match code {
        Some(code) => if code == 0 {
            None
        } else {
            Some(CommandErrorView::ExitCode(code))
        },
        None => Some(CommandErrorView::Terminated),
    }
}

/// Judges a command that ran to its end by its exit code, `None` where the
/// system reports none: it succeeded exactly when the code is zero.
pub fn judge_exit(code: Option<i32>) -> (outcome: Outcome)
    ensures
        failure_of(outcome) == exit_failure(code),
{
    match code {
        Some(code) => if code == 0 {
            Outcome::Succeeded
        } else {
            Outcome::Failed(CommandError::ExitCode(code))
        },
        None => Outcome::Failed(CommandError::Terminated),
    }
}

/// A failure that was noted: which step of the plan failed, and why.
#[derive(Clone, Debug, PartialEq, Eq)]
pub struct Failure {
    pub step: usize,
    pub error: CommandError,
}

/// Mathematical content of a [`Reconciliation`].
pub struct Progress {
    /// The actions to carry out, in order.
    pub plan: Seq<ActionView>,
    /// How many of them have been carried out, failed or not.
    pub issued: nat,
    /// The steps that failed, in order, each with its error.
    pub failures: Seq<(nat, CommandErrorView)>,
}

/// The progress of a plan of which nothing has been carried out yet.
pub open spec fn start(plan: Seq<ActionView>) -> Progress {
    Progress { plan, issued: 0, failures: Seq::empty() }
}

/// The action that is next, where the plan is not finished.
pub open spec fn pending(p: Progress) -> Option<ActionView> {
    if p.issued < p.plan.len() {
        Some(p.plan[p.issued as int])
    } else {
        None
    }
}

/// The progress after the pending action went as `failed` says: the place
/// moves on by one either way, and a failure is noted. A finished plan
/// stays as it is.
pub open spec fn advanced(p: Progress, failed: Option<CommandErrorView>) -> Progress {
    if p.issued < p.plan.len() {
        Progress {
            plan: p.plan,
            issued: p.issued + 1,
            failures: match failed {
                Some(error) => p.failures.push((p.issued, error)),
                None => p.failures,
            },
        }
    } else {
        p
    }
}

/// The progress after the outcomes `outcomes` have been reported in order.
pub open spec fn after(p: Progress, outcomes: Seq<Option<CommandErrorView>>) -> Progress
    decreases outcomes.len(),
{
    if outcomes.len() == 0 {
        p
    } else {
        advanced(after(p, outcomes.drop_last()), outcomes.last())
    }
}

/// The place in a plan, and the failures noted on the way.
pub struct Reconciliation {
    plan: Vec<Action>,
    issued: usize,
    failures: Vec<Failure>,
}

impl View for Reconciliation {
    type V = Progress;

    closed spec fn view(&self) -> Progress {
        Progress {
            plan: self.plan.deep_view(),
            issued: if self.issued <= self.plan.len() {
                self.issued as nat
            } else {
                self.plan.len() as nat
            },
            failures: Seq::new(
                self.failures@.len(),
                |i: int| (self.failures@[i].step as nat, self.failures@[i].error@),
            ),
        }
    }
}

impl Reconciliation {
    /// Begins to carry out `plan`.
    pub fn new(plan: Vec<Action>) -> (r: Self)
        ensures
            r@ == start(plan.deep_view()),
    {
        let r = Reconciliation { plan, issued: 0, failures: Vec::new() };
        assert(r@.failures =~= Seq::empty());
        r
    }

    /// The action to carry out next, or `None` when the plan is finished.
    pub fn next_action(&self) -> (next: Option<&Action>)
        ensures
            match next {
                Some(action) => pending(self@) == Some(action@),
                None => pending(self@) is None,
            },
    {
        if self.issued < self.plan.len() {
            Some(&self.plan[self.issued])
        } else {
            None
        }
    }

    /// Whether every action of the plan has been carried out.
    pub fn is_done(&self) -> (done: bool)
        ensures
            done == (pending(self@) is None),
    {
        self.issued >= self.plan.len()
    }

    /// Notes how the pending action went and moves on to the next one. A
    /// failure is kept for the log and changes nothing else.
    pub fn record(&mut self, outcome: Outcome)
        ensures
            final(self)@ == advanced(old(self)@, failure_of(outcome)),
    {
        if self.issued < self.plan.len() {
            let ghost before = self@;
            if let Outcome::Failed(error) = outcome {
                self.failures.push(Failure { step: self.issued, error });
                assert(self@.failures =~= before.failures.push((before.issued, error@)));
            }
            self.issued = self.issued + 1;
        }
    }

    /// The failures noted so far, in the order they occurred.
    pub fn failures(&self) -> (noted: &Vec<Failure>)
        ensures
            noted@.len() == self@.failures.len(),
            forall|i: int|
                0 <= i < noted@.len() ==> (#[trigger] noted@[i].step as nat, noted@[i].error@)
                    == self@.failures[i],
    {
        &self.failures
    }
}

/// Failures never abort a plan: whatever the outcomes reported, the plan
/// stays the same, and after `n` reports the first `n` actions have been
/// issued, or all of them where the plan is shorter.
pub proof fn law_failures_never_abort(plan: Seq<ActionView>, outcomes: Seq<Option<CommandErrorView>>)
    ensures
        after(start(plan), outcomes).plan == plan,
        after(start(plan), outcomes).issued == if outcomes.len() <= plan.len() {
            outcomes.len()
        } else {
            plan.len()
        },
        outcomes.len() < plan.len() ==> pending(after(start(plan), outcomes)) == Some(
            plan[outcomes.len() as int],
        ),
        outcomes.len() >= plan.len() ==> pending(after(start(plan), outcomes)) is None,
    decreases outcomes.len(),
{
    if outcomes.len() > 0 {
        law_failures_never_abort(plan, outcomes.drop_last());
    }
}

/// Every failure is noted and no success is: after the reports, the noted
/// failures number as many as the failures among the reports.
pub proof fn law_failures_are_noted(plan: Seq<ActionView>, outcomes: Seq<Option<CommandErrorView>>)
    requires
        outcomes.len() <= plan.len(),
    ensures
        after(start(plan), outcomes).failures.len() == outcomes.filter(
            |o: Option<CommandErrorView>| o is Some,
        ).len(),
    decreases outcomes.len(),
{
    let failed = |o: Option<CommandErrorView>| o is Some;
    if outcomes.len() == 0 {
        assert(outcomes.filter(failed) =~= Seq::empty()) by {
            reveal(Seq::filter);
        }
    } else {
        law_failures_never_abort(plan, outcomes.drop_last());
        law_failures_are_noted(plan, outcomes.drop_last());
        assert(outcomes.filter(failed) == if failed(outcomes.last()) {
            outcomes.drop_last().filter(failed).push(outcomes.last())
        } else {
            outcomes.drop_last().filter(failed)
        }) by {
            reveal(Seq::filter);
        }
    }
}

} // verus!
