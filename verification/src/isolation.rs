//! Running one example so that the way its action ends, normally or not,
//! becomes an ordinary recorded result.

use crate::outcome::{outcome_of, Completion, ExecutionResult, Outcome, OutcomeView, ResultView};
use crate::registry::{Example, ExampleView};
use vstd::prelude::*;

verus! {

/// Where one example stands within a run.
#[derive(Debug)]
pub enum Phase {
    /// Not started yet.
    Pending,
    /// The action has been called and has not ended.
    Running,
    /// The action returned normally.
    Completed,
    /// The action ended abnormally, with this diagnostic text.
    Failed(String),
}

/// Mathematical model of a [`Phase`].
pub enum PhaseView {
    Pending,
    Running,
    Completed,
    Failed(Seq<char>),
}

impl View for Phase {
    type V = PhaseView;

    open spec fn view(&self) -> PhaseView {
        match self {
            Phase::Pending => PhaseView::Pending,
            Phase::Running => PhaseView::Running,
            Phase::Completed => PhaseView::Completed,
            Phase::Failed(detail) => PhaseView::Failed(detail@),
        }
    }
}

impl PhaseView {
    /// `Completed` and `Failed` end an example's run.
    pub open spec fn is_terminal(self) -> bool {
        self is Completed || self is Failed
    }

    /// The phase after the action is called: only a pending example starts.
    pub open spec fn begun(self) -> PhaseView {
        match self {
            PhaseView::Pending => PhaseView::Running,
            other => other,
        }
    }

    /// The phase after the action ended with `completion`: only a running
    /// example ends.
    pub open spec fn settled(self, completion: Completion) -> PhaseView {
        match self {
            PhaseView::Running => match completion {
                Ok(_) => PhaseView::Completed,
                Err(detail) => PhaseView::Failed(detail@),
            },
            other => other,
        }
    }

    /// The outcome that a terminal phase stands for.
    pub open spec fn outcome(self) -> Option<OutcomeView> {
        match self {
            PhaseView::Completed => Some(OutcomeView::Completed),
            PhaseView::Failed(detail) => Some(OutcomeView::Failed(detail)),
            _ => None,
        }
    }
}

impl Phase {
    /// Whether the example has ended.
    pub fn is_terminal(&self) -> (terminal: bool)
        ensures
            terminal == self@.is_terminal(),
    {
        match self {
            Phase::Completed => true,
            Phase::Failed(_) => true,
            _ => false,
        }
    }

    /// Enters `Running` from `Pending`; any other phase stays as it is.
    pub fn begin(self) -> (next: Phase)
        ensures
            next@ == self@.begun(),
    {
        match self {
            Phase::Pending => Phase::Running,
            other => other,
        }
    }

    /// Leaves `Running` for the terminal phase that `completion` calls for;
    /// any other phase stays as it is.
    pub fn settle(self, completion: Completion) -> (next: Phase)
        ensures
            next@ == self@.settled(completion),
    {
        match self {
            Phase::Running => match completion {
                Ok(_) => Phase::Completed,
                Err(detail) => Phase::Failed(detail),
            },
            other => other,
        }
    }

    /// The outcome of a terminal phase; `None` while the example has not ended.
    pub fn into_outcome(self) -> (outcome: Option<Outcome>)
        ensures
            match self@.outcome() {
                Some(expected) => outcome is Some && outcome->0@ == expected,
                None => outcome is None,
            },
    {
        match self {
            Phase::Completed => Some(Outcome::Completed),
            Phase::Failed(detail) => Some(Outcome::Failed(detail)),
            _ => None,
        }
    }
}

/// `result` is what a run of `example` may record: it carries the example's
/// name, and its outcome is that of some way the action can end.
pub open spec fn recorded<F: Fn() -> Completion>(example: ExampleView<F>, result: ResultView) -> bool {
    &&& result.name == example.name
    &&& exists|completion: Completion| #[trigger]
        call_ensures(example.action, (), completion) && result.outcome == outcome_of(completion)
}

/// Every call of `action` returns normally.
pub open spec fn always_completes<F: Fn() -> Completion>(action: F) -> bool {
    forall|completion: Completion| #[trigger]
        call_ensures(action, (), completion) ==> completion is Ok
}

/// Every call of `action` ends abnormally.
pub open spec fn always_aborts<F: Fn() -> Completion>(action: F) -> bool {
    forall|completion: Completion| #[trigger]
        call_ensures(action, (), completion) ==> completion is Err
}

/// Every call of `action` ends the same way: two calls cannot be told apart
/// by what is recorded of them.
pub open spec fn deterministic<F: Fn() -> Completion>(action: F) -> bool {
    forall|first: Completion, second: Completion|
        #[trigger] call_ensures(action, (), first) && #[trigger] call_ensures(action, (), second)
            ==> outcome_of(first) == outcome_of(second)
}

/// What `run` records once the action has ended with `completion`.
pub open spec fn result_of(name: Seq<char>, completion: Completion) -> ResultView {
    ResultView { name, outcome: outcome_of(completion) }
}

/// Takes an example that has just ended with `completion` through its phases
/// and records the terminal one under `name`.
pub fn conclude(name: &str, completion: Completion) -> (result: ExecutionResult)
    ensures
        result@ == result_of(name@, completion),
{
    let phase = Phase::Pending.begin().settle(completion);
    match phase.into_outcome() {
        Some(outcome) => ExecutionResult::new(name, outcome),
        None => unreached(),
    }
}

/// Calls the example's action once and records how it ended. An abnormal end
/// is a `Failed` result like any other: nothing propagates to the caller.
pub fn run<F: Fn() -> Completion>(example: &Example<F>) -> (result: ExecutionResult)
    requires
        call_requires(example.action, ()),
    ensures
        recorded(example@, result@),
{
    let completion = (example.action)();
    let ghost ended = completion;
    let result = conclude(example.name.as_str(), completion);
    assert(call_ensures(example@.action, (), ended));
    result
}

} // verus!
