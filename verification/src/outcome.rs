//! Outcomes of running one example, and the record kept of each run.

use vstd::prelude::*;

verus! {

/// How a call of an example's action ended: `Ok` on a normal return, `Err`
/// with whatever diagnostic text was available when it ended abnormally.
pub type Completion = Result<(), String>;

/// The terminal state of one example within a run.
#[derive(Debug)]
pub enum Outcome {
    /// The action returned normally.
    Completed,
    /// The action ended abnormally; the text says what is known of why.
    Failed(String),
}

/// Mathematical model of an [`Outcome`].
pub enum OutcomeView {
    Completed,
    Failed(Seq<char>),
}

impl View for Outcome {
    type V = OutcomeView;

    open spec fn view(&self) -> OutcomeView {
        match self {
            Outcome::Completed => OutcomeView::Completed,
            Outcome::Failed(detail) => OutcomeView::Failed(detail@),
        }
    }
}

/// The outcome that a completion is recorded as.
pub open spec fn outcome_of(completion: Completion) -> OutcomeView {
    match completion {
        Ok(_) => OutcomeView::Completed,
        Err(detail) => OutcomeView::Failed(detail@),
    }
}

impl Outcome {
    /// Turns the way an action ended into the outcome recorded for it.
    pub fn from_completion(completion: Completion) -> (outcome: Outcome)
        ensures
            outcome@ == outcome_of(completion),
    {
        match completion {
            Ok(_) => Outcome::Completed,
            Err(detail) => Outcome::Failed(detail),
        }
    }

    /// Whether the example completed.
    pub fn is_completed(&self) -> (b: bool)
        ensures
            b == (self@ is Completed),
    {
        match self {
            Outcome::Completed => true,
            Outcome::Failed(_) => false,
        }
    }

    /// Whether the example failed.
    pub fn is_failed(&self) -> (b: bool)
        ensures
            b == (self@ is Failed),
    {
        match self {
            Outcome::Completed => false,
            Outcome::Failed(_) => true,
        }
    }

    /// The diagnostic text of a failure; `None` for a completed example.
    pub fn detail(&self) -> (detail: Option<&str>)
        ensures
            match self@ {
                OutcomeView::Completed => detail is None,
                OutcomeView::Failed(text) => detail is Some && detail->0@ == text,
            },
    {
        match self {
            Outcome::Completed => None,
            Outcome::Failed(detail) => Some(detail.as_str()),
        }
    }
}

impl Clone for Outcome {
    fn clone(&self) -> (copy: Outcome)
        ensures
            copy@ == self@,
    {
        match self {
            Outcome::Completed => Outcome::Completed,
            Outcome::Failed(detail) => Outcome::Failed(detail.clone()),
        }
    }
}

impl PartialEq for Outcome {
    fn eq(&self, other: &Outcome) -> (equal: bool) {
        match (self, other) {
            (Outcome::Completed, Outcome::Completed) => true,
            (Outcome::Failed(a), Outcome::Failed(b)) => *a == *b,
            _ => false,
        }
    }
}

impl vstd::std_specs::cmp::PartialEqSpecImpl for Outcome {
    open spec fn obeys_eq_spec() -> bool {
        true
    }

    open spec fn eq_spec(&self, other: &Outcome) -> bool {
        self@ == other@
    }
}

/// Mathematical model of an [`ExecutionResult`].
pub struct ResultView {
    pub name: Seq<char>,
    pub outcome: OutcomeView,
}

/// What one run of one example produced: its name and its terminal state.
#[derive(Debug)]
pub struct ExecutionResult {
    name: String,
    outcome: Outcome,
}

impl View for ExecutionResult {
    type V = ResultView;

    closed spec fn view(&self) -> ResultView {
        ResultView { name: self.name@, outcome: self.outcome@ }
    }
}

impl ExecutionResult {
    /// The result of the example called `name` having ended in `outcome`.
    pub fn new(name: &str, outcome: Outcome) -> (result: ExecutionResult)
        ensures
            result@ == (ResultView { name: name@, outcome: outcome@ }),
    {
        ExecutionResult { name: name.to_owned(), outcome }
    }

    /// The name of the example that ran.
    pub fn name(&self) -> (name: &str)
        ensures
            name@ == self@.name,
    {
        self.name.as_str()
    }

    /// How the example ended.
    pub fn outcome(&self) -> (outcome: &Outcome)
        ensures
            outcome@ == self@.outcome,
    {
        &self.outcome
    }
}

impl Clone for ExecutionResult {
    fn clone(&self) -> (copy: ExecutionResult)
        ensures
            copy@ == self@,
    {
        ExecutionResult { name: self.name.clone(), outcome: self.outcome.clone() }
    }
}

} // verus!
