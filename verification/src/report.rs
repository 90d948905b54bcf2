//! The report of a full run, and what is read off it: the counts, the list
//! of failures, and the status that the run ends with.

use crate::outcome::{ExecutionResult, Outcome, OutcomeView, ResultView};
use vstd::prelude::*;

verus! {

/// The results whose example completed, in order.
pub open spec fn completed_in(results: Seq<ResultView>) -> Seq<ResultView> {
    results.filter(|result: ResultView| result.outcome is Completed)
}

/// The results whose example failed, in order.
pub open spec fn failed_in(results: Seq<ResultView>) -> Seq<ResultView> {
    results.filter(|result: ResultView| result.outcome is Failed)
}

/// Mathematical model of a [`Failure`].
pub struct FailureView {
    pub name: Seq<char>,
    pub detail: Seq<char>,
}

/// The failure that a result stands for, if it is one.
pub open spec fn failure_of(result: ResultView) -> Option<FailureView> {
    match result.outcome {
        OutcomeView::Completed => None,
        OutcomeView::Failed(detail) => Some(FailureView { name: result.name, detail }),
    }
}

/// Name and detail of every failed example, in the order they ran.
pub open spec fn failures_of(results: Seq<ResultView>) -> Seq<FailureView> {
    results.filter_map(|result: ResultView| failure_of(result))
}

/// Every example in `results` completed.
pub open spec fn all_completed(results: Seq<ResultView>) -> bool {
    forall|i: int| 0 <= i < results.len() ==> (#[trigger] results[i]).outcome is Completed
}

/// One failed example, as the summary lists it.
#[derive(Debug)]
pub struct Failure {
    pub name: String,
    pub detail: String,
}

impl View for Failure {
    type V = FailureView;

    open spec fn view(&self) -> FailureView {
        FailureView { name: self.name@, detail: self.detail@ }
    }
}

/// The models of `failures`, in order.
pub open spec fn failure_views(failures: Seq<Failure>) -> Seq<FailureView> {
    failures.map_values(|failure: Failure| failure@)
}

/// What is told of a finished run: how many examples completed, how many
/// failed, and which.
#[derive(Debug)]
pub struct Summary {
    pub completed: usize,
    pub failed: usize,
    pub failures: Vec<Failure>,
}

/// The status a run ends with.
#[derive(Clone, Copy, Debug, PartialEq, Eq, Structural)]
pub enum ExitStatus {
    /// Every example completed.
    Success,
    /// At least one example failed.
    Failure,
}

impl ExitStatus {
    /// 0 for success, 1 for failure.
    pub open spec fn spec_code(self) -> int {
        match self {
            ExitStatus::Success => 0,
            ExitStatus::Failure => 1,
        }
    }

    /// The process exit code for this status.
    pub fn code(self) -> (code: u8)
        ensures
            code == self.spec_code(),
    {
        match self {
            ExitStatus::Success => 0,
            ExitStatus::Failure => 1,
        }
    }
}

/// The results of one run: one per example, in the order the examples ran.
#[derive(Debug)]
pub struct RunReport {
    results: Vec<ExecutionResult>,
}

/// The models of `results`, in order.
pub open spec fn result_views(results: Seq<ExecutionResult>) -> Seq<ResultView> {
    results.map_values(|result: ExecutionResult| result@)
}

impl View for RunReport {
    type V = Seq<ResultView>;

    closed spec fn view(&self) -> Seq<ResultView> {
        result_views(self.results@)
    }
}

impl RunReport {
    /// The report that holds `results`, in their order.
    pub fn from_results(results: Vec<ExecutionResult>) -> (report: RunReport)
        ensures
            report@ == result_views(results@),
    {
        RunReport { results }
    }

    /// The results, in the order the examples ran.
    pub fn results(&self) -> (results: &[ExecutionResult])
        ensures
            result_views(results@) == self@,
    {
        self.results.as_slice()
    }

    /// How many results the report holds.
    pub fn len(&self) -> (n: usize)
        ensures
            n == self@.len(),
    {
        self.results.len()
    }

    /// Whether the report holds no result.
    pub fn is_empty(&self) -> (empty: bool)
        ensures
            empty == (self@.len() == 0),
    {
        self.results.len() == 0
    }

    /// The result at position `index`; `None` past the end.
    pub fn get(&self, index: usize) -> (result: Option<&ExecutionResult>)
        ensures
            index < self@.len() ==> result is Some && result->0@ == self@[index as int],
            index >= self@.len() ==> result is None,
    {
        if index < self.results.len() {
            Some(&self.results[index])
        } else {
            None
        }
    }

    /// How many examples completed.
    pub fn completed_count(&self) -> (count: usize)
        ensures
            count == completed_in(self@).len(),
    {
        let ghost completed = |result: ResultView| result.outcome is Completed;
        let mut count: usize = 0;
        let mut i: usize = 0;
        while i < self.results.len()
            invariant
                i <= self.results.len(),
                count <= i,
                completed == |result: ResultView| result.outcome is Completed,
                count == self@.take(i as int).filter(completed).len(),
            decreases self.results.len() - i,
        {
            proof {
                let seen = self@.take(i as int);
                assert(self@.take(i + 1) =~= seen.push(self@[i as int]));
                seen.lemma_filter_len_push(completed, self@[i as int]);
            }
            if self.results[i].outcome().is_completed() {
                count += 1;
            }
            i += 1;
        }
        assert(self@.take(i as int) =~= self@);
        count
    }

    /// How many examples failed.
    pub fn failed_count(&self) -> (count: usize)
        ensures
            count == failed_in(self@).len(),
    {
        let ghost failed = |result: ResultView| result.outcome is Failed;
        let mut count: usize = 0;
        let mut i: usize = 0;
        while i < self.results.len()
            invariant
                i <= self.results.len(),
                count <= i,
                failed == |result: ResultView| result.outcome is Failed,
                count == self@.take(i as int).filter(failed).len(),
            decreases self.results.len() - i,
        {
            proof {
                let seen = self@.take(i as int);
                assert(self@.take(i + 1) =~= seen.push(self@[i as int]));
                seen.lemma_filter_len_push(failed, self@[i as int]);
            }
            if self.results[i].outcome().is_failed() {
                count += 1;
            }
            i += 1;
        }
        assert(self@.take(i as int) =~= self@);
        count
    }

    /// Name and detail of every failed example, in the order they ran.
    pub fn failures(&self) -> (failures: Vec<Failure>)
        ensures
            failure_views(failures@) == failures_of(self@),
    {
        let ghost pick = |result: ResultView| failure_of(result);
        let mut failures: Vec<Failure> = Vec::new();
        let mut i: usize = 0;
        while i < self.results.len()
            invariant
                i <= self.results.len(),
                pick == |result: ResultView| failure_of(result),
                failure_views(failures@) == self@.take(i as int).filter_map(pick),
            decreases self.results.len() - i,
        {
            let result = &self.results[i];
            let ghost before = failures@;
            proof {
                self@.lemma_filter_map_take_succ(pick, i as int);
            }
            match result.outcome() {
                Outcome::Completed => {},
                Outcome::Failed(detail) => {
                    let failure = Failure { name: result.name().to_owned(), detail: detail.clone() };
                    failures.push(failure);
                    assert(failure_views(failures@) =~= failure_views(before).push(failure@));
                },
            }
            i += 1;
        }
        assert(self@.take(i as int) =~= self@);
        failures
    }

    /// Whether every example completed.
    pub fn all_completed(&self) -> (all: bool)
        ensures
            all == all_completed(self@),
    {
        let mut i: usize = 0;
        while i < self.results.len()
            invariant
                i <= self.results.len(),
                forall|j: int| 0 <= j < i ==> (#[trigger] self@[j]).outcome is Completed,
            decreases self.results.len() - i,
        {
            if !self.results[i].outcome().is_completed() {
                assert(!(self@[i as int].outcome is Completed));
                return false;
            }
            i += 1;
        }
        true
    }

    /// Counts and failures of the run, as the closing summary tells them.
    pub fn summarize(&self) -> (summary: Summary)
        ensures
            summary.completed == completed_in(self@).len(),
            summary.failed == failed_in(self@).len(),
            failure_views(summary.failures@) == failures_of(self@),
    {
        Summary {
            completed: self.completed_count(),
            failed: self.failed_count(),
            failures: self.failures(),
        }
    }

    /// The status the run ends with: success only if every example completed.
    pub fn exit_status(&self) -> (status: ExitStatus)
        ensures
            status == (if all_completed(self@) {
                ExitStatus::Success
            } else {
                ExitStatus::Failure
            }),
    {
        if self.all_completed() {
            ExitStatus::Success
        } else {
            ExitStatus::Failure
        }
    }
}

} // verus!
