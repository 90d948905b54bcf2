//! Running every registered example, in registration order, and collecting
//! one result for each.

use crate::isolation::{recorded, run};
use crate::outcome::{Completion, ExecutionResult, ResultView};
use crate::registry::{views_of, well_formed, ExampleView, Registry};
use crate::report::{result_views, RunReport};
use vstd::prelude::*;

verus! {

/// `report` is what a full run over `examples` may produce: one result per
/// example, in the same order, each one recorded from a run of its example.
pub open spec fn ran_all<F: Fn() -> Completion>(
    examples: Seq<ExampleView<F>>,
    report: Seq<ResultView>,
) -> bool {
    &&& report.len() == examples.len()
    &&& forall|i: int| 0 <= i < examples.len() ==> recorded(examples[i], #[trigger] report[i])
}

/// Runs every example once, strictly one after the other in registration
/// order, and returns the full report. A failed example is recorded and the
/// run goes on with the next; none is run again.
pub fn run_all<F: Fn() -> Completion>(registry: &Registry<F>) -> (report: RunReport)
    ensures
        ran_all(registry@, report@),
{
    let examples = registry.all();
    let mut results: Vec<ExecutionResult> = Vec::new();
    let mut i: usize = 0;
    while i < examples.len()
        invariant
            i <= examples.len(),
            views_of(examples@) == registry@,
            well_formed(registry@),
            results@.len() == i,
            forall|j: int| 0 <= j < i ==> recorded(registry@[j], (#[trigger] results@[j])@),
        decreases examples.len() - i,
    {
        assert(call_requires(registry@[i as int].action, ()));
        let result = run(&examples[i]);
        results.push(result);
        i += 1;
    }
    let report = RunReport::from_results(results);
    assert forall|j: int| 0 <= j < registry@.len() implies recorded(
        registry@[j],
        #[trigger] report@[j],
    ) by {
        assert(report@[j] == results@[j]@);
    }
    report
}

} // verus!
