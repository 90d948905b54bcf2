//! Properties that hold of the library as a whole, each proved from the
//! contracts of the functions it speaks of.

use crate::isolation::{always_aborts, always_completes, deterministic, recorded, PhaseView};
use crate::outcome::{outcome_of, Completion, OutcomeView, ResultView};
use crate::registry::{accepts, after_register, all_callable, names_of, well_formed, ExampleView};
use crate::report::{
    all_completed, completed_in, failed_in, failure_of, failures_of, FailureView,
};
use crate::runner::ran_all;
use vstd::prelude::*;

verus! {

/// The names in `results`, in order.
pub open spec fn result_names(results: Seq<ResultView>) -> Seq<Seq<char>> {
    results.map_values(|result: ResultView| result.name)
}

/// The outcomes in `results`, in order.
pub open spec fn result_outcomes(results: Seq<ResultView>) -> Seq<OutcomeView> {
    results.map_values(|result: ResultView| result.outcome)
}

/// A full run reports on every example exactly once and in registration
/// order: the report is as long as the registry, and the names in it are the
/// registered names.
pub proof fn lemma_report_follows_registry<F: Fn() -> Completion>(
    examples: Seq<ExampleView<F>>,
    report: Seq<ResultView>,
)
    requires
        ran_all(examples, report),
    ensures
        report.len() == examples.len(),
        result_names(report) == names_of(examples),
        forall|i: int| 0 <= i < examples.len() ==> (#[trigger] report[i]).name == examples[i].name,
{
    assert(result_names(report) =~= names_of(examples));
}

/// An example whose action always returns normally is recorded as
/// `Completed`, whatever run recorded it.
pub proof fn lemma_completing_action_is_completed<F: Fn() -> Completion>(
    example: ExampleView<F>,
    result: ResultView,
)
    requires
        always_completes(example.action),
        recorded(example, result),
    ensures
        result.outcome is Completed,
{
}

/// An example whose action always ends abnormally is recorded as `Failed`,
/// whatever run recorded it.
pub proof fn lemma_aborting_action_is_failed<F: Fn() -> Completion>(
    example: ExampleView<F>,
    result: ResultView,
)
    requires
        always_aborts(example.action),
        recorded(example, result),
    ensures
        result.outcome is Failed,
{
}

/// In a full run, the example at `index` completing every time shows as
/// `Completed` at `index` of the report.
pub proof fn lemma_run_records_completion<F: Fn() -> Completion>(
    examples: Seq<ExampleView<F>>,
    report: Seq<ResultView>,
    index: int,
)
    requires
        ran_all(examples, report),
        0 <= index < examples.len(),
        always_completes(examples[index].action),
    ensures
        report[index].outcome is Completed,
{
    lemma_completing_action_is_completed(examples[index], report[index]);
}

/// In a full run, an example that always ends abnormally shows as `Failed`
/// at its place in the report, and the run goes on: every later example has
/// its own recorded result too.
pub proof fn lemma_run_survives_failure<F: Fn() -> Completion>(
    examples: Seq<ExampleView<F>>,
    report: Seq<ResultView>,
    index: int,
)
    requires
        ran_all(examples, report),
        0 <= index < examples.len(),
        always_aborts(examples[index].action),
    ensures
        report[index].outcome is Failed,
        report.len() == examples.len(),
        forall|later: int|
            index < later < examples.len() ==> recorded(examples[later], #[trigger] report[later]),
{
    lemma_aborting_action_is_failed(examples[index], report[index]);
}

/// Two full runs over the same examples, all of whose actions are
/// deterministic, give the same report.
pub proof fn lemma_runs_agree<F: Fn() -> Completion>(
    examples: Seq<ExampleView<F>>,
    first: Seq<ResultView>,
    second: Seq<ResultView>,
)
    requires
        ran_all(examples, first),
        ran_all(examples, second),
        forall|i: int| 0 <= i < examples.len() ==> deterministic(#[trigger] examples[i].action),
    ensures
        first == second,
        result_names(first) == result_names(second),
        result_outcomes(first) == result_outcomes(second),
{
    assert forall|i: int| 0 <= i < examples.len() implies first[i] == second[i] by {
        assert(recorded(examples[i], first[i]));
        assert(recorded(examples[i], second[i]));
        assert(deterministic(examples[i].action));
    }
    assert(first =~= second);
}

/// Once a name has been offered for registration, offering it again is
/// refused and changes nothing, whether or not the first offer was accepted.
pub proof fn lemma_second_registration_refused<F: Fn() -> Completion>(
    examples: Seq<ExampleView<F>>,
    name: Seq<char>,
    first: F,
    second: F,
)
    ensures
        !accepts(after_register(examples, name, first), name),
        after_register(after_register(examples, name, first), name, second) == after_register(
            examples,
            name,
            first,
        ),
{
    let after = after_register(examples, name, first);
    if accepts(examples, name) {
        assert(names_of(after) =~= names_of(examples).push(name));
        assert(names_of(after)[examples.len() as int] == name);
    }
}

/// A refused registration leaves the registry exactly as it was; an accepted
/// one keeps every earlier example in place and adds the new one at the end.
pub proof fn lemma_registration_appends_or_keeps<F: Fn() -> Completion>(
    examples: Seq<ExampleView<F>>,
    name: Seq<char>,
    action: F,
)
    ensures
        !accepts(examples, name) ==> after_register(examples, name, action) == examples,
        accepts(examples, name) ==> {
            let after = after_register(examples, name, action);
            &&& after.len() == examples.len() + 1
            &&& after.take(examples.len() as int) == examples
            &&& after.last() == (ExampleView { name, action })
        },
{
    if accepts(examples, name) {
        let after = after_register(examples, name, action);
        assert(after.take(examples.len() as int) =~= examples);
    }
}

/// Registration keeps a registry well formed: names stay distinct and every
/// action stays callable.
pub proof fn lemma_registration_keeps_well_formed<F: Fn() -> Completion>(
    examples: Seq<ExampleView<F>>,
    name: Seq<char>,
    action: F,
)
    requires
        well_formed(examples),
        call_requires(action, ()),
    ensures
        well_formed(after_register(examples, name, action)),
{
    let after = after_register(examples, name, action);
    if accepts(examples, name) {
        assert(names_of(after) =~= names_of(examples).push(name));
        assert(all_callable(after)) by {
            assert forall|i: int| 0 <= i < after.len() implies call_requires(
                #[trigger] after[i].action,
                (),
            ) by {
                if i < examples.len() {
                    assert(after[i] == examples[i]);
                }
            }
        }
    }
}

/// Every example of a run either completed or failed: the two counts add up
/// to the length of the report.
pub proof fn lemma_counts_add_up(results: Seq<ResultView>)
    ensures
        completed_in(results).len() + failed_in(results).len() == results.len(),
        failures_of(results).len() == failed_in(results).len(),
    decreases results.len(),
{
    let completed = |result: ResultView| result.outcome is Completed;
    let failed = |result: ResultView| result.outcome is Failed;
    let pick = |result: ResultView| failure_of(result);
    if results.len() > 0 {
        let rest = results.drop_last();
        lemma_counts_add_up(rest);
        assert(rest.push(results.last()) =~= results);
        rest.lemma_filter_len_push(completed, results.last());
        rest.lemma_filter_len_push(failed, results.last());
        assert(results.filter_map(pick).len() == rest.filter_map(pick).len() + (if failure_of(
            results.last(),
        ) is Some {
            1int
        } else {
            0int
        }));
    }
}

/// No failure is dropped and none is invented: the list of failures holds
/// exactly the name and detail of each failed result.
pub proof fn lemma_failures_are_the_failed(results: Seq<ResultView>, failure: FailureView)
    ensures
        failures_of(results).contains(failure) <==> exists|i: int|
            0 <= i < results.len() && #[trigger] results[i].name == failure.name
                && results[i].outcome == OutcomeView::Failed(failure.detail),
    decreases results.len(),
{
    let pick = |result: ResultView| failure_of(result);
    if results.len() == 0 {
        assert(failures_of(results) =~= Seq::<FailureView>::empty());
    } else {
        let rest = results.drop_last();
        let last = results.last();
        lemma_failures_are_the_failed(rest, failure);
        let here = last.name == failure.name && last.outcome == OutcomeView::Failed(failure.detail);
        assert(failure_of(last) == Some(failure) <==> here);
        if failures_of(results).contains(failure) {
            let k = choose|k: int|
                0 <= k < failures_of(results).len() && failures_of(results)[k] == failure;
            if failure_of(last) is Some && k == failures_of(rest).len() {
                assert(here);
                assert(results[results.len() - 1].name == failure.name);
            } else {
                assert(failures_of(rest)[k] == failure);
                assert(failures_of(rest).contains(failure));
                let i = choose|i: int|
                    0 <= i < rest.len() && #[trigger] rest[i].name == failure.name && rest[i].outcome
                        == OutcomeView::Failed(failure.detail);
                assert(results[i].name == failure.name);
            }
        }
        if exists|i: int|
            0 <= i < results.len() && #[trigger] results[i].name == failure.name
                && results[i].outcome == OutcomeView::Failed(failure.detail) {
            let i = choose|i: int|
                0 <= i < results.len() && #[trigger] results[i].name == failure.name
                    && results[i].outcome == OutcomeView::Failed(failure.detail);
            if i == results.len() - 1 {
                let all = failures_of(results);
                assert(all[all.len() - 1] == failure);
            } else {
                assert(rest[i].name == failure.name);
                assert(failures_of(rest).contains(failure));
                let k = choose|k: int|
                    0 <= k < failures_of(rest).len() && failures_of(rest)[k] == failure;
                assert(failures_of(results)[k] == failure);
            }
        }
    }
}

/// A run ends in success exactly when nothing failed.
pub proof fn lemma_success_means_no_failure(results: Seq<ResultView>)
    ensures
        all_completed(results) <==> failed_in(results).len() == 0,
        all_completed(results) <==> completed_in(results).len() == results.len(),
    decreases results.len(),
{
    let completed = |result: ResultView| result.outcome is Completed;
    let failed = |result: ResultView| result.outcome is Failed;
    lemma_counts_add_up(results);
    if results.len() > 0 {
        let rest = results.drop_last();
        lemma_success_means_no_failure(rest);
        lemma_counts_add_up(rest);
        assert(rest.push(results.last()) =~= results);
        rest.lemma_filter_len_push(failed, results.last());
        if all_completed(results) {
            assert(all_completed(rest)) by {
                assert forall|i: int| 0 <= i < rest.len() implies (#[trigger] rest[i]).outcome
                    is Completed by {
                    assert(results[i].outcome is Completed);
                }
            }
            assert(results[results.len() - 1].outcome is Completed);
        }
        if failed_in(results).len() == 0 {
            assert(all_completed(results)) by {
                assert forall|i: int| 0 <= i < results.len() implies (#[trigger] results[i]).outcome
                    is Completed by {
                    if i < rest.len() {
                        assert(rest[i].outcome is Completed);
                    }
                }
            }
        }
    }
}

/// An example goes from `Pending` through `Running` to exactly one terminal
/// phase, which stands for the outcome recorded of it.
pub proof fn lemma_lifecycle_reaches_outcome(completion: Completion)
    ensures
        PhaseView::Pending.begun() is Running,
        PhaseView::Pending.begun().settled(completion).is_terminal(),
        PhaseView::Pending.begun().settled(completion).outcome() == Some(outcome_of(completion)),
{
}

/// No transition leaves a terminal phase.
pub proof fn lemma_terminal_phase_is_final(phase: PhaseView, completion: Completion)
    requires
        phase.is_terminal(),
    ensures
        phase.begun() == phase,
        phase.settled(completion) == phase,
{
}

} // verus!
