use example_runner::isolation::{conclude, run, Phase};
use example_runner::outcome::{Completion, ExecutionResult, Outcome};
use example_runner::registry::{Example, Registry};
use example_runner::report::{ExitStatus, RunReport};
use example_runner::runner::run_all;

type Action = fn() -> Completion;

fn ok() -> Completion {
    Ok(())
}

fn boom() -> Completion {
    Err(String::from("boom"))
}

fn outcomes(report: &RunReport) -> Vec<Outcome> {
    report.results().iter().map(|r| r.outcome().clone()).collect()
}

fn names(report: &RunReport) -> Vec<String> {
    report.results().iter().map(|r| r.name().to_string()).collect()
}

#[test]
fn report_has_one_result_per_example_in_order() {
    let mut registry: Registry<Action> = Registry::new();
    for name in ["one", "two", "three", "four"] {
        assert!(registry.register(name, ok).is_ok());
    }
    let report = run_all(&registry);
    assert_eq!(report.len(), registry.len());
    assert_eq!(names(&report), vec!["one", "two", "three", "four"]);
    for (example, result) in registry.all().iter().zip(report.results()) {
        assert_eq!(example.name, result.name());
    }
}

#[test]
fn empty_registry_gives_empty_report() {
    let registry: Registry<Action> = Registry::new();
    assert!(registry.is_empty());
    let report = run_all(&registry);
    assert!(report.is_empty());
    assert_eq!(report.len(), 0);
    assert_eq!(report.exit_status(), ExitStatus::Success);
    assert!(report.get(0).is_none());
}

#[test]
fn completing_action_is_completed_in_every_run() {
    let mut registry: Registry<Action> = Registry::new();
    registry.register("steady", ok).unwrap();
    for _ in 0..3 {
        let report = run_all(&registry);
        assert_eq!(outcomes(&report), vec![Outcome::Completed]);
    }
}

#[test]
fn aborting_action_is_failed_and_the_run_goes_on() {
    let mut registry: Registry<Action> = Registry::new();
    registry.register("broken", boom).unwrap();
    registry.register("after", ok).unwrap();
    for _ in 0..3 {
        let report = run_all(&registry);
        assert_eq!(report.len(), 2);
        assert_eq!(
            outcomes(&report),
            vec![Outcome::Failed(String::from("boom")), Outcome::Completed]
        );
        assert_eq!(names(&report), vec!["broken", "after"]);
    }
}

#[test]
fn duplicate_name_is_refused_and_changes_nothing() {
    let mut registry: Registry<Action> = Registry::new();
    registry.register("a", ok).unwrap();
    registry.register("b", ok).unwrap();
    let error = registry.register("a", boom).unwrap_err();
    assert_eq!(error.name, "a");
    assert_eq!(error.message(), "duplicate example name: a");
    assert_eq!(registry.len(), 2);
    let kept: Vec<&str> = registry.all().iter().map(|e| e.name.as_str()).collect();
    assert_eq!(kept, vec!["a", "b"]);
    // The first registration under the name is the one that stays.
    let report = run_all(&registry);
    assert_eq!(outcomes(&report), vec![Outcome::Completed, Outcome::Completed]);
}

#[test]
fn contains_tells_registered_names() {
    let mut registry: Registry<Action> = Registry::new();
    assert!(!registry.contains("a"));
    registry.register("a", ok).unwrap();
    assert!(registry.contains("a"));
    assert!(!registry.contains("A"));
    assert!(!registry.contains(""));
}

#[test]
fn scenario_failure_in_the_middle() {
    let mut registry: Registry<Action> = Registry::new();
    registry.register("a", ok).unwrap();
    registry.register("b", boom).unwrap();
    registry.register("c", ok).unwrap();
    let report = run_all(&registry);
    assert_eq!(
        outcomes(&report),
        vec![Outcome::Completed, Outcome::Failed(String::from("boom")), Outcome::Completed]
    );
    assert_eq!(report.exit_status(), ExitStatus::Failure);
    assert_ne!(report.exit_status().code(), ExitStatus::Success.code());
    assert_eq!(report.exit_status().code(), 1);
}

#[test]
fn scenario_all_complete() {
    let mut registry: Registry<Action> = Registry::new();
    registry.register("x", ok).unwrap();
    registry.register("y", ok).unwrap();
    let report = run_all(&registry);
    assert_eq!(outcomes(&report), vec![Outcome::Completed, Outcome::Completed]);
    assert_eq!(report.exit_status(), ExitStatus::Success);
    assert_eq!(report.exit_status().code(), 0);
}

#[test]
fn two_runs_of_deterministic_actions_agree() {
    let mut registry: Registry<Action> = Registry::new();
    registry.register("a", ok).unwrap();
    registry.register("b", boom).unwrap();
    registry.register("c", ok).unwrap();
    let first = run_all(&registry);
    let second = run_all(&registry);
    assert_eq!(names(&first), names(&second));
    assert_eq!(outcomes(&first), outcomes(&second));
}

#[test]
fn closures_that_capture_can_be_registered() {
    let make = |fail: bool| move || -> Completion {
        if fail {
            Err(String::from("asked to fail"))
        } else {
            Ok(())
        }
    };
    let mut registry = Registry::new();
    registry.register("first", make(false)).unwrap();
    registry.register("second", make(true)).unwrap();
    let report = run_all(&registry);
    assert_eq!(
        outcomes(&report),
        vec![Outcome::Completed, Outcome::Failed(String::from("asked to fail"))]
    );
}

#[test]
fn run_records_name_and_outcome() {
    let example = Example { name: String::from("solo"), action: boom as Action };
    let result = run(&example);
    assert_eq!(result.name(), "solo");
    assert_eq!(result.outcome(), &Outcome::Failed(String::from("boom")));
    let example = Example { name: String::from("fine"), action: ok as Action };
    let result = run(&example);
    assert_eq!(result.name(), "fine");
    assert_eq!(result.outcome(), &Outcome::Completed);
}

#[test]
fn conclude_maps_each_completion() {
    let done = conclude("n", Ok(()));
    assert_eq!(done.name(), "n");
    assert!(done.outcome().is_completed());
    assert!(!done.outcome().is_failed());
    assert_eq!(done.outcome().detail(), None);
    let failed = conclude("m", Err(String::from("why")));
    assert_eq!(failed.name(), "m");
    assert!(failed.outcome().is_failed());
    assert!(!failed.outcome().is_completed());
    assert_eq!(failed.outcome().detail(), Some("why"));
}

#[test]
fn outcome_from_completion_and_equality() {
    assert_eq!(Outcome::from_completion(Ok(())), Outcome::Completed);
    assert_eq!(
        Outcome::from_completion(Err(String::from("x"))),
        Outcome::Failed(String::from("x"))
    );
    assert_ne!(Outcome::Failed(String::from("x")), Outcome::Failed(String::from("y")));
    assert_ne!(Outcome::Failed(String::new()), Outcome::Completed);
    let copy = Outcome::Failed(String::from("x")).clone();
    assert_eq!(copy, Outcome::Failed(String::from("x")));
}

#[test]
fn phases_follow_the_lifecycle() {
    let running = Phase::Pending.begin();
    assert!(matches!(running, Phase::Running));
    assert!(!running.is_terminal());
    assert!(running.into_outcome().is_none());
    assert!(Phase::Pending.into_outcome().is_none());
    let completed = Phase::Pending.begin().settle(Ok(()));
    assert!(completed.is_terminal());
    assert_eq!(completed.into_outcome(), Some(Outcome::Completed));
    let failed = Phase::Pending.begin().settle(Err(String::from("d")));
    assert!(failed.is_terminal());
    assert_eq!(failed.into_outcome(), Some(Outcome::Failed(String::from("d"))));
}

#[test]
fn terminal_phases_do_not_move() {
    let completed = Phase::Completed.begin().settle(Err(String::from("late")));
    assert!(matches!(completed, Phase::Completed));
    let failed = Phase::Failed(String::from("first")).begin().settle(Ok(()));
    assert_eq!(failed.into_outcome(), Some(Outcome::Failed(String::from("first"))));
    // A pending example cannot end before it has started.
    assert!(matches!(Phase::Pending.settle(Ok(())), Phase::Pending));
    // A running example does not start again.
    assert!(matches!(Phase::Running.begin(), Phase::Running));
}

#[test]
fn summary_counts_and_lists_failures() {
    let results = vec![
        ExecutionResult::new("a", Outcome::Completed),
        ExecutionResult::new("b", Outcome::Failed(String::from("first"))),
        ExecutionResult::new("c", Outcome::Completed),
        ExecutionResult::new("d", Outcome::Failed(String::from("second"))),
        ExecutionResult::new("e", Outcome::Completed),
    ];
    let report = RunReport::from_results(results);
    assert_eq!(report.completed_count(), 3);
    assert_eq!(report.failed_count(), 2);
    assert!(!report.all_completed());
    let summary = report.summarize();
    assert_eq!(summary.completed, 3);
    assert_eq!(summary.failed, 2);
    assert_eq!(summary.completed + summary.failed, report.len());
    let listed: Vec<(&str, &str)> =
        summary.failures.iter().map(|f| (f.name.as_str(), f.detail.as_str())).collect();
    assert_eq!(listed, vec![("b", "first"), ("d", "second")]);
    let failures = report.failures();
    assert_eq!(failures.len(), 2);
    assert_eq!(failures[0].name, "b");
    assert_eq!(failures[1].detail, "second");
    assert_eq!(report.exit_status(), ExitStatus::Failure);
}

#[test]
fn summary_of_a_clean_run() {
    let report = RunReport::from_results(vec![
        ExecutionResult::new("a", Outcome::Completed),
        ExecutionResult::new("b", Outcome::Completed),
    ]);
    let summary = report.summarize();
    assert_eq!(summary.completed, 2);
    assert_eq!(summary.failed, 0);
    assert!(summary.failures.is_empty());
    assert!(report.all_completed());
    assert_eq!(report.exit_status(), ExitStatus::Success);
}

#[test]
fn report_get_by_position() {
    let report = RunReport::from_results(vec![
        ExecutionResult::new("a", Outcome::Completed),
        ExecutionResult::new("b", Outcome::Failed(String::from("d"))),
    ]);
    assert_eq!(report.get(0).unwrap().name(), "a");
    assert_eq!(report.get(1).unwrap().outcome(), &Outcome::Failed(String::from("d")));
    assert!(report.get(2).is_none());
    let copy = report.get(1).unwrap().clone();
    assert_eq!(copy.name(), "b");
    assert_eq!(copy.outcome(), &Outcome::Failed(String::from("d")));
}
