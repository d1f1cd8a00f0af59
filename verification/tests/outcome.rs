use rustree::outcome::{
    exit_code, run_status, FailureRecord, RunStatus, RunSummary, Stage, TransferOutcome,
};

fn success(key: &str, bytes: u64) -> TransferOutcome {
    TransferOutcome::Success { relative_key: key.to_string(), bytes_transferred: bytes }
}

fn failure(key: &str, stage: Stage, cause: &str) -> TransferOutcome {
    TransferOutcome::Failure(FailureRecord {
        relative_key: key.to_string(),
        stage,
        cause: cause.to_string(),
    })
}

#[test]
fn summary_counts_successes_and_failures() {
    let mut s = RunSummary::new();
    assert_eq!(s.total_attempted, 0);
    s.record(success("a", 10));
    s.record(failure("b", Stage::Get, "gone"));
    s.record(success("c", 0));
    assert_eq!(s.total_attempted, 3);
    assert_eq!(s.total_succeeded, 2);
    assert_eq!(s.failures.len(), 1);
    assert_eq!(s.failures[0].relative_key, "b");
    assert_eq!(s.failures[0].stage, Stage::Get);
    assert_eq!(s.failures[0].cause, "gone");
}

#[test]
fn failures_keep_arrival_order() {
    let mut s = RunSummary::new();
    s.record(failure("x", Stage::Put, "p"));
    s.record(failure("y", Stage::Get, "g"));
    assert_eq!(s.failures[0].relative_key, "x");
    assert_eq!(s.failures[1].relative_key, "y");
}

#[test]
fn status_success_only_without_any_failure() {
    let clean = RunSummary::new();
    assert_eq!(run_status(&clean, false), RunStatus::Success);
    let mut partial = RunSummary::new();
    partial.record(failure("k", Stage::Put, "refused"));
    assert_eq!(run_status(&partial, false), RunStatus::PartialFailure);
}

#[test]
fn fatal_beats_everything() {
    let clean = RunSummary::new();
    assert_eq!(run_status(&clean, true), RunStatus::FatalFailure);
    let mut partial = RunSummary::new();
    partial.record(failure("k", Stage::Get, "gone"));
    assert_eq!(run_status(&partial, true), RunStatus::FatalFailure);
}

#[test]
fn exit_code_is_zero_only_on_success() {
    assert_eq!(exit_code(RunStatus::Success), 0);
    assert_eq!(exit_code(RunStatus::PartialFailure), 1);
    assert_eq!(exit_code(RunStatus::FatalFailure), 2);
}
