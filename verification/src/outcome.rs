//! Per-object outcomes and their aggregation. Every dispatched transfer
//! ends in exactly one outcome: success with the byte count, or failure
//! with the stage that failed and its cause. A `RunSummary` collects the
//! outcomes; the run's verdict is fatal only when the listing itself
//! failed, while individual object failures leave the run partially
//! successful.

use vstd::prelude::*;

verus! {

/// The step of a transfer that failed.
#[derive(Debug, Clone, Copy, PartialEq, Eq, Structural)]
pub enum Stage {
    Get,
    Put,
}

/// One failed transfer: which object, at which stage, and why.
#[derive(Debug, Clone, PartialEq, Eq)]
pub struct FailureRecord {
    pub relative_key: String,
    pub stage: Stage,
    pub cause: String,
}

/// The terminal outcome of one transfer.
#[derive(Debug, Clone, PartialEq, Eq)]
pub enum TransferOutcome {
    Success { relative_key: String, bytes_transferred: u64 },
    Failure(FailureRecord),
}

/// The aggregate of a run: how many transfers were attempted, how many
/// succeeded, and every failure in the order it was recorded.
#[derive(Debug, Clone, PartialEq, Eq)]
pub struct RunSummary {
    pub total_attempted: u64,
    pub total_succeeded: u64,
    pub failures: Vec<FailureRecord>,
}

impl RunSummary {
    /// Every attempt is accounted for: it either succeeded or stands in
    /// `failures`.
    pub open spec fn wf(self) -> bool {
        self.total_succeeded + self.failures@.len() == self.total_attempted
    }

    pub fn new() -> (s: RunSummary)
        ensures
            s.wf(),
            s.total_attempted == 0,
            s.total_succeeded == 0,
            s.failures@ == Seq::<FailureRecord>::empty(),
    {
        let s = RunSummary { total_attempted: 0, total_succeeded: 0, failures: Vec::new() };
        proof {
            assert(s.failures@ =~= Seq::<FailureRecord>::empty());
        }
        s
    }

    /// Records one outcome: the attempt count grows by one, and either the
    /// success count grows by one or the failure is appended, never both.
    pub fn record(&mut self, outcome: TransferOutcome)
        requires
            old(self).wf(),
            old(self).total_attempted < u64::MAX,
        ensures
            final(self).wf(),
            final(self).total_attempted == old(self).total_attempted + 1,
            (match outcome {
                TransferOutcome::Success { .. } => {
                    &&& final(self).total_succeeded == old(self).total_succeeded + 1
                    &&& final(self).failures@ == old(self).failures@
                },
                TransferOutcome::Failure(f) => {
                    &&& final(self).total_succeeded == old(self).total_succeeded
                    &&& final(self).failures@ == old(self).failures@.push(f)
                },
            }),
    {
        self.total_attempted = self.total_attempted + 1;
        match outcome {
            TransferOutcome::Success { .. } => {
                self.total_succeeded = self.total_succeeded + 1;
            },
            TransferOutcome::Failure(f) => {
                self.failures.push(f);
            },
        }
    }
}

/// The verdict of a whole run.
#[derive(Debug, Clone, Copy, PartialEq, Eq, Structural)]
pub enum RunStatus {
    /// The listing completed and every object transferred.
    Success,
    /// The listing completed but at least one object failed.
    PartialFailure,
    /// The listing itself failed; the run was aborted.
    FatalFailure,
}

/// Maps a summary and the fatal flag to the run's overall status: a failed
/// listing is fatal, a failed object makes the run partial, and a clean run
/// is a success.
pub fn run_status(summary: &RunSummary, fatal: bool) -> (s: RunStatus)
    ensures
        s == (if fatal {
            RunStatus::FatalFailure
        } else if summary.failures@.len() == 0 {
            RunStatus::Success
        } else {
            RunStatus::PartialFailure
        }),
{
    if fatal {
        RunStatus::FatalFailure
    } else if summary.failures.len() == 0 {
        RunStatus::Success
    } else {
        RunStatus::PartialFailure
    }
}

/// The process exit code a verdict maps to: zero exactly on full success.
pub fn exit_code(status: RunStatus) -> (c: i32)
    ensures
        c == (match status {
            RunStatus::Success => 0i32,
            RunStatus::PartialFailure => 1i32,
            RunStatus::FatalFailure => 2i32,
        }),
        (c == 0) <==> (status == RunStatus::Success),
{
    match status {
        RunStatus::Success => 0,
        RunStatus::PartialFailure => 1,
        RunStatus::FatalFailure => 2,
    }
}

} // verus!
