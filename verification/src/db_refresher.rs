use vstd::prelude::*;

verus! {

/// How long the scheduler sleeps after a failed pass.
pub const FAILURE_RETRY_SECS: u64 = 300;

/// What one pass of the refresh loop reports.
#[derive(Clone, Copy, PartialEq, Eq, Structural, Debug)]
pub enum UpdateOutcome {
    Skipped,
    Installed,
    Failed,
}

/// What the fetch-and-extract step came back with: a fresh versioned
/// directory, the version already present on disk, or a failure message.
#[derive(Debug)]
pub enum FetchOutcome {
    Fetched(String),
    AlreadyPresent,
    Failed(String),
}

/// Classify one refresh pass by what the fetch returned: a fresh directory
/// installs; finding the candidate already on disk is success without an
/// install, never a failure; only a failed fetch fails the pass.
pub fn refresh_outcome(fetched: &FetchOutcome) -> (o: UpdateOutcome)
    ensures
        o is Installed <==> fetched is Fetched,
        o is Skipped <==> fetched is AlreadyPresent,
        o is Failed <==> fetched is Failed,
{
    match fetched {
        FetchOutcome::Fetched(_) => UpdateOutcome::Installed,
        FetchOutcome::AlreadyPresent => UpdateOutcome::Skipped,
        FetchOutcome::Failed(_) => UpdateOutcome::Failed,
    }
}

/// The scheduler's backoff: the configured interval after a pass that did
/// not fail, five minutes after one that did.
pub fn update_sleep_secs(outcome: &UpdateOutcome, success_interval_secs: u64) -> (d: u64)
    ensures
        outcome is Failed ==> d == FAILURE_RETRY_SECS,
        !(outcome is Failed) ==> d == success_interval_secs,
{
    match outcome {
        UpdateOutcome::Failed => FAILURE_RETRY_SECS,
        _ => success_interval_secs,
    }
}

} // verus!
