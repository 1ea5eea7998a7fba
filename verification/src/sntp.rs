use vstd::prelude::*;

verus! {

/// Seconds the polling loop waits between consecutive checks of the
/// synchronization status.
pub const SYNC_POLL_INTERVAL_SECS: u64 = 1;

/// The synchronization states the background time-sync client reports.
#[derive(Clone, Copy, Debug, PartialEq, Eq, Structural)]
pub enum SyncStatus {
    Reset,
    InProgress,
    Completed,
}

/// The wait the polling loop takes after observing `status`: none once
/// synchronization has completed (the stage returns), a full interval
/// otherwise.
pub open spec fn spec_poll_wait(status: SyncStatus) -> Option<u64> {
    if status == SyncStatus::Completed {
        None
    } else {
        Some(SYNC_POLL_INTERVAL_SECS)
    }
}

/// Decides what the time-sync stage does after observing one status report:
/// `None` means the stage is finished, `Some(secs)` means wait that long and
/// poll again. The stage finishes exactly on Completed, and every other
/// observation is followed by a wait of one full interval.
pub fn sync_poll_decision(status: SyncStatus) -> (r: Option<u64>)
    ensures
        r == spec_poll_wait(status),
        r is None <==> status == SyncStatus::Completed,
        status != SyncStatus::Completed ==> r == Some(SYNC_POLL_INTERVAL_SECS),
{
    if status == SyncStatus::Completed {
        None
    } else {
        Some(SYNC_POLL_INTERVAL_SECS)
    }
}

/// In any run of the polling loop — a sequence of observed statuses in which
/// only the last is Completed — every observation but the last is followed by
/// a wait of one full interval, so consecutive polls are at least
/// [`SYNC_POLL_INTERVAL_SECS`] apart, and the stage returns only on the
/// Completed observation.
pub proof fn lemma_poll_run_waits(obs: Seq<SyncStatus>)
    requires
        obs.len() >= 1,
        forall|i: int| 0 <= i < obs.len() - 1 ==> obs[i] != SyncStatus::Completed,
        obs.last() == SyncStatus::Completed,
    ensures
        forall|i: int|
            0 <= i < obs.len() - 1 ==> spec_poll_wait(obs[i]) == Some(SYNC_POLL_INTERVAL_SECS),
        spec_poll_wait(obs.last()) is None,
{
}

} // verus!
