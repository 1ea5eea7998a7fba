use vstd::prelude::*;
use crate::trim::spec_trim;
use crate::trim::trim_whitespace;

verus! {

/// Seconds the reporting loop sleeps before every iteration after the first.
pub const REPORT_SLEEP_SECS: u64 = 5;

/// The only state the reporting loop carries between iterations: whether the
/// coming iteration is the first one.
#[derive(Clone, Copy, Debug, PartialEq, Eq, Structural)]
pub struct ReportSchedule {
    first: bool,
}

/// The schedule the loop starts with: its next iteration is the first.
pub closed spec fn spec_initial_schedule() -> ReportSchedule {
    ReportSchedule { first: true }
}

/// The sleep taken before an iteration under schedule `s`: none on the first
/// iteration, the full five seconds on every other.
pub closed spec fn spec_sleep(s: ReportSchedule) -> Option<u64> {
    if s.first {
        None
    } else {
        Some(REPORT_SLEEP_SECS)
    }
}

/// The schedule left behind once an iteration has begun: no later iteration
/// is the first.
pub closed spec fn spec_after_iteration(s: ReportSchedule) -> ReportSchedule {
    ReportSchedule { first: false }
}

impl ReportSchedule {
    pub closed spec fn spec_first(self) -> bool {
        self.first
    }

    pub fn new() -> (r: ReportSchedule)
        ensures
            r == spec_initial_schedule(),
            r.spec_first(),
    {
        ReportSchedule { first: true }
    }

    /// Decides the sleep to take before the coming iteration and marks the
    /// iteration as begun: the first iteration gets no sleep, every later one
    /// exactly [`REPORT_SLEEP_SECS`] seconds.
    pub fn sleep_before_iteration(&mut self) -> (d: Option<u64>)
        ensures
            d == spec_sleep(*old(self)),
            old(self).spec_first() ==> d is None,
            !old(self).spec_first() ==> d == Some(REPORT_SLEEP_SECS),
            *final(self) == spec_after_iteration(*old(self)),
            !final(self).spec_first(),
    {
        let d = if self.first {
            None
        } else {
            Some(REPORT_SLEEP_SECS)
        };
        self.first = false;
        d
    }
}

/// The first iteration never sleeps, and whatever schedule an iteration left
/// behind, the next iteration sleeps for exactly [`REPORT_SLEEP_SECS`]
/// seconds.
pub proof fn lemma_only_first_iteration_skips_sleep(s: ReportSchedule)
    ensures
        spec_sleep(spec_initial_schedule()) is None,
        spec_sleep(spec_after_iteration(s)) == Some(REPORT_SLEEP_SECS),
{
}

/// What the surrounding program observed from one outbound public-IP
/// request: a transport or request failure, or a successful response with
/// its full text body.
#[derive(Debug, PartialEq, Eq)]
pub enum RequestOutcome {
    Failure,
    Body(Vec<u8>),
}

/// What the reporting loop does with that observation: log the error and
/// move on to the next iteration, or log the trimmed body as the public IP.
#[derive(Debug, PartialEq, Eq)]
pub enum ReportAction {
    ContinueAfterError,
    LogPublicIp(Vec<u8>),
}

/// Decides how one request outcome is reported. A failure is never fatal: it
/// turns into logging the error and continuing with the next iteration. A
/// success yields the body with surrounding whitespace trimmed, logged as the
/// public IP whatever its content.
pub fn handle_request_outcome(outcome: RequestOutcome) -> (a: ReportAction)
    ensures
        outcome is Failure ==> a is ContinueAfterError,
        outcome matches RequestOutcome::Body(b) ==> (a matches ReportAction::LogPublicIp(ip)
            && ip@ == spec_trim(b@)),
{
    match outcome {
        RequestOutcome::Failure => ReportAction::ContinueAfterError,
        RequestOutcome::Body(b) => ReportAction::LogPublicIp(trim_whitespace(&b)),
    }
}

} // verus!
