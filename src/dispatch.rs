use vstd::prelude::*;

use crate::report::{report_request, ReportReplica, ReportRequest};
use crate::schema::{ConfigProbeService, ConfigProbeServiceNode, ConfigReport};
use crate::status::Status;

verus! {

/// Delivery attempts made for one report, at most.
pub const RETRY_STATUS_TIMES: u8 = 4;

/// Seconds to wait after a failed attempt before the next one.
pub const RETRY_STATUS_AFTER_SECONDS: u64 = 2;

/// What to do after a delivery attempt.
#[derive(Clone, Copy, Debug, PartialEq, Eq, Structural)]
pub enum DispatchStep {
    /// The report reached the endpoint.
    Delivered,
    /// Wait `seconds`, then send the same request again.
    RetryAfter { seconds: u64 },
    /// Every attempt failed; the report is dropped.
    Abandoned,
}

impl DispatchStep {
    /// The overall result of the delivery, once it is over.
    pub fn outcome(&self) -> (r: Option<Result<(), ()>>)
        ensures
            r == (match *self {
                DispatchStep::Delivered => Some(Ok(())),
                DispatchStep::Abandoned => Some(Err(())),
                DispatchStep::RetryAfter { .. } => None::<Result<(), ()>>,
            }),
    {
        match self {
            DispatchStep::Delivered => Some(Ok(())),
            DispatchStep::Abandoned => Some(Err(())),
            DispatchStep::RetryAfter { .. } => None,
        }
    }
}

/// The step after attempt number `attempt` (from zero) succeeded or failed.
pub open spec fn dispatch_step(attempt: nat, delivered: bool) -> DispatchStep {
    if delivered {
        DispatchStep::Delivered
    } else if attempt + 1 >= RETRY_STATUS_TIMES {
        DispatchStep::Abandoned
    } else {
        DispatchStep::RetryAfter { seconds: RETRY_STATUS_AFTER_SECONDS }
    }
}

/// A delivery whose attempts, from number `attempt` on, turn out as
/// `outcomes` says (`true`: delivered): whether it was delivered, how many
/// attempts it made, and the waits between them, in seconds. It stops
/// early if `outcomes` runs out.
pub open spec fn run_dispatch(outcomes: Seq<bool>, attempt: nat) -> (bool, nat, Seq<u64>)
    decreases outcomes.len() - attempt,
{
    if attempt >= outcomes.len() {
        (false, attempt, Seq::empty())
    } else {
        match dispatch_step(attempt, outcomes[attempt as int]) {
            DispatchStep::Delivered => (true, attempt + 1, Seq::empty()),
            DispatchStep::Abandoned => (false, attempt + 1, Seq::empty()),
            DispatchStep::RetryAfter { seconds } => {
                let rest = run_dispatch(outcomes, attempt + 1);
                (rest.0, rest.1, seq![seconds] + rest.2)
            },
        }
    }
}

/// The delivery of one report: the request to send and the attempt in flight.
pub struct ReportDispatch {
    pub request: ReportRequest,
    /// Number of the attempt in flight, from zero.
    pub attempt: u8,
    pub finished: bool,
}

impl ReportDispatch {
    pub open spec fn wf(&self) -> bool {
        self.attempt < RETRY_STATUS_TIMES
    }

    pub fn new(request: ReportRequest) -> (r: ReportDispatch)
        ensures
            r.request == request,
            r.attempt == 0,
            !r.finished,
            r.wf(),
    {
        ReportDispatch { request, attempt: 0, finished: false }
    }

    /// Records how the attempt in flight went and says what comes next.
    pub fn record(&mut self, delivered: bool) -> (r: DispatchStep)
        requires
            old(self).wf(),
            !old(self).finished,
        ensures
            r == dispatch_step(old(self).attempt as nat, delivered),
            final(self).request == old(self).request,
            final(self).wf(),
            r is RetryAfter ==> final(self).attempt == old(self).attempt + 1,
            r is RetryAfter ==> !final(self).finished,
            !(r is RetryAfter) ==> final(self).attempt == old(self).attempt,
            !(r is RetryAfter) ==> final(self).finished,
    {
        if delivered {
            self.finished = true;
            DispatchStep::Delivered
        } else if self.attempt + 1 >= RETRY_STATUS_TIMES {
            self.finished = true;
            DispatchStep::Abandoned
        } else {
            self.attempt = self.attempt + 1;
            DispatchStep::RetryAfter { seconds: RETRY_STATUS_AFTER_SECONDS }
        }
    }
}

/// Starts the delivery of the report of `verdict` for `replica`: the first
/// attempt is to be sent.
pub fn status(
    report: &ConfigReport,
    service: &ConfigProbeService,
    node: &ConfigProbeServiceNode,
    replica: &ReportReplica,
    verdict: Status,
    interval: u64,
) -> (r: ReportDispatch)
    ensures
        r.request.reports(report, service, node, replica, verdict, interval),
        r.attempt == 0,
        !r.finished,
        r.wf(),
{
    ReportDispatch::new(report_request(report, service, node, replica, verdict, interval))
}

/// Whatever each attempt's outcome, a delivery makes at most four attempts,
/// waits exactly two seconds between two attempts and at no other time, and
/// succeeds exactly when one of its attempts (the first four outcomes)
/// succeeds. Counted here from attempt number `attempt` on.
pub proof fn lemma_retry_cap(outcomes: Seq<bool>, attempt: nat)
    requires
        attempt < RETRY_STATUS_TIMES,
        outcomes.len() >= RETRY_STATUS_TIMES,
    ensures
        ({
            let (delivered, attempts, waits) = run_dispatch(outcomes, attempt);
            &&& attempts <= RETRY_STATUS_TIMES
            &&& forall|i: int| 0 <= i < waits.len() ==> #[trigger] waits[i]
                == RETRY_STATUS_AFTER_SECONDS
            &&& waits.len() + 1 + attempt == attempts
            &&& delivered <==> exists|i: int|
                attempt <= i < RETRY_STATUS_TIMES && #[trigger] outcomes[i]
        }),
    decreases outcomes.len() - attempt,
{
    if attempt < outcomes.len() {
        if !outcomes[attempt as int] && attempt + 1 < RETRY_STATUS_TIMES {
            lemma_retry_cap(outcomes, attempt + 1);
            let rest = run_dispatch(outcomes, attempt + 1);
            let waits = run_dispatch(outcomes, attempt).2;
            assert(waits == seq![RETRY_STATUS_AFTER_SECONDS] + rest.2);
            assert forall|i: int| 0 <= i < waits.len() implies #[trigger] waits[i]
                == RETRY_STATUS_AFTER_SECONDS by {
                if i > 0 {
                    assert(waits[i] == rest.2[i - 1]);
                }
            }
            if run_dispatch(outcomes, attempt).0 {
                let j = choose|j: int|
                    attempt + 1 <= j < RETRY_STATUS_TIMES && #[trigger] outcomes[j];
                assert(outcomes[j]);
            }
        } else if outcomes[attempt as int] {
            assert(outcomes[attempt as int]);
        }
    }
}

} // verus!
