use vstd::prelude::*;

use crate::schema::ConfigMetrics;
use crate::status::Status;
use crate::verdict::{aggregate, all_failed, all_succeeded, verdict_of, CheckResult};

verus! {

/// A retry budget of at least one attempt per cycle.
pub open spec fn metrics_valid(m: ConfigMetrics) -> bool {
    m.poll_retry >= 1
}

/// Seconds to wait before the next cycle once `s` is accepted.
pub open spec fn delay_for(m: ConfigMetrics, s: Status) -> u64 {
    match s {
        Status::Healthy => m.interval,
        Status::Sick => m.poll_delay_sick,
        Status::Dead => m.poll_delay_dead,
    }
}

/// What the scheduler does after one attempt of a cycle.
#[derive(Clone, Copy, Debug, PartialEq, Eq, Structural)]
pub enum CycleStep {
    /// Run every check of the node again; `attempt` counts from zero.
    Retry { attempt: u8 },
    /// The cycle is over: report `status` and wait `delay` seconds.
    Accept { status: Status, delay: u64 },
}

pub open spec fn cycle_step(m: ConfigMetrics, attempt: u8, rs: Seq<CheckResult>) -> CycleStep {
    let v = verdict_of(rs);
    if v == Status::Healthy || attempt as int + 1 >= m.poll_retry as int {
        CycleStep::Accept { status: v, delay: delay_for(m, v) }
    } else {
        CycleStep::Retry { attempt: (attempt + 1) as u8 }
    }
}

/// The verdict and delay accepted in a cycle whose attempts, from the
/// `i`-th on, gave `attempts`; `None` when the attempts run out first.
pub open spec fn run_cycle(m: ConfigMetrics, attempts: Seq<Seq<CheckResult>>, i: nat) -> Option<
    (Status, u64),
>
    decreases attempts.len() - i,
{
    if i >= attempts.len() || i >= m.poll_retry {
        None
    } else {
        match cycle_step(m, i as u8, attempts[i as int]) {
            CycleStep::Accept { status, delay } => Some((status, delay)),
            CycleStep::Retry { .. } => run_cycle(m, attempts, i + 1),
        }
    }
}

/// The delay before the next cycle, by accepted state.
pub fn next_delay(metrics: &ConfigMetrics, status: Status) -> (r: u64)
    ensures
        r == delay_for(*metrics, status),
{
    match status {
        Status::Healthy => metrics.interval,
        Status::Sick => metrics.poll_delay_sick,
        Status::Dead => metrics.poll_delay_dead,
    }
}

/// What is left of `delay` once a cycle has taken `elapsed` seconds: a
/// cycle that overran its delay starts the next one at once.
pub fn remaining_delay(delay: u64, elapsed: u64) -> (r: u64)
    ensures
        r == if elapsed >= delay {
            0
        } else {
            (delay - elapsed) as u64
        },
{
    if elapsed >= delay {
        0
    } else {
        delay - elapsed
    }
}

/// Decides, from the results of attempt number `attempt` (counting from
/// zero) of a node's cycle, whether to retry the cycle or accept its verdict.
pub fn after_attempt(metrics: &ConfigMetrics, attempt: u8, results: &Vec<CheckResult>) -> (r:
    CycleStep)
    requires
        metrics_valid(*metrics),
        attempt < metrics.poll_retry,
        results@.len() > 0,
    ensures
        r == cycle_step(*metrics, attempt, results@),
{
    let verdict = aggregate(results);
    if verdict == Status::Healthy || attempt + 1 >= metrics.poll_retry {
        CycleStep::Accept { status: verdict, delay: next_delay(metrics, verdict) }
    } else {
        CycleStep::Retry { attempt: attempt + 1 }
    }
}

/// When every check of an attempt succeeds, that attempt ends the cycle:
/// the node is accepted as healthy and polled again after `interval`.
pub proof fn lemma_all_succeeding_is_healthy(
    m: ConfigMetrics,
    attempts: Seq<Seq<CheckResult>>,
    i: nat,
)
    requires
        metrics_valid(m),
        i < attempts.len(),
        i < m.poll_retry,
        all_succeeded(attempts[i as int]),
    ensures
        run_cycle(m, attempts, i) == Some((Status::Healthy, m.interval)),
{
}

/// A cycle never needs more than `poll_retry` attempts: given that many
/// results, a verdict is always accepted.
pub proof fn lemma_cycle_ends_within_budget(
    m: ConfigMetrics,
    attempts: Seq<Seq<CheckResult>>,
    i: nat,
)
    requires
        metrics_valid(m),
        attempts.len() >= m.poll_retry,
        i < m.poll_retry,
    ensures
        run_cycle(m, attempts, i) is Some,
    decreases m.poll_retry - i,
{
    if i + 1 < m.poll_retry {
        lemma_cycle_ends_within_budget(m, attempts, i + 1);
    }
}

/// When no attempt of a full cycle is healthy, the verdict of the last
/// attempt is accepted with its delay.
pub proof fn lemma_exhausted_accepts_last(m: ConfigMetrics, attempts: Seq<Seq<CheckResult>>, i: nat)
    requires
        metrics_valid(m),
        attempts.len() == m.poll_retry,
        i < attempts.len(),
        forall|j: int| 0 <= j < attempts.len() ==> !all_succeeded(#[trigger] attempts[j]),
    ensures
        run_cycle(m, attempts, i) == Some(
            (
                verdict_of(attempts.last()),
                delay_for(m, verdict_of(attempts.last())),
            ),
        ),
    decreases attempts.len() - i,
{
    assert(!all_succeeded(attempts[i as int]));
    if i + 1 < attempts.len() {
        lemma_exhausted_accepts_last(m, attempts, i + 1);
    }
}

/// When every check fails on each of the `poll_retry` attempts, the node
/// is accepted as dead and polled again after `poll_delay_dead`.
pub proof fn lemma_all_failing_is_dead(m: ConfigMetrics, attempts: Seq<Seq<CheckResult>>)
    requires
        metrics_valid(m),
        attempts.len() == m.poll_retry,
        forall|j: int|
            0 <= j < attempts.len() ==> (#[trigger] attempts[j]).len() > 0 && all_failed(
                attempts[j],
            ),
    ensures
        run_cycle(m, attempts, 0) == Some((Status::Dead, m.poll_delay_dead)),
{
    assert forall|j: int| 0 <= j < attempts.len() implies !all_succeeded(#[trigger] attempts[j]) by {
        assert(attempts[j].len() > 0 && all_failed(attempts[j]));
        assert(!attempts[j][0].success);
    }
    let last = attempts.last();
    assert(last.len() > 0 && all_failed(last));
    assert(!last[0].success);
    lemma_exhausted_accepts_last(m, attempts, 0);
}

/// When retries are exhausted and the last attempt is mixed (at least one
/// success and one failure), the node is accepted as sick and polled again
/// after `poll_delay_sick`.
pub proof fn lemma_mixed_is_sick(m: ConfigMetrics, attempts: Seq<Seq<CheckResult>>)
    requires
        metrics_valid(m),
        attempts.len() == m.poll_retry,
        forall|j: int| 0 <= j < attempts.len() ==> !all_succeeded(#[trigger] attempts[j]),
        exists|k: int| 0 <= k < attempts.last().len() && (#[trigger] attempts.last()[k]).success,
    ensures
        run_cycle(m, attempts, 0) == Some((Status::Sick, m.poll_delay_sick)),
{
    lemma_exhausted_accepts_last(m, attempts, 0);
    let last = attempts.last();
    let k = choose|k: int| 0 <= k < last.len() && (#[trigger] last[k]).success;
    assert(!all_failed(last)) by {
        assert(last[k].success);
    }
}

} // verus!
