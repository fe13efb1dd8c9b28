use vstd::prelude::*;

use crate::status::Status;

verus! {

/// The outcome of one check of a replica or a script.
pub struct CheckResult {
    pub id: String,
    pub label: Option<String>,
    pub success: bool,
    /// How long the attempt took, for diagnostics only.
    pub duration_ms: u64,
}

pub open spec fn all_succeeded(rs: Seq<CheckResult>) -> bool {
    forall|i: int| 0 <= i < rs.len() ==> #[trigger] rs[i].success
}

pub open spec fn all_failed(rs: Seq<CheckResult>) -> bool {
    forall|i: int| 0 <= i < rs.len() ==> !(#[trigger] rs[i].success)
}

/// Healthy when every check succeeded, dead when every check failed, sick
/// when the results are mixed.
pub open spec fn verdict_of(rs: Seq<CheckResult>) -> Status {
    if all_succeeded(rs) {
        Status::Healthy
    } else if all_failed(rs) {
        Status::Dead
    } else {
        Status::Sick
    }
}

/// Derives a node's verdict from the results of one attempt at its checks.
pub fn aggregate(results: &Vec<CheckResult>) -> (r: Status)
    requires
        results@.len() > 0,
    ensures
        r == verdict_of(results@),
{
    let mut any_success = false;
    let mut any_failure = false;
    let mut i: usize = 0;
    while i < results.len()
        invariant
            i <= results@.len(),
            any_success <==> exists|j: int| 0 <= j < i && #[trigger] results@[j].success,
            any_failure <==> exists|j: int| 0 <= j < i && !(#[trigger] results@[j].success),
        decreases results@.len() - i,
    {
        if results[i].success {
            any_success = true;
        } else {
            any_failure = true;
        }
        i = i + 1;
    }
    if !any_failure {
        Status::Healthy
    } else if !any_success {
        Status::Dead
    } else {
        assert(!all_succeeded(results@));
        assert(!all_failed(results@));
        Status::Sick
    }
}

/// The verdict depends on the success flags alone: two result lists that
/// agree on them, and in particular the same list given twice, always yield
/// the same verdict.
pub proof fn lemma_verdict_deterministic(a: Seq<CheckResult>, b: Seq<CheckResult>)
    requires
        a.len() == b.len(),
        forall|i: int| 0 <= i < a.len() ==> (#[trigger] a[i]).success == b[i].success,
    ensures
        verdict_of(a) == verdict_of(b),
{
    assert(all_succeeded(a) == all_succeeded(b)) by {
        if all_succeeded(a) {
            assert forall|i: int| 0 <= i < b.len() implies #[trigger] b[i].success by {
                assert(a[i].success);
            }
        }
        if all_succeeded(b) {
            assert forall|i: int| 0 <= i < a.len() implies #[trigger] a[i].success by {
                assert(b[i].success);
            }
        }
    }
    assert(all_failed(a) == all_failed(b)) by {
        if all_failed(a) {
            assert forall|i: int| 0 <= i < b.len() implies !(#[trigger] b[i].success) by {
                assert(!a[i].success);
            }
        }
        if all_failed(b) {
            assert forall|i: int| 0 <= i < a.len() implies !(#[trigger] a[i].success) by {
                assert(!b[i].success);
            }
        }
    }
}

/// Whether an HTTP status code counts as a successful probe (2xx).
pub fn http_status_succeeded(code: u16) -> (r: bool)
    ensures
        r == (200 <= code && code < 300),
{
    200 <= code && code < 300
}

/// Whether a script run counts as a successful probe: it exited, with status 0.
pub fn script_exit_succeeded(exit_code: Option<i32>) -> (r: bool)
    ensures
        r == (exit_code == Some(0i32)),
{
    match exit_code {
        Some(code) => code == 0,
        None => false,
    }
}

} // verus!
