//! Which outcome a join reports. Every process is waited on, non-tail stages
//! in spawn order and the tail last; the overall result is then chosen from
//! what those waits reported.
use vstd::prelude::*;

verus! {

/// What waiting on one process reported.
#[derive(Debug, Clone, Copy, PartialEq, Eq, Structural)]
pub struct WaitReport {
    /// The wait itself succeeded and gave an exit status; `false` means the
    /// operating system reported an error while waiting.
    pub waited: bool,
    /// The exit status counts as success (meaningful only when `waited`).
    pub success: bool,
}

/// Whether a stage counts as failed for pipefail: its wait gave an error or
/// a status that is not a success.
pub open spec fn fails(r: WaitReport) -> bool {
    !(r.waited && r.success)
}

/// The position of the first failing report, if any.
pub open spec fn first_failure(rs: Seq<WaitReport>) -> Option<int>
    decreases rs.len(),
{
    if rs.len() == 0 {
        None
    } else {
        match first_failure(rs.drop_last()) {
            Some(i) => Some(i),
            None => if fails(rs.last()) { Some(rs.len() - 1) } else { None },
        }
    }
}

/// The outcome a join returns, named by the position of the process it
/// comes from (the tail's position is the number of non-tail stages).
#[derive(Debug, Clone, Copy, PartialEq, Eq, Structural)]
pub enum JoinVerdict {
    /// Return the exit status of this process.
    Status(usize),
    /// Return the wait error of this process.
    Error(usize),
}

/// The outcome of a join over the non-tail reports `rs` and the tail's
/// report. Without pipefail, or when no non-tail stage failed, it is the
/// tail's. With pipefail it is the first failing stage's, unless that stage
/// gave a status and the tail's wait gave an error, which is then returned.
pub open spec fn verdict_spec(pipefail: bool, rs: Seq<WaitReport>, tail: WaitReport) -> JoinVerdict {
    let n = rs.len();
    let tail_outcome = if tail.waited { JoinVerdict::Status(n as usize) } else { JoinVerdict::Error(n as usize) };
    if pipefail {
        match first_failure(rs) {
            Some(i) => if !rs[i].waited {
                JoinVerdict::Error(i as usize)
            } else if !tail.waited {
                JoinVerdict::Error(n as usize)
            } else {
                JoinVerdict::Status(i as usize)
            },
            None => tail_outcome,
        }
    } else {
        tail_outcome
    }
}

proof fn lemma_first_failure_bounds(rs: Seq<WaitReport>)
    ensures
        match first_failure(rs) {
            Some(i) => 0 <= i < rs.len() && fails(rs[i]) && forall|j: int| 0 <= j < i ==> !fails(#[trigger] rs[j]),
            None => forall|j: int| 0 <= j < rs.len() ==> !fails(#[trigger] rs[j]),
        },
    decreases rs.len(),
{
    if rs.len() > 0 {
        let prefix = rs.drop_last();
        lemma_first_failure_bounds(prefix);
        assert forall|j: int| 0 <= j < prefix.len() implies prefix[j] == rs[j] by {}
    }
}

/// The outcome of a join, from the reports of the non-tail stages in spawn
/// order and the report of the tail.
pub fn join_verdict(pipefail: bool, reports: &[WaitReport], tail: WaitReport) -> (r: JoinVerdict)
    ensures
        r == verdict_spec(pipefail, reports@, tail),
{
    let n = reports.len();
    let mut first: Option<usize> = None;
    let mut i: usize = 0;
    while i < n
        invariant
            n == reports@.len(),
            i <= n,
            match first {
                Some(f) => first_failure(reports@.subrange(0, i as int)) == Some(f as int),
                None => first_failure(reports@.subrange(0, i as int)).is_none(),
            },
        decreases n - i,
    {
        proof {
            assert(reports@.subrange(0, i + 1).drop_last() =~= reports@.subrange(0, i as int));
        }
        if first.is_none() {
            let rep = reports[i];
            if !(rep.waited && rep.success) {
                first = Some(i);
            }
        }
        i = i + 1;
    }
    proof {
        assert(reports@.subrange(0, n as int) =~= reports@);
        lemma_first_failure_bounds(reports@);
    }
    let tail_outcome = if tail.waited { JoinVerdict::Status(n) } else { JoinVerdict::Error(n) };
    if pipefail {
        match first {
            Some(f) => {
                if !reports[f].waited {
                    JoinVerdict::Error(f)
                } else if !tail.waited {
                    JoinVerdict::Error(n)
                } else {
                    JoinVerdict::Status(f)
                }
            },
            None => tail_outcome,
        }
    } else {
        tail_outcome
    }
}

/// When every stage was waited on and exited successfully, the join reports
/// the tail's status, with or without pipefail.
pub proof fn lemma_all_successful_reports_tail(pipefail: bool, rs: Seq<WaitReport>, tail: WaitReport)
    requires
        forall|j: int| 0 <= j < rs.len() ==> (#[trigger] rs[j]).waited && rs[j].success,
        tail.waited,
        rs.len() <= usize::MAX,
    ensures
        verdict_spec(pipefail, rs, tail) == JoinVerdict::Status(rs.len() as usize),
{
    lemma_first_failure_bounds(rs);
}

/// With pipefail, a failing status of an earlier stage wins over the tail's
/// status, and among failing stages the first in spawn order wins.
pub proof fn lemma_pipefail_reports_first_failure(rs: Seq<WaitReport>, tail: WaitReport, i: int)
    requires
        0 <= i < rs.len(),
        rs[i].waited && !rs[i].success,
        forall|j: int| 0 <= j < i ==> (#[trigger] rs[j]).waited && rs[j].success,
        tail.waited,
    ensures
        verdict_spec(true, rs, tail) == JoinVerdict::Status(i as usize),
{
    lemma_first_failure_bounds(rs);
    let f = first_failure(rs);
    assert(f == Some(i)) by {
        match f {
            Some(x) => {
                if x < i {
                    assert(!fails(rs[x]));
                } else if x > i {
                    assert(!fails(rs[i]));
                }
            },
            None => {
                assert(!fails(rs[i]));
            },
        }
    }
}

/// Without pipefail the join reports the tail's outcome, whatever the other
/// stages did.
pub proof fn lemma_no_pipefail_reports_tail(rs: Seq<WaitReport>, tail: WaitReport)
    requires
        rs.len() <= usize::MAX,
    ensures
        verdict_spec(false, rs, tail) == (if tail.waited {
            JoinVerdict::Status(rs.len() as usize)
        } else {
            JoinVerdict::Error(rs.len() as usize)
        }),
{
}

} // verus!
