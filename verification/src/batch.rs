//! Aggregation of a batch's outcomes: exactly the failures are reported,
//! the successes are counted, and the exit status is nonzero exactly when
//! some job failed.

use vstd::prelude::*;
use vstd::string::StringExecFns;
use crate::job::ConversionOutcome;
use crate::job::OutcomeModel;
use crate::job::failure_line;

verus! {

/// How many outcomes are failures.
pub open spec fn failure_count(s: Seq<OutcomeModel>) -> nat
    decreases s.len(),
{
    if s.len() == 0 {
        0
    } else {
        failure_count(s.drop_last()) + (if s.last() matches OutcomeModel::Failure { .. } {
            1nat
        } else {
            0nat
        })
    }
}

/// The failure report lines, in outcome order: each failure's text under an
/// `error:` prefix.
pub open spec fn failure_lines_of(s: Seq<OutcomeModel>) -> Seq<Seq<char>>
    decreases s.len(),
{
    if s.len() == 0 {
        Seq::empty()
    } else {
        failure_lines_of(s.drop_last()) + match s.last() {
            OutcomeModel::Failure { description, error } => seq![
                "error: "@ + failure_line(description, error),
            ],
            OutcomeModel::Success { .. } => Seq::empty(),
        }
    }
}

/// The aggregated result of one whole batch.
pub struct BatchSummary {
    /// One report line per failed job, in outcome order.
    pub failure_lines: Vec<String>,
    /// How many jobs succeeded.
    pub success_count: usize,
    /// How many jobs failed.
    pub failure_count: usize,
    /// The process exit status: nonzero exactly when some job failed.
    pub exit_code: i32,
}

/// Partitions the collected outcomes: a batch of `N` outcomes of which `K`
/// are failures yields exactly `K` failure lines, `N - K` counted successes,
/// and a nonzero exit status exactly when `K > 0`.
pub fn aggregate(outcomes: &Vec<ConversionOutcome>) -> (r: BatchSummary)
    ensures
        r.failure_count == failure_count(outcomes@.map_values(|o: ConversionOutcome| o@)),
        r.success_count + r.failure_count == outcomes@.len(),
        r.exit_code == (if failure_count(outcomes@.map_values(|o: ConversionOutcome| o@)) > 0 {
            1int
        } else {
            0int
        }),
        r.failure_lines@.map_values(|m: String| m@) == failure_lines_of(
            outcomes@.map_values(|o: ConversionOutcome| o@),
        ),
        r.failure_lines@.len() == r.failure_count,
{
    let ghost models = outcomes@.map_values(|o: ConversionOutcome| o@);
    let mut failure_lines: Vec<String> = Vec::new();
    let mut success_count: usize = 0;
    let mut failures_so_far: usize = 0;
    let n: usize = outcomes.len();
    let mut i: usize = 0;
    while i < n
        invariant
            i <= n,
            n == outcomes@.len(),
            models == outcomes@.map_values(|o: ConversionOutcome| o@),
            models.len() == n,
            success_count + failures_so_far == i,
            failures_so_far == failure_count(models.subrange(0, i as int)),
            failure_lines@.map_values(|m: String| m@) == failure_lines_of(
                models.subrange(0, i as int),
            ),
            failure_lines@.len() == failures_so_far,
        decreases n - i,
    {
        proof {
            assert(models.subrange(0, i as int + 1).drop_last() =~= models.subrange(0, i as int));
            assert(models.subrange(0, i as int + 1).last() == outcomes@[i as int]@);
        }
        match outcomes[i].failure_text() {
            Some(text) => {
                let line = String::from_str("error: ").concat(text.as_str());
                failure_lines.push(line);
                failures_so_far = failures_so_far + 1;
            },
            None => {
                success_count = success_count + 1;
            },
        }
        proof {
            assert(failure_lines@.map_values(|m: String| m@) =~= failure_lines_of(
                models.subrange(0, i as int + 1),
            ));
        }
        i = i + 1;
    }
    proof {
        assert(models.subrange(0, n as int) =~= models);
    }
    BatchSummary {
        failure_lines,
        success_count,
        failure_count: failures_so_far,
        exit_code: if failures_so_far > 0 {
            1
        } else {
            0
        },
    }
}

} // verus!
