//! Result aggregation.
//!
//! Each scenario produces one immutable aggregate: its parameters,
//! the trial count, and the average wall-clock time per operation —
//! total elapsed time divided by the trial count.  Per-key sweeps
//! also report their full per-call timing sequence.  Times are
//! nanoseconds; the host samples the monotonic clock immediately
//! around each call or batch and hands the elapsed time in.

use vstd::prelude::*;
use vstd::arithmetic::div_mod::{lemma_div_is_ordered, lemma_div_multiples_vanish};
use vstd::arithmetic::mul::lemma_mul_inequality;
use crate::scenario::Scenario;

verus! {

/// The total of a timing sequence, in nanoseconds.
pub open spec fn spec_sum_ns(s: Seq<u64>) -> int
    decreases s.len(),
{
    if s.len() == 0 {
        0
    } else {
        spec_sum_ns(s.drop_last()) + s.last()
    }
}

/// A timing total is bounded by its length times the largest sample.
proof fn lemma_sum_ns_bounds(s: Seq<u64>)
    ensures
        0 <= spec_sum_ns(s) <= s.len() * u64::MAX,
    decreases s.len(),
{
    if s.len() > 0 {
        lemma_sum_ns_bounds(s.drop_last());
    }
}

/// One scenario's aggregate, printed and discarded.
#[derive(Debug)]
pub struct BenchmarkResult {
    /// The scenario and its parameter set.
    pub scenario: Scenario,
    /// Operations the elapsed time is divided by.
    pub trials: usize,
    /// Average wall-clock nanoseconds per operation.
    pub avg_ns: u64,
    /// The full per-call timing sequence, for per-key sweeps; empty
    /// for batch-timed scenarios.
    pub per_call_ns: Vec<u64>,
}

/// Compute a scenario's aggregate from its recorded timings: the
/// average is the timing total divided by the trial count, and
/// per-key sweeps carry the timings through unchanged.
pub fn aggregate(scenario: Scenario, trials: usize, per_call_timing: bool, timings: &Vec<u64>) -> (r:
    BenchmarkResult)
    requires
        trials > 0,
        timings@.len() <= trials,
    ensures
        r.scenario == scenario,
        r.trials == trials,
        r.avg_ns == spec_sum_ns(timings@) / (trials as int),
        per_call_timing ==> r.per_call_ns@ == timings@,
        !per_call_timing ==> r.per_call_ns@ == Seq::<u64>::empty(),
{
    let mut sum: u128 = 0;
    let mut i: usize = 0;
    proof {
        assert(timings@.take(0) =~= Seq::<u64>::empty());
    }
    while i < timings.len()
        invariant
            i <= timings@.len(),
            sum == spec_sum_ns(timings@.take(i as int)),
            sum <= i * (u64::MAX as int),
        decreases timings@.len() - i,
    {
        let t = timings[i];
        proof {
            assert(timings@.take(i + 1).drop_last() =~= timings@.take(i as int));
            assert(timings@.take(i + 1).last() == timings@[i as int]);
        }
        sum = sum + (t as u128);
        i = i + 1;
    }
    proof {
        assert(timings@.take(timings@.len() as int) =~= timings@);
        lemma_sum_ns_bounds(timings@);
        lemma_mul_inequality(timings@.len() as int, trials as int, u64::MAX as int);
        lemma_div_is_ordered(
            spec_sum_ns(timings@),
            (trials as int) * (u64::MAX as int),
            trials as int,
        );
        lemma_div_multiples_vanish(u64::MAX as int, trials as int);
    }
    let avg: u64 = (sum / (trials as u128)) as u64;
    let mut per_call_ns: Vec<u64> = Vec::new();
    if per_call_timing {
        let mut j: usize = 0;
        while j < timings.len()
            invariant
                j <= timings@.len(),
                per_call_ns@ == timings@.take(j as int),
            decreases timings@.len() - j,
        {
            let t = timings[j];
            per_call_ns.push(t);
            proof {
                assert(per_call_ns@ =~= timings@.take(j + 1));
            }
            j = j + 1;
        }
        proof {
            assert(per_call_ns@ =~= timings@);
        }
    }
    BenchmarkResult { scenario, trials, avg_ns: avg, per_call_ns }
}

} // verus!
