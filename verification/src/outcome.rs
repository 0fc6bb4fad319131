//! The immutable result of one batch run, and the fatal errors that can
//! prevent one from being produced.

use vstd::prelude::*;
use crate::aggregator::OutcomeAggregator;

verus! {

/// Outcome statistics for one compute unit.
#[derive(Clone, Copy, Debug, PartialEq, Eq, Structural)]
pub struct CpuStats {
    pub precursors_processed: usize,
}

/// The snapshot a run produces once, after every lane has terminated. Never
/// mutated afterwards.
#[derive(Debug)]
pub struct BatchResults {
    pub total_processed: usize,
    pub successful: usize,
    pub failed: usize,
    pub cpu_stats: Vec<CpuStats>,
}

impl BatchResults {
    /// The per-unit processed counts, as a sequence of plain numbers.
    pub open spec fn spec_per_unit(self) -> Seq<usize> {
        self.cpu_stats@.map_values(|c: CpuStats| c.precursors_processed)
    }

    /// Reads the final counters out into the immutable snapshot.
    pub fn from_aggregator(agg: &OutcomeAggregator) -> (r: Self)
        ensures
            r.total_processed == agg.total_processed,
            r.successful == agg.successful,
            r.failed == agg.failed,
            r.spec_per_unit() == agg.per_unit@,
    {
        let mut cpu_stats: Vec<CpuStats> = Vec::new();
        let mut i: usize = 0;
        while i < agg.per_unit.len()
            invariant
                i <= agg.per_unit@.len(),
                cpu_stats@.len() == i,
                forall|j: int|
                    0 <= j < i ==> cpu_stats@[j].precursors_processed == agg.per_unit@[j],
            decreases agg.per_unit@.len() - i,
        {
            cpu_stats.push(CpuStats { precursors_processed: agg.per_unit[i] });
            i = i + 1;
        }
        let r = BatchResults {
            total_processed: agg.total_processed,
            successful: agg.successful,
            failed: agg.failed,
            cpu_stats,
        };
        proof {
            assert(r.spec_per_unit() =~= agg.per_unit@);
        }
        r
    }
}

/// A fatal, run-level failure. A task's own failure is never one of these: it
/// is recorded in the statistics and the run goes on.
#[derive(Clone, Copy, Debug, PartialEq, Eq, Structural)]
pub enum RunError {
    /// The topology has a zero dimension; the dispatcher refuses to start.
    InvalidTopology,
    /// A lane terminated abnormally. Reported only after every other lane has
    /// still been joined.
    ThreadFailure,
}

} // verus!
