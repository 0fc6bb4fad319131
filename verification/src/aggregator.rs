//! Shared outcome counters for one batch run: total, success and failure
//! counts, plus a processed count per compute unit. Lanes record one outcome
//! per task; the dispatcher reads the counters out only after every lane has
//! terminated.

use vstd::prelude::*;

verus! {

/// The sum of all per-unit processed counts.
pub open spec fn sum_of(s: Seq<usize>) -> int
    decreases s.len(),
{
    if s.len() == 0 {
        0
    } else {
        sum_of(s.drop_last()) + s.last()
    }
}

/// Every entry is bounded by the sum of the whole sequence.
pub proof fn lemma_sum_entry_bound(s: Seq<usize>, i: int)
    requires
        0 <= i < s.len(),
    ensures
        0 <= s[i] <= sum_of(s),
        sum_of(s) >= 0,
    decreases s.len(),
{
    lemma_sum_nonneg(s.drop_last());
    if i < s.len() - 1 {
        lemma_sum_entry_bound(s.drop_last(), i);
    }
}

pub proof fn lemma_sum_nonneg(s: Seq<usize>)
    ensures
        sum_of(s) >= 0,
    decreases s.len(),
{
    if s.len() > 0 {
        lemma_sum_nonneg(s.drop_last());
    }
}

/// Raising one entry raises the sum by the same amount.
pub proof fn lemma_sum_update(s: Seq<usize>, i: int, v: usize)
    requires
        0 <= i < s.len(),
    ensures
        sum_of(s.update(i, v)) == sum_of(s) - s[i] + v,
    decreases s.len(),
{
    let u = s.update(i, v);
    if i == s.len() - 1 {
        assert(u.drop_last() =~= s.drop_last());
    } else {
        assert(u.drop_last() =~= s.drop_last().update(i, v));
        lemma_sum_update(s.drop_last(), i, v);
    }
}

/// The monotonically growing counters shared by every lane of one run.
pub struct OutcomeAggregator {
    pub total_processed: usize,
    pub successful: usize,
    pub failed: usize,
    pub per_unit: Vec<usize>,
}

impl OutcomeAggregator {
    /// The counters never disagree: every processed task is either a success
    /// or a failure, and is accounted to exactly one compute unit.
    pub open spec fn wf(self) -> bool {
        &&& self.successful + self.failed == self.total_processed
        &&& sum_of(self.per_unit@) == self.total_processed
    }

    /// Fresh counters for a run over the given number of compute units.
    pub fn new(units: usize) -> (r: Self)
        ensures
            r.wf(),
            r.total_processed == 0,
            r.successful == 0,
            r.failed == 0,
            r.per_unit@.len() == units,
            forall|i: int| 0 <= i < units ==> r.per_unit@[i] == 0,
    {
        let mut per_unit: Vec<usize> = Vec::new();
        let mut i: usize = 0;
        while i < units
            invariant
                i <= units,
                per_unit@.len() == i,
                forall|j: int| 0 <= j < i ==> per_unit@[j] == 0,
                sum_of(per_unit@) == 0,
            decreases units - i,
        {
            let ghost before = per_unit@;
            per_unit.push(0);
            proof {
                assert(per_unit@.drop_last() =~= before);
            }
            i = i + 1;
        }
        OutcomeAggregator { total_processed: 0, successful: 0, failed: 0, per_unit }
    }

    /// Records one task outcome against the given compute unit.
    pub fn record(&mut self, unit: usize, success: bool)
        requires
            old(self).wf(),
            unit < old(self).per_unit@.len(),
            old(self).total_processed < usize::MAX,
        ensures
            final(self).wf(),
            final(self).total_processed == old(self).total_processed + 1,
            final(self).successful == old(self).successful + if success {
                1int
            } else {
                0int
            },
            final(self).failed == old(self).failed + if success {
                0int
            } else {
                1int
            },
            final(self).per_unit@ == old(self).per_unit@.update(
                unit as int,
                (old(self).per_unit@[unit as int] + 1) as usize,
            ),
            final(self).per_unit@.len() == old(self).per_unit@.len(),
    {
        proof {
            lemma_sum_entry_bound(self.per_unit@, unit as int);
            lemma_sum_update(
                self.per_unit@,
                unit as int,
                (self.per_unit@[unit as int] + 1) as usize,
            );
        }
        self.total_processed = self.total_processed + 1;
        if success {
            self.successful = self.successful + 1;
        } else {
            self.failed = self.failed + 1;
        }
        let bumped: usize = self.per_unit[unit] + 1;
        self.per_unit[unit] = bumped;
    }
}

} // verus!
