use vstd::prelude::*;

verus! {

/// Aggregated statistics of an insertion workload: totals of successes,
/// failures and relocation swaps, the position of the first failure, and
/// a histogram of swap counts.
pub struct Summary {
    pub success: u64,
    pub failure: u64,
    pub swaps: u64,
    pub first_failure: usize,
    pub swap_histogram: Vec<usize>,
}

impl Summary {
    /// A fresh summary: all totals zero and an all-zero histogram with one
    /// bin per possible swap count.
    pub fn new(bins: usize) -> (s: Summary)
        ensures
            s.success == 0,
            s.failure == 0,
            s.swaps == 0,
            s.first_failure == 0,
            s.swap_histogram@.len() == bins,
            forall|i: int| 0 <= i < bins ==> s.swap_histogram@[i] == 0,
    {
        let mut swap_histogram: Vec<usize> = Vec::new();
        while swap_histogram.len() < bins
            invariant
                swap_histogram.len() <= bins,
                forall|i: int| 0 <= i < swap_histogram.len() ==> swap_histogram@[i] == 0,
            decreases bins - swap_histogram.len(),
        {
            swap_histogram.push(0);
        }
        Summary { success: 0, failure: 0, swaps: 0, first_failure: 0, swap_histogram }
    }

    /// Records the result of the insertion of item `i`: `status` is
    /// whether it succeeded and `swaps` how many relocation swaps it
    /// performed. The first failing position is remembered.
    pub fn update(&mut self, i: usize, status: bool, swaps: u64)
        requires
            swaps < old(self).swap_histogram@.len(),
            old(self).swaps + swaps <= u64::MAX,
            old(self).success < u64::MAX,
            old(self).failure < u64::MAX,
            old(self).swap_histogram@[swaps as int] < usize::MAX,
        ensures
            final(self).swaps == old(self).swaps + swaps,
            final(self).swap_histogram@ == old(self).swap_histogram@.update(
                swaps as int,
                (old(self).swap_histogram@[swaps as int] + 1) as usize,
            ),
            status ==> final(self).success == old(self).success + 1 && final(self).failure == old(
                self,
            ).failure && final(self).first_failure == old(self).first_failure,
            !status ==> final(self).failure == old(self).failure + 1 && final(self).success == old(
                self,
            ).success,
            !status && old(self).failure == 0 ==> final(self).first_failure == i,
            !status && old(self).failure != 0 ==> final(self).first_failure == old(
                self,
            ).first_failure,
    {
        self.swaps = self.swaps + swaps;
        let len: usize = self.swap_histogram.len();
        let b: usize = swaps as usize;
        let count: usize = self.swap_histogram[b];
        self.swap_histogram[b] = count + 1;
        if status {
            self.success = self.success + 1;
        } else {
            if self.failure == 0 {
                self.first_failure = i;
            }
            self.failure = self.failure + 1;
        }
    }
}

} // verus!
