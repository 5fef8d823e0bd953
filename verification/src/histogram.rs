//! The latency distribution: cumulative buckets over fixed millisecond
//! bounds, a sample count and a sample sum, exactly what the text exposition
//! of a histogram serializes. Only successful responses contribute a sample.

use vstd::prelude::*;

verus! {

/// A distribution of observed latencies in milliseconds.
///
/// `buckets[i]` counts the samples whose value was at most `bounds[i]`
/// (cumulative, as the exposition format renders them); `count` counts every
/// sample and `sum` adds them all up.
pub struct LatencyHistogram {
    /// Upper bucket bounds in milliseconds, strictly increasing.
    pub bounds: Vec<u64>,
    /// `buckets[i]` = number of samples `<= bounds[i]`.
    pub buckets: Vec<u64>,
    /// Number of samples observed.
    pub count: u64,
    /// Sum of all samples, in milliseconds.
    pub sum: u128,
}

/// The bounds are strictly increasing.
pub open spec fn bounds_sorted(bounds: Seq<u64>) -> bool {
    forall|i: int, j: int| 0 <= i < j < bounds.len() ==> bounds[i] < bounds[j]
}

impl LatencyHistogram {
    /// Structural soundness: one bucket per bound, cumulative buckets that
    /// never exceed the sample count, and a sum bounded by what `count`
    /// samples can add up to.
    pub open spec fn wf(self) -> bool {
        &&& self.buckets.len() == self.bounds.len()
        &&& bounds_sorted(self.bounds@)
        &&& forall|i: int, j: int|
            0 <= i <= j < self.buckets.len() ==> self.buckets[i] <= self.buckets[j]
        &&& forall|i: int| 0 <= i < self.buckets.len() ==> self.buckets[i] <= self.count
        &&& self.sum as int <= self.count as int * (u64::MAX as int)
    }

    /// An empty histogram over the given bounds.
    pub fn new(bounds: Vec<u64>) -> (h: LatencyHistogram)
        requires
            bounds_sorted(bounds@),
        ensures
            h.wf(),
            h.bounds@ == bounds@,
            h.count == 0,
            h.sum == 0,
            h.buckets@.len() == bounds@.len(),
            forall|i: int| 0 <= i < h.buckets@.len() ==> h.buckets@[i] == 0,
    {
        let n = bounds.len();
        let mut buckets: Vec<u64> = Vec::new();
        let mut i: usize = 0;
        while i < n
            invariant
                i <= n,
                buckets@.len() == i,
                forall|j: int| 0 <= j < i ==> buckets@[j] == 0,
            decreases n - i,
        {
            buckets.push(0);
            i += 1;
        }
        LatencyHistogram { bounds, buckets, count: 0, sum: 0 }
    }

    /// Adds one sample: every bucket whose bound admits it grows by one, the
    /// count grows by one, the sum grows by the sample.
    pub fn observe(&mut self, ms: u64)
        requires
            old(self).wf(),
            old(self).count < u64::MAX,
        ensures
            final(self).wf(),
            final(self).bounds@ == old(self).bounds@,
            final(self).count == old(self).count + 1,
            final(self).sum == old(self).sum + ms as u128,
            final(self).buckets@.len() == old(self).buckets@.len(),
            forall|i: int|
                0 <= i < old(self).buckets@.len() ==> final(self).buckets@[i] == old(
                    self,
                ).buckets@[i] + (if ms <= old(self).bounds@[i] {
                    1int
                } else {
                    0int
                }),
    {
        let n = self.bounds.len();
        let mut i: usize = 0;
        while i < n
            invariant
                i <= n,
                n == self.bounds.len(),
                self.buckets.len() == n,
                self.bounds@ == old(self).bounds@,
                self.count == old(self).count,
                self.sum == old(self).sum,
                old(self).wf(),
                old(self).count < u64::MAX,
                forall|j: int|
                    0 <= j < i ==> self.buckets@[j] == old(self).buckets@[j] + (if ms <= old(
                        self,
                    ).bounds@[j] {
                        1int
                    } else {
                        0int
                    }),
                forall|j: int| i <= j < n ==> self.buckets@[j] == old(self).buckets@[j],
            decreases n - i,
        {
            if ms <= self.bounds[i] {
                let v = self.buckets[i];
                self.buckets.set(i, v + 1);
            }
            i += 1;
        }
        proof {
            assert(self.sum as int + ms as int <= (u128::MAX as int)) by (nonlinear_arith)
                requires
                    self.sum as int <= self.count as int * (u64::MAX as int),
                    (self.count as int) < (u64::MAX as int),
                    ms as int <= (u64::MAX as int);
            assert(self.sum as int + ms as int <= (self.count as int + 1) * (u64::MAX as int))
                by (nonlinear_arith)
                requires
                    self.sum as int <= self.count as int * (u64::MAX as int),
                    ms as int <= (u64::MAX as int);
        }
        self.count = self.count + 1;
        self.sum = self.sum + ms as u128;
    }
}

/// The stock bucket bounds of a run, in milliseconds, topping out at the
/// per-request timeout.
pub fn default_bounds() -> (b: Vec<u64>)
    ensures
        b@ == seq![5u64, 10u64, 25u64, 50u64, 100u64, 250u64, 500u64, 1000u64, 2000u64],
        bounds_sorted(b@),
{
    let b: Vec<u64> = vec![5, 10, 25, 50, 100, 250, 500, 1000, 2000];
    proof {
        assert(b@ =~= seq![5u64, 10u64, 25u64, 50u64, 100u64, 250u64, 500u64, 1000u64, 2000u64]);
    }
    b
}

} // verus!
