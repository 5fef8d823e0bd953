//! The metrics registry: the one shared aggregation point of a run. Counters
//! only ever grow, every attempt is counted under exactly one status label,
//! and only attempts that obtained a response contribute a latency sample.

use vstd::prelude::*;

use crate::histogram::{bounds_sorted, default_bounds, LatencyHistogram};
use crate::outcome::{RequestOutcome, StatusLabel};

verus! {

/// Sum of all per-label counts.
pub open spec fn sum_counts(s: Seq<(StatusLabel, u64)>) -> int
    decreases s.len(),
{
    if s.len() == 0 {
        0
    } else {
        sum_counts(s.drop_last()) + s.last().1
    }
}

/// Total counted under one label (the labels are unique in a well-formed
/// registry, so this is the label's entry, or zero when the label has not been
/// observed yet).
pub open spec fn label_count(s: Seq<(StatusLabel, u64)>, l: StatusLabel) -> int
    decreases s.len(),
{
    if s.len() == 0 {
        0
    } else {
        label_count(s.drop_last(), l) + if s.last().0 == l {
            s.last().1 as int
        } else {
            0
        }
    }
}

/// No label appears twice.
pub open spec fn unique_labels(s: Seq<(StatusLabel, u64)>) -> bool {
    forall|i: int, j: int| 0 <= i < j < s.len() ==> s[i].0 != s[j].0
}

pub proof fn lemma_sum_counts_nonneg(s: Seq<(StatusLabel, u64)>)
    ensures
        sum_counts(s) >= 0,
    decreases s.len(),
{
    if s.len() > 0 {
        lemma_sum_counts_nonneg(s.drop_last());
    }
}

/// A label's total never exceeds the sum over all labels.
pub proof fn lemma_label_count_le_sum(s: Seq<(StatusLabel, u64)>, l: StatusLabel)
    ensures
        0 <= label_count(s, l),
        label_count(s, l) <= sum_counts(s),
    decreases s.len(),
{
    if s.len() > 0 {
        lemma_label_count_le_sum(s.drop_last(), l);
    }
}

/// A single entry never exceeds the sum over all labels.
proof fn lemma_entry_le_sum(s: Seq<(StatusLabel, u64)>, i: int)
    requires
        0 <= i < s.len(),
    ensures
        s[i].1 as int <= sum_counts(s),
    decreases s.len(),
{
    if i == s.len() - 1 {
        lemma_sum_counts_nonneg(s.drop_last());
    } else {
        lemma_entry_le_sum(s.drop_last(), i);
    }
}

/// Bumping the entry at `i` (whose label is `l`) raises the sum by one.
proof fn lemma_bump_sum(s: Seq<(StatusLabel, u64)>, i: int, e: (StatusLabel, u64))
    requires
        0 <= i < s.len(),
        e.1 as int == s[i].1 as int + 1,
    ensures
        sum_counts(s.update(i, e)) == sum_counts(s) + 1,
    decreases s.len(),
{
    let t = s.update(i, e);
    if i == s.len() - 1 {
        assert(t.drop_last() =~= s.drop_last());
    } else {
        assert(t.drop_last() =~= s.drop_last().update(i, e));
        lemma_bump_sum(s.drop_last(), i, e);
    }
}

/// Bumping the entry at `i` raises its own label's total by one and no other.
proof fn lemma_bump_label_count(
    s: Seq<(StatusLabel, u64)>,
    i: int,
    e: (StatusLabel, u64),
    l2: StatusLabel,
)
    requires
        0 <= i < s.len(),
        e.0 == s[i].0,
        e.1 as int == s[i].1 as int + 1,
    ensures
        label_count(s.update(i, e), l2) == label_count(s, l2) + if l2 == e.0 {
            1int
        } else {
            0int
        },
    decreases s.len(),
{
    let t = s.update(i, e);
    if i == s.len() - 1 {
        assert(t.drop_last() =~= s.drop_last());
    } else {
        assert(t.drop_last() =~= s.drop_last().update(i, e));
        lemma_bump_label_count(s.drop_last(), i, e, l2);
    }
}

/// Pushing a fresh entry `(l, 1)` raises the sum by one and only `l`'s total.
proof fn lemma_push_counts(s: Seq<(StatusLabel, u64)>, l: StatusLabel, l2: StatusLabel)
    ensures
        sum_counts(s.push((l, 1u64))) == sum_counts(s) + 1,
        label_count(s.push((l, 1u64)), l2) == label_count(s, l2) + if l2 == l {
            1int
        } else {
            0int
        },
{
    let t = s.push((l, 1u64));
    assert(t.drop_last() =~= s);
}

/// Process-wide counters and the latency histogram of one run, created once
/// and only ever grown.
pub struct MetricsRegistry {
    /// Attempts made, counted before the outcome is known.
    pub requests_total: u64,
    /// Attempts that obtained no response (timeout or transport error).
    pub failed_total: u64,
    /// Per-label counts; a key is created lazily on first observation.
    pub status_counts: Vec<(StatusLabel, u64)>,
    /// Latencies of successful responses, in milliseconds.
    pub hist: LatencyHistogram,
}

impl MetricsRegistry {
    /// What holds of the resolved attempts alone, however many are still in
    /// flight: labels are unique, the failure total is exactly the error
    /// label's count, and the latency samples are exactly the non-error
    /// resolved attempts.
    pub open spec fn resolved_consistent(self) -> bool {
        &&& unique_labels(self.status_counts@)
        &&& self.failed_total as int == label_count(self.status_counts@, StatusLabel::Error)
        &&& self.hist.wf()
        &&& self.hist.count as int + self.failed_total as int == sum_counts(self.status_counts@)
    }

    /// How far the attempt total runs ahead of the per-label counts: the
    /// attempts counted but not yet resolved.
    pub open spec fn pending_attempts(self) -> int {
        self.requests_total as int - sum_counts(self.status_counts@)
    }

    /// The registry as a worker mid-call sees it: `pending` attempts counted,
    /// their outcomes still unknown.
    pub open spec fn inv_pending(self, pending: nat) -> bool {
        &&& self.resolved_consistent()
        &&& self.pending_attempts() == pending
    }

    /// The registry's invariant at rest (no attempt in flight). It carries the
    /// conservation law (the attempt total equals the sum of all per-label
    /// counts, and the failure total is exactly the error label's count) and
    /// histogram exclusivity (samples come from non-error attempts alone).
    pub open spec fn inv(self) -> bool {
        self.inv_pending(0)
    }

    /// An empty registry over the given histogram bounds.
    pub fn new(bounds: Vec<u64>) -> (r: MetricsRegistry)
        requires
            bounds_sorted(bounds@),
        ensures
            r.inv(),
            r.requests_total == 0,
            r.failed_total == 0,
            r.status_counts@.len() == 0,
            r.hist.count == 0,
            r.hist.sum == 0,
            r.hist.bounds@ == bounds@,
    {
        MetricsRegistry {
            requests_total: 0,
            failed_total: 0,
            status_counts: Vec::new(),
            hist: LatencyHistogram::new(bounds),
        }
    }

    /// An empty registry over the stock bucket bounds.
    pub fn with_default_buckets() -> (r: MetricsRegistry)
        ensures
            r.inv(),
            r.requests_total == 0,
            r.failed_total == 0,
            r.status_counts@.len() == 0,
            r.hist.count == 0,
    {
        MetricsRegistry::new(default_bounds())
    }

    /// Counts one attempt, before its outcome is known: one more attempt is
    /// then in flight. Never decreases anything; touches nothing else.
    pub fn increment_requests(&mut self)
        requires
            old(self).requests_total < u64::MAX,
        ensures
            final(self).requests_total == old(self).requests_total + 1,
            final(self).failed_total == old(self).failed_total,
            final(self).status_counts@ == old(self).status_counts@,
            final(self).hist == old(self).hist,
            final(self).resolved_consistent() == old(self).resolved_consistent(),
            final(self).pending_attempts() == old(self).pending_attempts() + 1,
    {
        self.requests_total = self.requests_total + 1;
    }

    /// Counts one attempt that obtained no response. Never decreases
    /// anything; touches nothing else.
    pub fn increment_failures(&mut self)
        requires
            old(self).failed_total < u64::MAX,
        ensures
            final(self).failed_total == old(self).failed_total + 1,
            final(self).requests_total == old(self).requests_total,
            final(self).status_counts@ == old(self).status_counts@,
            final(self).hist == old(self).hist,
    {
        self.failed_total = self.failed_total + 1;
    }

    /// Counts one outcome under its label, creating the key on first
    /// observation. Exactly the given label's total grows, by one; existing
    /// keys keep their places.
    pub fn increment_status(&mut self, label: StatusLabel)
        requires
            sum_counts(old(self).status_counts@) < u64::MAX,
        ensures
            final(self).requests_total == old(self).requests_total,
            final(self).failed_total == old(self).failed_total,
            final(self).hist == old(self).hist,
            sum_counts(final(self).status_counts@) == sum_counts(old(self).status_counts@) + 1,
            forall|l2: StatusLabel|
                label_count(final(self).status_counts@, l2) == label_count(
                    old(self).status_counts@,
                    l2,
                ) + if l2 == label {
                    1int
                } else {
                    0int
                },
            forall|j: int|
                0 <= j < old(self).status_counts@.len() ==> final(self).status_counts@[j].0 == old(
                    self,
                ).status_counts@[j].0,
            final(self).status_counts@.len() == old(self).status_counts@.len()
                || (final(self).status_counts@.len() == old(self).status_counts@.len() + 1
                && final(self).status_counts@.last() == ((label, 1u64))),
            unique_labels(old(self).status_counts@) ==> unique_labels(final(self).status_counts@),
    {
        let n = self.status_counts.len();
        let mut i: usize = 0;
        while i < n
            invariant
                i <= n,
                n == self.status_counts.len(),
                *self == *old(self),
                sum_counts(old(self).status_counts@) < u64::MAX,
                forall|j: int| 0 <= j < i ==> self.status_counts@[j].0 != label,
            decreases n - i,
        {
            let e = self.status_counts[i];
            if e.0 == label {
                proof {
                    lemma_entry_le_sum(self.status_counts@, i as int);
                }
                let bumped: (StatusLabel, u64) = (e.0, e.1 + 1);
                self.status_counts.set(i, bumped);
                proof {
                    lemma_bump_sum(old(self).status_counts@, i as int, bumped);
                    assert forall|l2: StatusLabel|
                        label_count(self.status_counts@, l2) == label_count(
                            old(self).status_counts@,
                            l2,
                        ) + if l2 == label {
                            1int
                        } else {
                            0int
                        } by {
                        lemma_bump_label_count(old(self).status_counts@, i as int, bumped, l2);
                    }
                }
                return ;
            }
            i += 1;
        }
        self.status_counts.push((label, 1));
        proof {
            assert forall|l2: StatusLabel|
                label_count(self.status_counts@, l2) == label_count(old(self).status_counts@, l2)
                    + if l2 == label {
                    1int
                } else {
                    0int
                } by {
                lemma_push_counts(old(self).status_counts@, label, l2);
            }
            lemma_push_counts(old(self).status_counts@, label, label);
        }
    }

    /// Adds one latency sample to the histogram. Touches nothing else.
    pub fn observe_latency(&mut self, ms: u64)
        requires
            old(self).hist.wf(),
            old(self).hist.count < u64::MAX,
        ensures
            final(self).requests_total == old(self).requests_total,
            final(self).failed_total == old(self).failed_total,
            final(self).status_counts@ == old(self).status_counts@,
            final(self).hist.wf(),
            final(self).hist.bounds@ == old(self).hist.bounds@,
            final(self).hist.count == old(self).hist.count + 1,
            final(self).hist.sum == old(self).hist.sum + ms as u128,
            final(self).hist.buckets@.len() == old(self).hist.buckets@.len(),
            forall|i: int|
                0 <= i < old(self).hist.buckets@.len() ==> final(self).hist.buckets@[i] == old(
                    self,
                ).hist.buckets@[i] + (if ms <= old(self).hist.bounds@[i] {
                    1int
                } else {
                    0int
                }),
    {
        self.hist.observe(ms);
    }

    /// Resolves one in-flight attempt: counts its outcome under its label,
    /// and — for a response — its latency sample, or — for a failure — the
    /// failure counter. One fewer attempt is then in flight; the attempt total
    /// does not move.
    pub fn finish_attempt(&mut self, o: RequestOutcome)
        requires
            old(self).resolved_consistent(),
            old(self).pending_attempts() >= 1,
        ensures
            final(self).resolved_consistent(),
            final(self).pending_attempts() == old(self).pending_attempts() - 1,
            final(self).requests_total == old(self).requests_total,
            final(self).failed_total >= old(self).failed_total,
            final(self).hist.count >= old(self).hist.count,
            final(self).hist.bounds@ == old(self).hist.bounds@,
            forall|l: StatusLabel|
                label_count(final(self).status_counts@, l) == label_count(
                    old(self).status_counts@,
                    l,
                ) + if l == o.label_spec() {
                    1int
                } else {
                    0int
                },
            match o {
                RequestOutcome::Success { status, latency_ms } => {
                    &&& final(self).failed_total == old(self).failed_total
                    &&& final(self).hist.count == old(self).hist.count + 1
                    &&& final(self).hist.sum == old(self).hist.sum + latency_ms as u128
                },
                RequestOutcome::Failure { .. } => {
                    &&& final(self).failed_total == old(self).failed_total + 1
                    &&& final(self).hist == old(self).hist
                },
            },
    {
        proof {
            lemma_label_count_le_sum(self.status_counts@, StatusLabel::Error);
        }
        match o {
            RequestOutcome::Success { status, latency_ms } => {
                self.increment_status(StatusLabel::Code(status));
                self.observe_latency(latency_ms);
            },
            RequestOutcome::Failure { .. } => {
                self.increment_failures();
                self.increment_status(StatusLabel::Error);
            },
        }
    }

    /// Records one finished attempt in a single move: the attempt counter, the
    /// outcome's status label, and — for a response — its latency sample, or —
    /// for a failure — the failure counter. Preserves the invariant and never
    /// decreases any counter.
    pub fn record_attempt(&mut self, o: RequestOutcome)
        requires
            old(self).inv(),
            old(self).requests_total < u64::MAX,
        ensures
            final(self).inv(),
            final(self).requests_total == old(self).requests_total + 1,
            final(self).failed_total >= old(self).failed_total,
            final(self).hist.count >= old(self).hist.count,
            final(self).hist.bounds@ == old(self).hist.bounds@,
            forall|l: StatusLabel|
                label_count(final(self).status_counts@, l) == label_count(
                    old(self).status_counts@,
                    l,
                ) + if l == o.label_spec() {
                    1int
                } else {
                    0int
                },
            match o {
                RequestOutcome::Success { status, latency_ms } => {
                    &&& final(self).failed_total == old(self).failed_total
                    &&& final(self).hist.count == old(self).hist.count + 1
                    &&& final(self).hist.sum == old(self).hist.sum + latency_ms as u128
                },
                RequestOutcome::Failure { .. } => {
                    &&& final(self).failed_total == old(self).failed_total + 1
                    &&& final(self).hist == old(self).hist
                },
            },
    {
        self.increment_requests();
        self.finish_attempt(o);
    }

    /// A point-in-time copy of every counter and the histogram, for the
    /// exporter to serialize while workers keep writing to the live registry.
    pub fn snapshot(&self) -> (s: MetricsRegistry)
        ensures
            s.requests_total == self.requests_total,
            s.failed_total == self.failed_total,
            s.status_counts@ == self.status_counts@,
            s.hist.bounds@ == self.hist.bounds@,
            s.hist.buckets@ == self.hist.buckets@,
            s.hist.count == self.hist.count,
            s.hist.sum == self.hist.sum,
            self.inv() ==> s.inv(),
    {
        MetricsRegistry {
            requests_total: self.requests_total,
            failed_total: self.failed_total,
            status_counts: copy_entries(&self.status_counts),
            hist: LatencyHistogram {
                bounds: copy_u64s(&self.hist.bounds),
                buckets: copy_u64s(&self.hist.buckets),
                count: self.hist.count,
                sum: self.hist.sum,
            },
        }
    }
}

/// Element-wise copy of a counter vector.
fn copy_entries(v: &Vec<(StatusLabel, u64)>) -> (r: Vec<(StatusLabel, u64)>)
    ensures
        r@ == v@,
{
    let mut r: Vec<(StatusLabel, u64)> = Vec::new();
    let n = v.len();
    let mut i: usize = 0;
    while i < n
        invariant
            i <= n,
            n == v@.len(),
            r@ == v@.take(i as int),
        decreases n - i,
    {
        r.push(v[i]);
        proof {
            assert(r@ =~= v@.take(i as int + 1));
        }
        i += 1;
    }
    proof {
        assert(r@ =~= v@);
    }
    r
}

/// Element-wise copy of a numeric vector.
fn copy_u64s(v: &Vec<u64>) -> (r: Vec<u64>)
    ensures
        r@ == v@,
{
    let mut r: Vec<u64> = Vec::new();
    let n = v.len();
    let mut i: usize = 0;
    while i < n
        invariant
            i <= n,
            n == v@.len(),
            r@ == v@.take(i as int),
        decreases n - i,
    {
        r.push(v[i]);
        proof {
            assert(r@ =~= v@.take(i as int + 1));
        }
        i += 1;
    }
    proof {
        assert(r@ =~= v@);
    }
    r
}

/// Conservation: every attempt is counted under exactly one status label, so
/// the attempt total equals the sum of all per-label counts and the failure
/// total equals the error label's count.
pub proof fn lemma_conservation(r: MetricsRegistry)
    requires
        r.inv(),
    ensures
        r.requests_total as int == sum_counts(r.status_counts@),
        r.failed_total as int == label_count(r.status_counts@, StatusLabel::Error),
{
}

/// Conservation with attempts in flight: at any moment the attempt total
/// exceeds the sum of the per-label counts by exactly the attempts begun and
/// not yet resolved, and the failure total is still the error label's count —
/// a scrape taken mid-flight under-reports outcomes, never attempts.
pub proof fn lemma_conservation_in_flight(r: MetricsRegistry, pending: nat)
    requires
        r.inv_pending(pending),
    ensures
        r.requests_total as int == sum_counts(r.status_counts@) + pending,
        r.failed_total as int == label_count(r.status_counts@, StatusLabel::Error),
        r.hist.count as int == sum_counts(r.status_counts@) - r.failed_total as int,
{
}

/// Histogram exclusivity: only attempts that obtained a response contribute a
/// latency sample, so the sample count is the attempt total minus the failure
/// total.
pub proof fn lemma_histogram_exclusivity(r: MetricsRegistry)
    requires
        r.inv(),
    ensures
        r.hist.count as int == r.requests_total as int - r.failed_total as int,
{
}

} // verus!
