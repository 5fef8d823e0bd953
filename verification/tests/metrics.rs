use loadgen::outcome::{classify, FailureKind, RequestOutcome, StatusLabel};
use loadgen::registry::MetricsRegistry;

fn status_value(r: &MetricsRegistry, label: StatusLabel) -> u64 {
    let mut total: u64 = 0;
    for e in r.status_counts.iter() {
        if e.0 == label {
            total += e.1;
        }
    }
    total
}

fn sum_of_status_values(r: &MetricsRegistry) -> u64 {
    let mut total: u64 = 0;
    for e in r.status_counts.iter() {
        total += e.1;
    }
    total
}

#[test]
fn classify_response_is_success_whatever_the_status() {
    let ok = classify(Some(200), false, 12);
    assert_eq!(ok, RequestOutcome::Success { status: 200, latency_ms: 12 });
    let server_error = classify(Some(503), false, 40);
    assert_eq!(server_error, RequestOutcome::Success { status: 503, latency_ms: 40 });
}

#[test]
fn classify_no_response_is_failure() {
    let timed_out = classify(None, true, 2000);
    assert_eq!(timed_out, RequestOutcome::Failure { kind: FailureKind::Timeout });
    let refused = classify(None, false, 1);
    assert_eq!(refused, RequestOutcome::Failure { kind: FailureKind::Transport });
}

#[test]
fn fresh_registry_is_empty() {
    let r = MetricsRegistry::with_default_buckets();
    assert_eq!(r.requests_total, 0);
    assert_eq!(r.failed_total, 0);
    assert_eq!(r.status_counts.len(), 0);
    assert_eq!(r.hist.count, 0);
    assert_eq!(r.hist.sum, 0);
}

#[test]
fn success_is_counted_under_its_code_with_a_sample() {
    let mut r = MetricsRegistry::with_default_buckets();
    r.record_attempt(RequestOutcome::Success { status: 200, latency_ms: 7 });
    assert_eq!(r.requests_total, 1);
    assert_eq!(r.failed_total, 0);
    assert_eq!(status_value(&r, StatusLabel::Code(200)), 1);
    assert_eq!(status_value(&r, StatusLabel::Error), 0);
    assert_eq!(r.hist.count, 1);
    assert_eq!(r.hist.sum, 7);
}

#[test]
fn failure_is_counted_under_error_without_a_sample() {
    let mut r = MetricsRegistry::with_default_buckets();
    r.record_attempt(RequestOutcome::Failure { kind: FailureKind::Timeout });
    assert_eq!(r.requests_total, 1);
    assert_eq!(r.failed_total, 1);
    assert_eq!(status_value(&r, StatusLabel::Error), 1);
    assert_eq!(r.hist.count, 0);
    assert_eq!(r.hist.sum, 0);
}

#[test]
fn repeated_status_shares_one_key() {
    let mut r = MetricsRegistry::with_default_buckets();
    r.record_attempt(RequestOutcome::Success { status: 200, latency_ms: 3 });
    r.record_attempt(RequestOutcome::Success { status: 200, latency_ms: 5 });
    r.record_attempt(RequestOutcome::Success { status: 404, latency_ms: 2 });
    assert_eq!(r.status_counts.len(), 2);
    assert_eq!(r.status_counts[0], (StatusLabel::Code(200), 2));
    assert_eq!(r.status_counts[1], (StatusLabel::Code(404), 1));
}

#[test]
fn conservation_holds_at_every_step() {
    let mut r = MetricsRegistry::with_default_buckets();
    let outcomes = [
        RequestOutcome::Success { status: 200, latency_ms: 4 },
        RequestOutcome::Failure { kind: FailureKind::Transport },
        RequestOutcome::Success { status: 500, latency_ms: 90 },
        RequestOutcome::Failure { kind: FailureKind::Timeout },
        RequestOutcome::Success { status: 200, latency_ms: 15 },
    ];
    for o in outcomes.iter() {
        r.record_attempt(*o);
        assert_eq!(r.requests_total, sum_of_status_values(&r));
        assert_eq!(r.failed_total, status_value(&r, StatusLabel::Error));
    }
}

#[test]
fn histogram_count_is_requests_minus_failures() {
    let mut r = MetricsRegistry::with_default_buckets();
    for i in 0..30u64 {
        if i % 3 == 0 {
            r.record_attempt(RequestOutcome::Failure { kind: FailureKind::Timeout });
        } else {
            r.record_attempt(RequestOutcome::Success { status: 200, latency_ms: i });
        }
        assert_eq!(r.hist.count, r.requests_total - r.failed_total);
    }
}

#[test]
fn counters_never_decrease() {
    let mut r = MetricsRegistry::with_default_buckets();
    let mut last = (0u64, 0u64, 0u64, 0u128);
    for i in 0..50u64 {
        let o = if i % 4 == 1 {
            RequestOutcome::Failure { kind: FailureKind::Transport }
        } else {
            RequestOutcome::Success { status: (200 + (i % 3) * 100) as u16, latency_ms: i * 3 }
        };
        r.record_attempt(o);
        let now = (r.requests_total, r.failed_total, r.hist.count, r.hist.sum);
        assert!(now.0 >= last.0);
        assert!(now.1 >= last.1);
        assert!(now.2 >= last.2);
        assert!(now.3 >= last.3);
        last = now;
    }
}

#[test]
fn scenario_eighty_ok_twenty_timeouts() {
    // A mock target that answers 200 for 80% of calls and times out for the
    // rest, one worker, 100 iterations.
    let mut r = MetricsRegistry::with_default_buckets();
    for i in 0..100u64 {
        let outcome = if i % 5 == 4 {
            classify(None, true, 2000)
        } else {
            classify(Some(200), false, (i % 40) + 1)
        };
        r.record_attempt(outcome);
    }
    assert_eq!(r.requests_total, 100);
    assert_eq!(r.failed_total, 20);
    assert_eq!(status_value(&r, StatusLabel::Code(200)), 80);
    assert_eq!(status_value(&r, StatusLabel::Error), 20);
    assert_eq!(r.hist.count, 80);
}

#[test]
fn metrics_keep_growing_after_the_deadline() {
    // Already-spawned workers keep reporting after the run deadline; the
    // registry takes no notice of time.
    let mut r = MetricsRegistry::with_default_buckets();
    r.record_attempt(RequestOutcome::Success { status: 200, latency_ms: 1 });
    let before = r.requests_total;
    r.record_attempt(RequestOutcome::Success { status: 200, latency_ms: 1 });
    assert_eq!(r.requests_total, before + 1);
}

#[test]
fn snapshot_copies_and_detaches() {
    let mut r = MetricsRegistry::with_default_buckets();
    r.record_attempt(RequestOutcome::Success { status: 201, latency_ms: 9 });
    let s = r.snapshot();
    assert_eq!(s.requests_total, 1);
    assert_eq!(s.status_counts, r.status_counts);
    r.record_attempt(RequestOutcome::Failure { kind: FailureKind::Timeout });
    assert_eq!(s.requests_total, 1);
    assert_eq!(s.failed_total, 0);
    assert_eq!(r.requests_total, 2);
}

#[test]
fn bucket_boundaries_are_inclusive() {
    let mut r = MetricsRegistry::new(vec![10, 100]);
    r.record_attempt(RequestOutcome::Success { status: 200, latency_ms: 10 });
    assert_eq!(r.hist.buckets[0], 1);
    assert_eq!(r.hist.buckets[1], 1);
    r.record_attempt(RequestOutcome::Success { status: 200, latency_ms: 11 });
    assert_eq!(r.hist.buckets[0], 1);
    assert_eq!(r.hist.buckets[1], 2);
    r.record_attempt(RequestOutcome::Success { status: 200, latency_ms: 101 });
    // Above every bound: visible only in the sample count and sum.
    assert_eq!(r.hist.buckets[0], 1);
    assert_eq!(r.hist.buckets[1], 2);
    assert_eq!(r.hist.count, 3);
    assert_eq!(r.hist.sum, 122);
}

#[test]
fn attempts_can_be_counted_before_their_outcome() {
    let mut r = MetricsRegistry::with_default_buckets();
    r.increment_requests();
    r.increment_requests();
    // Two attempts in flight: the attempt total runs ahead of the labels.
    assert_eq!(r.requests_total, 2);
    assert_eq!(sum_of_status_values(&r), 0);
    r.finish_attempt(RequestOutcome::Success { status: 200, latency_ms: 8 });
    r.finish_attempt(RequestOutcome::Failure { kind: FailureKind::Transport });
    assert_eq!(r.requests_total, 2);
    assert_eq!(sum_of_status_values(&r), 2);
    assert_eq!(r.failed_total, 1);
    assert_eq!(r.hist.count, 1);
}

#[test]
fn every_outcome_counts_under_one_label() {
    let ok = RequestOutcome::Success { status: 301, latency_ms: 2 };
    assert_eq!(ok.label(), StatusLabel::Code(301));
    let failed = RequestOutcome::Failure { kind: FailureKind::Timeout };
    assert_eq!(failed.label(), StatusLabel::Error);
}
