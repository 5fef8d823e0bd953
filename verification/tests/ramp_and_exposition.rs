use loadgen::config::Config;
use loadgen::exposition::{content_type, render_exposition, u128_to_dec, u64_to_dec};
use loadgen::outcome::{FailureKind, RequestOutcome};
use loadgen::ramp::{RampScheduler, RampState};
use loadgen::registry::MetricsRegistry;

#[test]
fn standard_config_values() {
    let cfg = Config::standard(String::from("http://127.0.0.1:8080/v1/search"));
    assert_eq!(cfg.request_timeout_ms, 2000);
    assert_eq!(cfg.base_concurrency, 10);
    assert_eq!(cfg.concurrency_increment, 10);
    assert_eq!(cfg.step_interval_sec, 60);
    assert_eq!(cfg.total_run_duration_sec, 300);
    assert_eq!(cfg.exporter_port, 9898);
    assert_eq!(cfg.exporter_path, "/metrics");
}

#[test]
fn ramp_schedule_is_deterministic() {
    // base 10, increment 10, interval 60 s: a batch of 10 at t=0, 20 at t=60,
    // 30 at t=120 — 60 spawned in all.
    let cfg = Config::standard(String::new());
    let mut s = RampScheduler::new(&cfg);
    assert_eq!(s.tick(0), Some(10));
    assert_eq!(s.total_spawned, 10);
    assert_eq!(s.tick(60), Some(20));
    assert_eq!(s.total_spawned, 30);
    assert_eq!(s.tick(120), Some(30));
    assert_eq!(s.total_spawned, 60);
    assert_eq!(s.batches_spawned, 3);
}

#[test]
fn deadline_stops_new_batches_for_good() {
    let cfg = Config::standard(String::new());
    let mut s = RampScheduler::new(&cfg);
    assert_eq!(s.tick(0), Some(10));
    assert_eq!(s.tick(300), None);
    assert!(s.stopped);
    // Even an earlier-looking clock spawns nothing once stopped.
    assert_eq!(s.tick(10), None);
    assert_eq!(s.total_spawned, 10);
    assert_eq!(s.batches_spawned, 1);
}

#[test]
fn deadline_exactly_at_the_window_end() {
    let cfg = Config::standard(String::new());
    let mut s = RampScheduler::new(&cfg);
    assert_eq!(s.tick(299), Some(10));
    assert_eq!(s.tick(300), None);
}

#[test]
fn decimal_rendering() {
    assert_eq!(u64_to_dec(0), "0");
    assert_eq!(u64_to_dec(7), "7");
    assert_eq!(u64_to_dec(10), "10");
    assert_eq!(u64_to_dec(105), "105");
    assert_eq!(u64_to_dec(u64::MAX), "18446744073709551615");
    assert_eq!(u128_to_dec(340282366920938463463374607431768211455), "340282366920938463463374607431768211455");
}

#[test]
fn exposition_of_an_empty_registry() {
    let r = MetricsRegistry::new(vec![10, 100]);
    let out = render_exposition(&r);
    let expected = "# HELP requests_total Total number of requests made\n\
        # TYPE requests_total counter\n\
        requests_total 0\n\
        # HELP failed_requests_total Total number of failed requests\n\
        # TYPE failed_requests_total counter\n\
        failed_requests_total 0\n\
        # HELP status_code_counter Count of HTTP status codes\n\
        # TYPE status_code_counter counter\n\
        # HELP response_time_milliseconds Summary of response times in milliseconds\n\
        # TYPE response_time_milliseconds histogram\n\
        response_time_milliseconds_bucket{le=\"10\"} 0\n\
        response_time_milliseconds_bucket{le=\"100\"} 0\n\
        response_time_milliseconds_bucket{le=\"+Inf\"} 0\n\
        response_time_milliseconds_sum 0\n\
        response_time_milliseconds_count 0\n";
    assert_eq!(out, expected);
}

#[test]
fn exposition_matches_the_registry_exactly() {
    let mut r = MetricsRegistry::new(vec![10, 100]);
    r.record_attempt(RequestOutcome::Success { status: 200, latency_ms: 5 });
    r.record_attempt(RequestOutcome::Failure { kind: FailureKind::Timeout });
    r.record_attempt(RequestOutcome::Success { status: 404, latency_ms: 50 });
    let out = render_exposition(&r);
    let expected = "# HELP requests_total Total number of requests made\n\
        # TYPE requests_total counter\n\
        requests_total 3\n\
        # HELP failed_requests_total Total number of failed requests\n\
        # TYPE failed_requests_total counter\n\
        failed_requests_total 1\n\
        # HELP status_code_counter Count of HTTP status codes\n\
        # TYPE status_code_counter counter\n\
        status_code_counter{status=\"200\"} 1\n\
        status_code_counter{status=\"error\"} 1\n\
        status_code_counter{status=\"404\"} 1\n\
        # HELP response_time_milliseconds Summary of response times in milliseconds\n\
        # TYPE response_time_milliseconds histogram\n\
        response_time_milliseconds_bucket{le=\"10\"} 1\n\
        response_time_milliseconds_bucket{le=\"100\"} 2\n\
        response_time_milliseconds_bucket{le=\"+Inf\"} 2\n\
        response_time_milliseconds_sum 55\n\
        response_time_milliseconds_count 2\n";
    assert_eq!(out, expected);
}

#[test]
fn scraped_values_parse_back_to_the_registry_state() {
    let mut r = MetricsRegistry::with_default_buckets();
    for i in 0..12u64 {
        if i % 4 == 0 {
            r.record_attempt(RequestOutcome::Failure { kind: FailureKind::Transport });
        } else {
            r.record_attempt(RequestOutcome::Success { status: 200, latency_ms: i });
        }
    }
    let out = render_exposition(&r.snapshot());
    let mut requests: Option<u64> = None;
    let mut failed: Option<u64> = None;
    let mut errors: Option<u64> = None;
    for line in out.lines() {
        if let Some(v) = line.strip_prefix("requests_total ") {
            requests = Some(v.parse().unwrap());
        }
        if let Some(v) = line.strip_prefix("failed_requests_total ") {
            failed = Some(v.parse().unwrap());
        }
        if let Some(v) = line.strip_prefix("status_code_counter{status=\"error\"} ") {
            errors = Some(v.parse().unwrap());
        }
    }
    assert_eq!(requests, Some(r.requests_total));
    assert_eq!(failed, Some(r.failed_total));
    assert_eq!(errors, Some(r.failed_total));
}

#[test]
fn exposition_content_type() {
    assert_eq!(content_type(), "text/plain; version=0.0.4");
}

#[test]
fn scheduler_walks_idle_ramping_stopped() {
    let cfg = Config::standard(String::new());
    let mut s = RampScheduler::new(&cfg);
    assert_eq!(s.state(), RampState::Idle);
    s.tick(0);
    assert_eq!(s.state(), RampState::Ramping);
    s.tick(250);
    assert_eq!(s.state(), RampState::Ramping);
    s.tick(301);
    assert_eq!(s.state(), RampState::Stopped);
    s.tick(0);
    assert_eq!(s.state(), RampState::Stopped);
}
