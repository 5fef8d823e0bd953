//! Run configuration: every knob of the generator, gathered in one structure
//! that is built once at startup and passed down, never read from ambient
//! globals.

use vstd::prelude::*;

verus! {

/// The options a run recognizes: the request target and its per-call timeout,
/// the ramp shape (initial batch size, per-step growth, step interval), the
/// overall test window, and where the exporter listens.
pub struct Config {
    /// Destination of every outbound request.
    pub target_url: String,
    /// Bound on a single outbound call, in milliseconds.
    pub request_timeout_ms: u64,
    /// Size of the first worker batch.
    pub base_concurrency: u64,
    /// How many workers each ramp step adds to the batch size.
    pub concurrency_increment: u64,
    /// Seconds between ramp increases.
    pub step_interval_sec: u64,
    /// The overall test window, in seconds.
    pub total_run_duration_sec: u64,
    /// TCP port the metrics exporter listens on.
    pub exporter_port: u16,
    /// Route that serves the exposition payload.
    pub exporter_path: String,
}

impl Config {
    /// A configuration is usable when its time steps are positive.
    pub open spec fn wf(self) -> bool {
        &&& self.step_interval_sec > 0
        &&& self.total_run_duration_sec > 0
    }

    /// The standard run: 2 s request timeout, a ramp of 10 workers growing by
    /// 10 every 60 s, a 300 s window, and an exporter on port 9898 at
    /// `/metrics`.
    pub fn standard(target_url: String) -> (c: Config)
        ensures
            c.wf(),
            c.target_url@ == target_url@,
            c.request_timeout_ms == 2000,
            c.base_concurrency == 10,
            c.concurrency_increment == 10,
            c.step_interval_sec == 60,
            c.total_run_duration_sec == 300,
            c.exporter_port == 9898,
            c.exporter_path@ == "/metrics"@,
    {
        Config {
            target_url,
            request_timeout_ms: 2000,
            base_concurrency: 10,
            concurrency_increment: 10,
            step_interval_sec: 60,
            total_run_duration_sec: 300,
            exporter_port: 9898,
            exporter_path: "/metrics".to_owned(),
        }
    }
}

} // verus!
