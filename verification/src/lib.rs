//! A continuous HTTP load generator core: a concurrency ramp scheduler, a
//! request-outcome classifier, a metrics registry with conservation
//! invariants, and a text exposition serializer for pull-based scraping.
//!
//! The library holds the decision and aggregation logic; network I/O and the
//! async runtime live outside it and hand plain values in.

pub mod config;
pub mod exposition;
pub mod histogram;
pub mod outcome;
pub mod ramp;
pub mod registry;
