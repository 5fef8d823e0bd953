//! Classification of a single request attempt: every attempt ends either as a
//! received HTTP response (a success for counting purposes, whatever the
//! status code) or as a transport-level failure, and the two feed the registry
//! through one tagged value.

use vstd::prelude::*;

verus! {

/// Why an attempt obtained no HTTP response. The registry folds both kinds
/// into the single `error` label; the distinction is kept only for callers
/// that want to log it.
#[derive(Clone, Copy, PartialEq, Eq, Structural, Debug)]
pub enum FailureKind {
    /// No response within the per-request bound.
    Timeout,
    /// Connection, DNS or TLS failure.
    Transport,
}

/// What one attempt produced.
#[derive(Clone, Copy, PartialEq, Eq, Structural, Debug)]
pub enum RequestOutcome {
    /// Any HTTP response was received, regardless of status code.
    Success { status: u16, latency_ms: u64 },
    /// No response was obtained.
    Failure { kind: FailureKind },
}

/// Key of the per-status counter family: a numeric HTTP status code, or the
/// one token that stands for every transport-level failure.
#[derive(Clone, Copy, PartialEq, Eq, Structural, Debug)]
pub enum StatusLabel {
    Code(u16),
    Error,
}

impl RequestOutcome {
    /// The label under which this outcome is counted.
    pub open spec fn label_spec(self) -> StatusLabel {
        match self {
            RequestOutcome::Success { status, .. } => StatusLabel::Code(status),
            RequestOutcome::Failure { .. } => StatusLabel::Error,
        }
    }

    /// The label under which this outcome is counted.
    pub fn label(&self) -> (l: StatusLabel)
        ensures
            l == self.label_spec(),
    {
        match self {
            RequestOutcome::Success { status, .. } => StatusLabel::Code(*status),
            RequestOutcome::Failure { .. } => StatusLabel::Error,
        }
    }
}

/// Turns what the transport handed back into the outcome the registry counts:
/// a status code when any response arrived, otherwise a failure of the given
/// kind.
pub fn classify(status: Option<u16>, timed_out: bool, latency_ms: u64) -> (o: RequestOutcome)
    ensures
        match status {
            Some(code) => o == (RequestOutcome::Success { status: code, latency_ms }),
            None => o == (RequestOutcome::Failure {
                kind: if timed_out { FailureKind::Timeout } else { FailureKind::Transport },
            }),
        },
{
    match status {
        Some(code) => RequestOutcome::Success { status: code, latency_ms },
        None => {
            if timed_out {
                RequestOutcome::Failure { kind: FailureKind::Timeout }
            } else {
                RequestOutcome::Failure { kind: FailureKind::Transport }
            }
        },
    }
}

} // verus!
