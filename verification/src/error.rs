//! The ways in which serving a metric can fail.

use vstd::prelude::*;

verus! {

/// Why a request, or the start of the listener, failed.
#[derive(Clone, Copy, Debug, PartialEq, Eq, Structural, Hash)]
pub enum MetricsError {
    /// The operating system's counters could not be read.
    SamplerUnavailable,
    /// The requested optional part of the metrics is switched off or absent.
    MetricUnavailable,
    /// The access gate turned the request away.
    AuthorizationDenied,
    /// The key or the certificate chain for TLS is missing or unreadable.
    ListenerStartupFailure,
}

impl MetricsError {
    /// Whether the failure ends with the request that met it. Only a failure
    /// to start the listener may end the process.
    pub open spec fn per_request(self) -> bool {
        !(self is ListenerStartupFailure)
    }

    /// Whether the failure ends with the request that met it.
    pub fn is_per_request(&self) -> (r: bool)
        ensures
            r == self.per_request(),
    {
        match self {
            MetricsError::ListenerStartupFailure => false,
            _ => true,
        }
    }

    /// The HTTP status that answers a request which met the failure.
    pub open spec fn status(self) -> Option<u16> {
        match self {
            MetricsError::SamplerUnavailable => Some(500u16),
            MetricsError::MetricUnavailable => Some(503u16),
            MetricsError::AuthorizationDenied => Some(403u16),
            MetricsError::ListenerStartupFailure => None,
        }
    }

    /// The HTTP status that answers a request which met the failure: 403 for
    /// a denied request, 503 for a part that is not collected, 500 for
    /// counters that could not be read. A failure to start the listener
    /// meets no request and has none.
    pub fn status_code(&self) -> (r: Option<u16>)
        ensures
            r == self.status(),
            r is Some <==> self.per_request(),
    {
        match self {
            MetricsError::SamplerUnavailable => Some(500),
            MetricsError::MetricUnavailable => Some(503),
            MetricsError::AuthorizationDenied => Some(403),
            MetricsError::ListenerStartupFailure => None,
        }
    }
}

} // verus!
