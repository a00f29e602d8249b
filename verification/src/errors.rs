//! Error taxonomy of the telemetry library.

use vstd::prelude::*;
use vstd::string::StringExecFns;

verus! {

/// Errors surfaced by the telemetry library.
///
/// Lock-acquisition failures on a span are reported as the dedicated
/// read/write variants so that one poisoned handle never takes down
/// unrelated callers holding clones of the same span.
#[derive(Debug, Clone, PartialEq, Eq)]
pub enum GlideOTELError {
    /// Trace-exporter construction failed; carries the collaborator's message.
    OpenTelemetry(String),
    /// Metrics-exporter construction failed; carries the collaborator's message.
    MetricError(String),
    /// A span's read lock could not be acquired.
    SpanReadLockError,
    /// A span's write lock could not be acquired.
    SpanWriteLockError,
    /// Catch-all for internal invariant violations.
    Other(String),
}

impl GlideOTELError {
    /// The display form of this error.
    pub open spec fn spec_message(&self) -> Seq<char> {
        match self {
            GlideOTELError::OpenTelemetry(m) => "Glide OpenTelemetry trace error: "@ + m@,
            GlideOTELError::MetricError(m) => "Glide OpenTelemetry metric error: "@ + m@,
            GlideOTELError::SpanReadLockError => "Failed to acquire span read lock"@,
            GlideOTELError::SpanWriteLockError => "Failed to acquire span write lock"@,
            GlideOTELError::Other(m) => "Other error: "@ + m@,
        }
    }

    /// Renders this error for display.
    pub fn message(&self) -> (s: String)
        ensures
            s@ == self.spec_message(),
    {
        match self {
            GlideOTELError::OpenTelemetry(m) => {
                let mut s = String::from_str("Glide OpenTelemetry trace error: ");
                s.append(m.as_str());
                s
            },
            GlideOTELError::MetricError(m) => {
                let mut s = String::from_str("Glide OpenTelemetry metric error: ");
                s.append(m.as_str());
                s
            },
            GlideOTELError::SpanReadLockError => String::from_str(
                "Failed to acquire span read lock",
            ),
            GlideOTELError::SpanWriteLockError => String::from_str(
                "Failed to acquire span write lock",
            ),
            GlideOTELError::Other(m) => {
                let mut s = String::from_str("Other error: ");
                s.append(m.as_str());
                s
            },
        }
    }
}

/// Failure of endpoint parsing.
#[derive(Debug, Clone, PartialEq, Eq)]
pub enum ParseError {
    /// The endpoint string is not a syntactically valid URL; carries the
    /// original string.
    Invalid(String),
    /// The URL parsed but its scheme maps to no supported backend; carries
    /// the original string.
    UnsupportedScheme(String),
}

} // verus!
