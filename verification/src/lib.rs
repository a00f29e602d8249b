//! Tracing and metrics instrumentation for a client library: hierarchical
//! trace spans with cross-context child linking, counter metrics, and
//! batched export to a file-backed, OTLP/HTTP or OTLP/gRPC collector.

use vstd::prelude::*;

pub mod config;
pub mod endpoint;
pub mod errors;
pub mod init;
pub mod record;
pub mod span;
pub mod strutil;

pub use config::GlideOpenTelemetryConfig;
pub use config::GlideOpenTelemetryConfigBuilder;
pub use endpoint::parse_endpoint;
pub use endpoint::GlideOpenTelemetrySignalsExporter;
pub use errors::GlideOTELError;
pub use errors::ParseError;
pub use init::latest_counter_reading_index;
pub use init::GlideOpenTelemetry;
pub use init::TIMEOUT_ERROR_METRIC;
pub use record::span_records_to_json_lines;
pub use record::SpanRecord;
pub use span::GlideSpan;
pub use span::GlideSpanStatus;

verus! {

/// Default interval in milliseconds for flushing telemetry data to the collector.
pub const DEFAULT_FLUSH_SPAN_INTERVAL_MS: u64 = 5000;

/// Instrumentation scope under which spans and meters are created.
pub const TRACE_SCOPE: &'static str = "valkey_glide";

} // verus!
