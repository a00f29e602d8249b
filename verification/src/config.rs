//! Configuration of the telemetry pipelines, built through a fluent builder.

use vstd::prelude::*;
use vstd::string::StringExecFns;

use crate::endpoint::GlideOpenTelemetrySignalsExporter;
use crate::DEFAULT_FLUSH_SPAN_INTERVAL_MS;

verus! {

/// Telemetry configuration. Use `GlideOpenTelemetryConfigBuilder` to
/// construct it, then hand it to `GlideOpenTelemetry::initialise`.
#[derive(Clone, Debug)]
pub struct GlideOpenTelemetryConfig {
    /// Delay in milliseconds between two consecutive exports.
    pub flush_interval_ms: u64,
    /// Determines the protocol between the collector and the client for traces.
    pub trace_exporter: GlideOpenTelemetrySignalsExporter,
    /// Determines the protocol between the collector and the client for metrics.
    pub metrics_exporter: GlideOpenTelemetrySignalsExporter,
}

/// Fluent builder for `GlideOpenTelemetryConfig`.
#[derive(Clone, Debug)]
pub struct GlideOpenTelemetryConfigBuilder {
    pub flush_interval_ms: u64,
    pub trace_exporter: GlideOpenTelemetrySignalsExporter,
    pub metrics_exporter: GlideOpenTelemetrySignalsExporter,
}

impl Default for GlideOpenTelemetryConfigBuilder {
    /// The defaults: a flush interval of 5000 milliseconds, and both signals
    /// written to files under the temporary directory.
    fn default() -> (b: Self)
        ensures
            b.flush_interval_ms == DEFAULT_FLUSH_SPAN_INTERVAL_MS,
            b.trace_exporter matches GlideOpenTelemetrySignalsExporter::File(d) && d@ == "/tmp"@,
            b.metrics_exporter matches GlideOpenTelemetrySignalsExporter::File(d) && d@ == "/tmp"@,
    {
        GlideOpenTelemetryConfigBuilder {
            flush_interval_ms: DEFAULT_FLUSH_SPAN_INTERVAL_MS,
            trace_exporter: GlideOpenTelemetrySignalsExporter::File(String::from_str("/tmp")),
            metrics_exporter: GlideOpenTelemetrySignalsExporter::File(String::from_str("/tmp")),
        }
    }
}

impl GlideOpenTelemetryConfigBuilder {
    /// Sets the delay between two consecutive exports, in milliseconds.
    pub fn with_flush_interval(self, interval_ms: u64) -> (b: Self)
        ensures
            b.flush_interval_ms == interval_ms,
            b.trace_exporter == self.trace_exporter,
            b.metrics_exporter == self.metrics_exporter,
    {
        GlideOpenTelemetryConfigBuilder { flush_interval_ms: interval_ms, ..self }
    }

    /// Selects the backend that receives traces.
    pub fn with_trace_exporter(self, protocol: GlideOpenTelemetrySignalsExporter) -> (b: Self)
        ensures
            b.flush_interval_ms == self.flush_interval_ms,
            b.trace_exporter == protocol,
            b.metrics_exporter == self.metrics_exporter,
    {
        GlideOpenTelemetryConfigBuilder { trace_exporter: protocol, ..self }
    }

    /// Selects the backend that receives metrics.
    pub fn with_metrics_exporter(self, protocol: GlideOpenTelemetrySignalsExporter) -> (b: Self)
        ensures
            b.flush_interval_ms == self.flush_interval_ms,
            b.trace_exporter == self.trace_exporter,
            b.metrics_exporter == protocol,
    {
        GlideOpenTelemetryConfigBuilder { metrics_exporter: protocol, ..self }
    }

    /// Produces the immutable configuration. No validation happens here:
    /// invalid selectors fail only during exporter construction.
    pub fn build(self) -> (c: GlideOpenTelemetryConfig)
        ensures
            c.flush_interval_ms == self.flush_interval_ms,
            c.trace_exporter == self.trace_exporter,
            c.metrics_exporter == self.metrics_exporter,
    {
        GlideOpenTelemetryConfig {
            flush_interval_ms: self.flush_interval_ms,
            trace_exporter: self.trace_exporter,
            metrics_exporter: self.metrics_exporter,
        }
    }
}

} // verus!
