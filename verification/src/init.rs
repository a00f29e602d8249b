//! Pipeline initialisation: builds the batched trace pipeline and the
//! periodic metrics pipeline for the configured backends, installs them as
//! process-wide providers, and creates the timeout-error counter.
//!
//! `initialise` should be called once per process, early; re-invocation is
//! not guarded and silently replaces the installed providers (last writer
//! wins). The caller keeps the returned handle: it carries the counter, and
//! for a file backend the sink from which finished spans are collected.

use vstd::prelude::*;
use vstd::string::StringExecFns;

use opentelemetry_otlp::WithExportConfig;

use crate::config::GlideOpenTelemetryConfig;
use crate::endpoint::GlideOpenTelemetrySignalsExporter;
use crate::errors::GlideOTELError;
use crate::record::SpanRecord;
use crate::span::GlideSpan;
use crate::TRACE_SCOPE;

verus! {

/// Name of the counter of timeout errors.
pub const TIMEOUT_ERROR_METRIC: &'static str = "glide.timeout_errors";

#[verifier::external_type_specification]
#[verifier::external_body]
#[verifier::reject_recursive_types(T)]
pub struct ExCounter<T>(opentelemetry::metrics::Counter<T>);

#[verifier::external_type_specification]
#[verifier::external_body]
pub struct ExInMemorySpanExporter(opentelemetry_sdk::testing::trace::InMemorySpanExporter);

#[verifier::external_type_specification]
#[verifier::external_body]
pub struct ExOtlpSpanExporter(opentelemetry_otlp::SpanExporter);

#[verifier::external_type_specification]
#[verifier::external_body]
pub struct ExOtlpMetricExporter(opentelemetry_otlp::MetricExporter);

#[verifier::external_type_specification]
#[verifier::external_body]
pub struct ExSpanData(opentelemetry_sdk::export::trace::SpanData);

#[verifier::external_type_specification]
#[verifier::external_body]
pub struct ExInMemoryMetricExporter(opentelemetry_sdk::testing::metrics::InMemoryMetricExporter);

/// Relies on `opentelemetry_otlp::SpanExporter::builder` with the HTTP
/// transport and binary protocol: builds an exporter bound to the endpoint,
/// or reports the builder's error as its message.
#[verifier::external_body]
fn build_http_span_exporter(endpoint: &str) -> Result<opentelemetry_otlp::SpanExporter, String> {
    opentelemetry_otlp::SpanExporter::builder().with_http().with_endpoint(endpoint).with_protocol(
        opentelemetry_otlp::Protocol::HttpBinary,
    ).build().map_err(|e| e.to_string())
}

/// Relies on `opentelemetry_otlp::SpanExporter::builder` with the tonic
/// transport and gRPC protocol: builds an exporter bound to the endpoint, or
/// reports the builder's error as its message.
#[verifier::external_body]
fn build_grpc_span_exporter(endpoint: &str) -> Result<opentelemetry_otlp::SpanExporter, String> {
    opentelemetry_otlp::SpanExporter::builder().with_tonic().with_endpoint(endpoint).with_protocol(
        opentelemetry_otlp::Protocol::Grpc,
    ).build().map_err(|e| e.to_string())
}

/// Relies on `InMemorySpanExporter::default`: a fresh, empty span sink.
#[verifier::external_body]
fn new_in_memory_span_exporter() -> opentelemetry_sdk::testing::trace::InMemorySpanExporter {
    opentelemetry_sdk::testing::trace::InMemorySpanExporter::default()
}

/// Relies on `BatchSpanProcessor`, `TracerProvider::builder`,
/// `global::set_text_map_propagator` and `global::set_tracer_provider`:
/// wraps the exporter in a batch processor flushing every `flush_interval_ms`
/// milliseconds, and installs the resulting provider process-wide.
#[verifier::external_body]
fn install_trace_pipeline_otlp(exporter: opentelemetry_otlp::SpanExporter, flush_interval_ms: u64) {
    let batch_config = opentelemetry_sdk::trace::BatchConfigBuilder::default().with_scheduled_delay(
        std::time::Duration::from_millis(flush_interval_ms),
    ).build();
    let processor = opentelemetry_sdk::trace::BatchSpanProcessor::builder(
        exporter,
        opentelemetry_sdk::runtime::Tokio,
    ).with_batch_config(batch_config).build();
    opentelemetry::global::set_text_map_propagator(
        opentelemetry_sdk::propagation::TraceContextPropagator::new(),
    );
    let provider = opentelemetry_sdk::trace::TracerProvider::builder().with_span_processor(
        processor,
    ).build();
    opentelemetry::global::set_tracer_provider(provider);
}

/// Relies on the same collaborators as `install_trace_pipeline_otlp`, with a
/// clone of the given in-memory sink as the exporter.
#[verifier::external_body]
fn install_trace_pipeline_in_memory(
    sink: &opentelemetry_sdk::testing::trace::InMemorySpanExporter,
    flush_interval_ms: u64,
) {
    let batch_config = opentelemetry_sdk::trace::BatchConfigBuilder::default().with_scheduled_delay(
        std::time::Duration::from_millis(flush_interval_ms),
    ).build();
    let processor = opentelemetry_sdk::trace::BatchSpanProcessor::builder(
        sink.clone(),
        opentelemetry_sdk::runtime::Tokio,
    ).with_batch_config(batch_config).build();
    opentelemetry::global::set_text_map_propagator(
        opentelemetry_sdk::propagation::TraceContextPropagator::new(),
    );
    let provider = opentelemetry_sdk::trace::TracerProvider::builder().with_span_processor(
        processor,
    ).build();
    opentelemetry::global::set_tracer_provider(provider);
}

/// Relies on `opentelemetry_otlp::MetricExporter::builder` with the HTTP
/// transport and binary protocol.
#[verifier::external_body]
fn build_http_metric_exporter(endpoint: &str) -> Result<
    opentelemetry_otlp::MetricExporter,
    String,
> {
    opentelemetry_otlp::MetricExporter::builder().with_http().with_endpoint(endpoint).with_protocol(
        opentelemetry_otlp::Protocol::HttpBinary,
    ).build().map_err(|e| e.to_string())
}

/// Relies on `opentelemetry_otlp::MetricExporter::builder` with the tonic
/// transport and gRPC protocol.
#[verifier::external_body]
fn build_grpc_metric_exporter(endpoint: &str) -> Result<
    opentelemetry_otlp::MetricExporter,
    String,
> {
    opentelemetry_otlp::MetricExporter::builder().with_tonic().with_endpoint(endpoint).with_protocol(
        opentelemetry_otlp::Protocol::Grpc,
    ).build().map_err(|e| e.to_string())
}

/// Relies on `PeriodicReader`, `SdkMeterProvider::builder` and
/// `global::set_meter_provider`: reads the exporter every
/// `flush_interval_ms` milliseconds and installs the provider process-wide.
#[verifier::external_body]
fn install_metrics_pipeline_otlp(
    exporter: opentelemetry_otlp::MetricExporter,
    flush_interval_ms: u64,
) {
    let reader = opentelemetry_sdk::metrics::PeriodicReader::builder(
        exporter,
        opentelemetry_sdk::runtime::Tokio,
    ).with_interval(std::time::Duration::from_millis(flush_interval_ms)).build();
    let provider = opentelemetry_sdk::metrics::SdkMeterProvider::builder().with_reader(
        reader,
    ).build();
    opentelemetry::global::set_meter_provider(provider);
}

/// Relies on `InMemoryMetricExporter::default`: a fresh, empty metric sink.
#[verifier::external_body]
fn new_in_memory_metric_exporter() -> opentelemetry_sdk::testing::metrics::InMemoryMetricExporter {
    opentelemetry_sdk::testing::metrics::InMemoryMetricExporter::default()
}

/// Relies on the same collaborators as `install_metrics_pipeline_otlp`, with
/// a clone of the given in-memory sink standing in for a collector.
#[verifier::external_body]
fn install_metrics_pipeline_in_memory(
    sink: &opentelemetry_sdk::testing::metrics::InMemoryMetricExporter,
    flush_interval_ms: u64,
) {
    let reader = opentelemetry_sdk::metrics::PeriodicReader::builder(
        sink.clone(),
        opentelemetry_sdk::runtime::Tokio,
    ).with_interval(std::time::Duration::from_millis(flush_interval_ms)).build();
    let provider = opentelemetry_sdk::metrics::SdkMeterProvider::builder().with_reader(
        reader,
    ).build();
    opentelemetry::global::set_meter_provider(provider);
}

/// Relies on `global::meter` and `Meter::u64_counter`: creates the counter
/// of timeout errors from the installed meter provider.
#[verifier::external_body]
fn create_timeout_counter() -> opentelemetry::metrics::Counter<u64> {
    opentelemetry::global::meter(TRACE_SCOPE).u64_counter(TIMEOUT_ERROR_METRIC).with_description(
        "Number of timeout errors encountered",
    ).build()
}

/// Relies on `Counter::add`: increments the counter by one, with no
/// attributes.
#[verifier::external_body]
fn counter_add_one(counter: &opentelemetry::metrics::Counter<u64>) {
    counter.add(1, &[]);
}

/// Relies on `global::shutdown_tracer_provider`: drops the installed tracer
/// provider, which flushes and shuts down its processors.
#[verifier::external_body]
fn shutdown_tracer_provider_raw() {
    opentelemetry::global::shutdown_tracer_provider();
}

/// Relies on `InMemorySpanExporter::get_finished_spans`: every finished
/// span the sink received, in export order. Fails only when the sink's own
/// lock fails.
#[verifier::external_body]
fn get_finished_spans_raw(
    sink: &opentelemetry_sdk::testing::trace::InMemorySpanExporter,
) -> Result<Vec<opentelemetry_sdk::export::trace::SpanData>, ()> {
    sink.get_finished_spans().map_err(|_| ())
}

/// Relies on the `name` field of `SpanData`.
#[verifier::external_body]
fn span_data_name(data: &opentelemetry_sdk::export::trace::SpanData) -> String {
    data.name.to_string()
}

/// Relies on `SpanContext::span_id` and its display form.
#[verifier::external_body]
fn span_data_span_id(data: &opentelemetry_sdk::export::trace::SpanData) -> String {
    data.span_context.span_id().to_string()
}

/// Relies on `SpanContext::trace_id` and its display form.
#[verifier::external_body]
fn span_data_trace_id(data: &opentelemetry_sdk::export::trace::SpanData) -> String {
    data.span_context.trace_id().to_string()
}

/// Relies on the `start_time` field of `SpanData` and
/// `SystemTime::duration_since`: microseconds since the epoch, zero when the
/// time lies before it.
#[verifier::external_body]
fn span_data_start_us(data: &opentelemetry_sdk::export::trace::SpanData) -> u64 {
    data.start_time.duration_since(std::time::UNIX_EPOCH).map(|d| d.as_micros() as u64).unwrap_or(0)
}

/// Relies on the `end_time` field of `SpanData` and
/// `SystemTime::duration_since`: microseconds since the epoch, zero when the
/// time lies before it.
#[verifier::external_body]
fn span_data_end_us(data: &opentelemetry_sdk::export::trace::SpanData) -> u64 {
    data.end_time.duration_since(std::time::UNIX_EPOCH).map(|d| d.as_micros() as u64).unwrap_or(0)
}

/// Relies on the `status` field of `SpanData`: the variant's name.
#[verifier::external_body]
fn span_data_status(data: &opentelemetry_sdk::export::trace::SpanData) -> String {
    match &data.status {
        opentelemetry::trace::Status::Unset => "Unset".to_string(),
        opentelemetry::trace::Status::Ok => "Ok".to_string(),
        opentelemetry::trace::Status::Error { .. } => "Error".to_string(),
    }
}

/// Relies on the `status` field of `SpanData`: the description carried by an
/// `Error` status, empty otherwise.
#[verifier::external_body]
fn span_data_status_description(data: &opentelemetry_sdk::export::trace::SpanData) -> String {
    match &data.status {
        opentelemetry::trace::Status::Error { description } => description.to_string(),
        _ => String::new(),
    }
}

/// Relies on the `links` field of `SpanData`: the linked spans' identities,
/// in link order.
#[verifier::external_body]
fn span_data_link_ids(data: &opentelemetry_sdk::export::trace::SpanData) -> Vec<String> {
    data.links.links.iter().map(|l| l.span_context.span_id().to_string()).collect()
}

/// Relies on `InMemoryMetricExporter::get_finished_metrics` and
/// `Aggregation::as_any`: one entry per exported metric, in export order,
/// as the metric's name and the values of its data points. A metric whose
/// aggregation is not a `u64` sum is reported with no points. Fails only
/// when the sink's own lock fails.
#[verifier::external_body]
fn finished_counter_readings(
    sink: &opentelemetry_sdk::testing::metrics::InMemoryMetricExporter,
) -> Result<Vec<(String, Vec<u64>)>, ()> {
    let batches = sink.get_finished_metrics().map_err(|_| ())?;
    Ok(batches.iter().flat_map(|rm| rm.scope_metrics.iter()).flat_map(|sm| sm.metrics.iter()).map(
        |m| (
            m.name.to_string(),
            m.data.as_any().downcast_ref::<opentelemetry_sdk::metrics::data::Sum<u64>>().map(
                |sum| sum.data_points.iter().map(|p| p.value).collect(),
            ).unwrap_or_default(),
        ),
    ).collect())
}

/// Reduces one exported span to plain values.
fn span_data_to_record(data: &opentelemetry_sdk::export::trace::SpanData) -> SpanRecord {
    SpanRecord {
        name: span_data_name(data),
        span_id: span_data_span_id(data),
        trace_id: span_data_trace_id(data),
        start_time_us: span_data_start_us(data),
        end_time_us: span_data_end_us(data),
        status: span_data_status(data),
        status_description: span_data_status_description(data),
        link_span_ids: span_data_link_ids(data),
    }
}

/// The process's telemetry handle: created uninitialised, populated by
/// `initialise`. It carries the timeout-error counter and, for file-based
/// backends, the sinks from which finished spans and exported metric
/// readings are collected.
pub struct GlideOpenTelemetry {
    timeout_counter: Option<opentelemetry::metrics::Counter<u64>>,
    span_sink: Option<opentelemetry_sdk::testing::trace::InMemorySpanExporter>,
    metrics_sink: Option<opentelemetry_sdk::testing::metrics::InMemoryMetricExporter>,
}

impl GlideOpenTelemetry {
    /// Whether `initialise` has populated the timeout-error counter.
    pub closed spec fn metrics_initialised(&self) -> bool {
        self.timeout_counter is Some
    }

    /// Whether finished spans can be collected from this handle, which holds
    /// exactly when the trace backend is file-based.
    pub closed spec fn has_span_sink(&self) -> bool {
        self.span_sink is Some
    }

    /// Whether exported metrics can be read back from this handle, which
    /// holds exactly when the metrics backend is file-based.
    pub closed spec fn has_metrics_sink(&self) -> bool {
        self.metrics_sink is Some
    }

    /// The telemetry handle as it stands before `initialise`: no counter, no
    /// span sink; `record_timeout_error` fails on it.
    pub fn uninitialised() -> (t: Self)
        ensures
            !t.metrics_initialised(),
            !t.has_span_sink(),
            !t.has_metrics_sink(),
    {
        GlideOpenTelemetry { timeout_counter: None, span_sink: None, metrics_sink: None }
    }

    /// Builds the batch trace pipeline for the selected backend and installs
    /// it process-wide, together with a context propagator. For a file
    /// backend the returned sink collects the finished spans; construction
    /// then cannot fail. A collector backend's construction failure is
    /// reported as `OpenTelemetry`.
    fn initialise_trace_exporter(
        flush_interval_ms: u64,
        trace_exporter: &GlideOpenTelemetrySignalsExporter,
    ) -> (r: Result<Option<opentelemetry_sdk::testing::trace::InMemorySpanExporter>, GlideOTELError>)
        ensures
            trace_exporter is File ==> r is Ok,
            r matches Ok(s) ==> (s is Some <==> trace_exporter is File),
            r matches Err(e) ==> e is OpenTelemetry,
    {
        match trace_exporter {
            GlideOpenTelemetrySignalsExporter::File(_dir) => {
                let sink = new_in_memory_span_exporter();
                install_trace_pipeline_in_memory(&sink, flush_interval_ms);
                Ok(Some(sink))
            },
            GlideOpenTelemetrySignalsExporter::Http(url) => {
                match build_http_span_exporter(url.as_str()) {
                    Ok(exporter) => {
                        install_trace_pipeline_otlp(exporter, flush_interval_ms);
                        Ok(None)
                    },
                    Err(msg) => Err(GlideOTELError::OpenTelemetry(msg)),
                }
            },
            GlideOpenTelemetrySignalsExporter::Grpc(url) => {
                match build_grpc_span_exporter(url.as_str()) {
                    Ok(exporter) => {
                        install_trace_pipeline_otlp(exporter, flush_interval_ms);
                        Ok(None)
                    },
                    Err(msg) => Err(GlideOTELError::OpenTelemetry(msg)),
                }
            },
        }
    }

    /// Builds the periodic metrics pipeline for the selected backend and
    /// installs it process-wide. A file backend cannot fail; a collector
    /// backend's construction failure is reported as `MetricError`.
    fn initialise_metrics_exporter(
        flush_interval_ms: u64,
        metrics_exporter: &GlideOpenTelemetrySignalsExporter,
    ) -> (r: Result<
        Option<opentelemetry_sdk::testing::metrics::InMemoryMetricExporter>,
        GlideOTELError,
    >)
        ensures
            metrics_exporter is File ==> r is Ok,
            r matches Ok(s) ==> (s is Some <==> metrics_exporter is File),
            r matches Err(e) ==> e is MetricError,
    {
        match metrics_exporter {
            GlideOpenTelemetrySignalsExporter::File(_dir) => {
                let sink = new_in_memory_metric_exporter();
                install_metrics_pipeline_in_memory(&sink, flush_interval_ms);
                Ok(Some(sink))
            },
            GlideOpenTelemetrySignalsExporter::Http(url) => {
                match build_http_metric_exporter(url.as_str()) {
                    Ok(exporter) => {
                        install_metrics_pipeline_otlp(exporter, flush_interval_ms);
                        Ok(None)
                    },
                    Err(msg) => Err(GlideOTELError::MetricError(msg)),
                }
            },
            GlideOpenTelemetrySignalsExporter::Grpc(url) => {
                match build_grpc_metric_exporter(url.as_str()) {
                    Ok(exporter) => {
                        install_metrics_pipeline_otlp(exporter, flush_interval_ms);
                        Ok(None)
                    },
                    Err(msg) => Err(GlideOTELError::MetricError(msg)),
                }
            },
        }
    }

    /// Initialises telemetry for this process: installs the batch trace
    /// pipeline, then the metrics pipeline, then creates the timeout-error
    /// counter — fail-fast, without rollback of state already installed.
    ///
    /// With file backends for both signals, initialisation cannot fail. A
    /// trace-pipeline failure is reported as `OpenTelemetry`, a
    /// metrics-pipeline failure as `MetricError`.
    ///
    /// This method should be called once for the given process.
    pub fn initialise(config: GlideOpenTelemetryConfig) -> (r: Result<
        GlideOpenTelemetry,
        GlideOTELError,
    >)
        ensures
            r matches Ok(t) ==> t.metrics_initialised(),
            r matches Ok(t) ==> (t.has_span_sink() <==> config.trace_exporter is File),
            r matches Ok(t) ==> (t.has_metrics_sink() <==> config.metrics_exporter is File),
            config.trace_exporter is File && config.metrics_exporter is File ==> r is Ok,
            r matches Err(e) ==> (e is OpenTelemetry || e is MetricError),
            match r {
                Ok(_) => true,
                Err(e) => config.trace_exporter is File ==> e is MetricError,
            },
    {
        let sink = match Self::initialise_trace_exporter(
            config.flush_interval_ms,
            &config.trace_exporter,
        ) {
            Ok(sink) => sink,
            Err(e) => {
                return Err(e);
            },
        };
        let metrics_sink = match Self::initialise_metrics_exporter(
            config.flush_interval_ms,
            &config.metrics_exporter,
        ) {
            Ok(metrics_sink) => metrics_sink,
            Err(e) => {
                return Err(e);
            },
        };
        let counter = create_timeout_counter();
        Ok(GlideOpenTelemetry { timeout_counter: Some(counter), span_sink: sink, metrics_sink })
    }

    /// Records one timeout error: increments the counter by one, with no
    /// attributes. Fails exactly when `initialise` has not populated the
    /// counter of this handle.
    pub fn record_timeout_error(&self) -> (r: Result<(), GlideOTELError>)
        ensures
            r is Ok <==> self.metrics_initialised(),
            match r {
                Ok(_) => true,
                Err(e) => e matches GlideOTELError::Other(m) && m@
                    == "Timeout counter not initialized"@,
            },
    {
        match &self.timeout_counter {
            Some(counter) => {
                counter_add_one(counter);
                Ok(())
            },
            None => Err(
                GlideOTELError::Other(String::from_str("Timeout counter not initialized")),
            ),
        }
    }

    /// The configured delay between two consecutive exports, in
    /// milliseconds.
    pub fn get_span_interval(config: GlideOpenTelemetryConfig) -> (r: u64)
        ensures
            r == config.flush_interval_ms,
    {
        config.flush_interval_ms
    }

    /// Creates a new root span.
    pub fn new_span(name: &str) -> GlideSpan {
        GlideSpan::new(name)
    }

    /// Triggers a shutdown of the installed trace pipeline, flushing all
    /// remaining traces; best-effort, reports no per-call errors.
    pub fn shutdown() {
        shutdown_tracer_provider_raw();
    }

    /// The spans exported so far to this handle's file-backend sink, in
    /// export order. Fails when the handle has no such sink — the trace
    /// backend was a collector — or when the sink's lock fails.
    pub fn exported_file_spans(&self) -> (r: Result<Vec<SpanRecord>, GlideOTELError>)
        ensures
            r is Ok ==> self.has_span_sink(),
            !self.has_span_sink() ==> (match r {
                Ok(_) => false,
                Err(e) => e matches GlideOTELError::Other(m) && m@
                    == "File trace exporter not configured"@,
            }),
    {
        match &self.span_sink {
            Some(sink) => match get_finished_spans_raw(sink) {
                Ok(spans) => {
                    let mut records: Vec<SpanRecord> = Vec::new();
                    let n = spans.len();
                    let mut i: usize = 0;
                    while i < n
                        invariant
                            i <= n,
                            n == spans.len(),
                        decreases n - i,
                    {
                        records.push(span_data_to_record(&spans[i]));
                        i = i + 1;
                    }
                    Ok(records)
                },
                Err(_) => Err(
                    GlideOTELError::Other(String::from_str("Failed to read finished spans")),
                ),
            },
            None => Err(
                GlideOTELError::Other(String::from_str("File trace exporter not configured")),
            ),
        }
    }

    /// The metrics exported so far to this handle's file-backend sink, one
    /// entry per exported metric in export order: the metric's name and the
    /// values of its data points. With cumulative readings, the latest entry
    /// of a counter carries its total. Fails when the handle has no such
    /// sink — the metrics backend was a collector — or when the sink's lock
    /// fails.
    pub fn exported_counter_readings(&self) -> (r: Result<Vec<(String, Vec<u64>)>, GlideOTELError>)
        ensures
            r is Ok ==> self.has_metrics_sink(),
            !self.has_metrics_sink() ==> (match r {
                Ok(_) => false,
                Err(e) => e matches GlideOTELError::Other(m) && m@
                    == "File metrics exporter not configured"@,
            }),
    {
        match &self.metrics_sink {
            Some(sink) => match finished_counter_readings(sink) {
                Ok(readings) => Ok(readings),
                Err(_) => Err(
                    GlideOTELError::Other(String::from_str("Failed to read finished metrics")),
                ),
            },
            None => Err(
                GlideOTELError::Other(String::from_str("File metrics exporter not configured")),
            ),
        }
    }
}

/// Position of the latest reading of the named metric, if it was exported
/// at all: the entry at the returned index carries the name, and no later
/// entry does.
pub fn latest_counter_reading_index(readings: &Vec<(String, Vec<u64>)>, name: &str) -> (r: Option<
    usize,
>)
    ensures
        match r {
            Some(i) => i < readings@.len() && readings@[i as int].0@ == name@ && (forall|j: int|
                i < j < readings@.len() ==> readings@[j].0@ != name@),
            None => forall|j: int| 0 <= j < readings@.len() ==> readings@[j].0@ != name@,
        },
{
    let mut i = readings.len();
    while i > 0
        invariant
            i <= readings@.len(),
            forall|j: int| i <= j < readings@.len() ==> readings@[j].0@ != name@,
        decreases i,
    {
        let k = i - 1;
        if crate::strutil::str_eq(readings[k].0.as_str(), name) {
            return Some(k);
        }
        i = k;
    }
    None
}

} // verus!
