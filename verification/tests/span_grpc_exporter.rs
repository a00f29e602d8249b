use glide_telemetry::GlideOpenTelemetry;
use glide_telemetry::GlideOpenTelemetryConfigBuilder;
use glide_telemetry::GlideOpenTelemetrySignalsExporter;
use glide_telemetry::GlideSpanStatus;

async fn create_test_spans() {
    let span = GlideOpenTelemetry::new_span("Root_Span_1");
    span.add_event("Event1").unwrap();
    span.set_status(GlideSpanStatus::Okay).unwrap();

    let child1 = span.add_span("Network_Span").unwrap();

    // Simulate some work
    tokio::time::sleep(tokio::time::Duration::from_millis(100)).await;
    child1.end().unwrap();

    // Simulate that the parent span is still doing some work
    tokio::time::sleep(tokio::time::Duration::from_millis(100)).await;
    span.end().unwrap();

    let span = GlideOpenTelemetry::new_span("Root_Span_2");
    span.add_event("Event1").unwrap();
    span.add_event("Event2").unwrap();
    span.set_status(GlideSpanStatus::Okay).unwrap();
    drop(span); // writes the span

    tokio::time::sleep(tokio::time::Duration::from_secs(1)).await;
}

#[test]
fn test_span_grpc_exporter() {
    let runtime = tokio::runtime::Builder::new_multi_thread()
        .worker_threads(2)
        .enable_all()
        .build()
        .unwrap();
    runtime.block_on(async {
        let config = GlideOpenTelemetryConfigBuilder::default()
            .with_flush_interval(100)
            .with_trace_exporter(GlideOpenTelemetrySignalsExporter::Grpc(
                "grpc://test.com".to_string(),
            ))
            .build();
        let _ = GlideOpenTelemetry::initialise(config);
        create_test_spans().await;
    });
}
