use glide_telemetry::span_records_to_json_lines;
use glide_telemetry::GlideOpenTelemetry;
use glide_telemetry::GlideOpenTelemetryConfigBuilder;
use glide_telemetry::GlideOpenTelemetrySignalsExporter;
use glide_telemetry::GlideSpanStatus;

const SPANS_JSON: &str = "/tmp/spans.json";

fn string_property_to_u64(json: &serde_json::Value, prop: &str) -> u64 {
    let s = json[prop].to_string().replace('"', "");
    s.parse::<u64>().unwrap()
}

async fn create_test_spans() {
    let span = GlideOpenTelemetry::new_span("Root_Span_1");
    span.add_event("Event1").unwrap();
    span.set_status(GlideSpanStatus::Okay).unwrap();

    let child1 = span.add_span("Network_Span").unwrap();

    // Simulate some work
    tokio::time::sleep(tokio::time::Duration::from_millis(100)).await;
    child1.end().unwrap();

    // Simulate that the parent span is still doing some work
    tokio::time::sleep(tokio::time::Duration::from_millis(100)).await;
    span.end().unwrap();

    let span = GlideOpenTelemetry::new_span("Root_Span_2");
    span.add_event("Event1").unwrap();
    span.add_event("Event2").unwrap();
    span.set_status(GlideSpanStatus::Okay).unwrap();
    drop(span); // writes the span

    tokio::time::sleep(tokio::time::Duration::from_secs(1)).await;
}

#[test]
fn test_span_json_exporter() {
    let runtime = tokio::runtime::Builder::new_multi_thread()
        .worker_threads(2)
        .enable_all()
        .build()
        .unwrap();
    runtime.block_on(async {
        let _ = tokio::fs::remove_file(SPANS_JSON).await;
        let config = GlideOpenTelemetryConfigBuilder::default()
            .with_flush_interval(100)
            .with_trace_exporter(GlideOpenTelemetrySignalsExporter::File(String::from("/tmp")))
            .build();
        let telemetry = GlideOpenTelemetry::initialise(config).unwrap();
        create_test_spans().await;

        // Collect what the file backend exported and write it out.
        let records = telemetry.exported_file_spans().unwrap();
        let lines_out = span_records_to_json_lines(&records);
        let mut content = String::new();
        for line in &lines_out {
            content.push_str(line);
            content.push('\n');
        }
        tokio::fs::write(SPANS_JSON, content).await.unwrap();

        // Read the file content
        let file_content = tokio::fs::read_to_string(SPANS_JSON).await.unwrap();
        let lines: Vec<&str> = file_content.split('\n').collect();
        assert_eq!(lines.len(), 4);

        let span_json: serde_json::Value = serde_json::from_str(lines[0]).unwrap();
        assert_eq!(span_json["name"], "Network_Span");
        let network_span_id = span_json["span_id"].to_string();
        let network_span_start_time = string_property_to_u64(&span_json, "start_time");
        let network_span_end_time = string_property_to_u64(&span_json, "end_time");

        // Because of the sleep above, the network span should be at least 100ms (units are microseconds)
        assert!(network_span_end_time - network_span_start_time >= 100_000);

        let span_json: serde_json::Value = serde_json::from_str(lines[1]).unwrap();
        assert_eq!(span_json["name"], "Root_Span_1");
        assert_eq!(span_json["links"].as_array().unwrap().len(), 1); // we expect 1 child
        let root_1_span_start_time = string_property_to_u64(&span_json, "start_time");
        let root_1_span_end_time = string_property_to_u64(&span_json, "end_time");

        // The network span started *after* its parent
        assert!(network_span_start_time >= root_1_span_start_time);

        // The parent span ends *after* the child span (by at least 100ms)
        assert!(root_1_span_end_time - network_span_end_time >= 100_000);

        let child_span_id = span_json["links"][0]["span_id"].to_string();
        assert_eq!(child_span_id, network_span_id);

        let span_json: serde_json::Value = serde_json::from_str(lines[2]).unwrap();
        assert_eq!(span_json["name"], "Root_Span_2");
    });
}
