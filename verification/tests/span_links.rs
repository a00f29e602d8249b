use glide_telemetry::GlideOpenTelemetry;
use glide_telemetry::GlideOpenTelemetryConfigBuilder;
use glide_telemetry::GlideOpenTelemetrySignalsExporter;
use glide_telemetry::GlideSpanStatus;

#[test]
fn one_link_per_child_in_creation_order() {
    let runtime = tokio::runtime::Builder::new_multi_thread()
        .worker_threads(2)
        .enable_all()
        .build()
        .unwrap();
    runtime.block_on(async {
        let config = GlideOpenTelemetryConfigBuilder::default()
            .with_flush_interval(100)
            .with_trace_exporter(GlideOpenTelemetrySignalsExporter::File(String::from("/tmp")))
            .build();
        let telemetry = GlideOpenTelemetry::initialise(config).unwrap();

        let root = GlideOpenTelemetry::new_span("Fanout_Root");
        // Mutating the parent first must not get in the way of linking children.
        root.add_event("Event1").unwrap();
        root.set_status(GlideSpanStatus::Okay).unwrap();

        let mut child_ids = Vec::new();
        for name in ["Child_A", "Child_B", "Child_C"] {
            let child = root.add_span(name).unwrap();
            child_ids.push(child.id().unwrap());
            child.end().unwrap();
        }
        root.end().unwrap();

        tokio::time::sleep(tokio::time::Duration::from_secs(1)).await;

        let records = telemetry.exported_file_spans().unwrap();
        let root_record = records
            .iter()
            .find(|r| r.name == "Fanout_Root")
            .expect("the root span was exported");
        assert_eq!(root_record.link_span_ids.len(), 3);
        assert_eq!(root_record.link_span_ids, child_ids);
        assert_eq!(root_record.status, "Ok");
        // Children created from the root's context snapshot share its trace.
        for record in records.iter().filter(|r| r.name.starts_with("Child_")) {
            assert_eq!(record.trace_id, root_record.trace_id);
        }
        for (record, expected_id) in records
            .iter()
            .filter(|r| r.name.starts_with("Child_"))
            .zip(child_ids.iter())
        {
            assert_eq!(&record.span_id, expected_id);
            assert!(record.end_time_us >= record.start_time_us);
        }
    });
}
