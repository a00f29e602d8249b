use glide_telemetry::latest_counter_reading_index;
use glide_telemetry::GlideOpenTelemetry;
use glide_telemetry::GlideOpenTelemetryConfigBuilder;
use glide_telemetry::TIMEOUT_ERROR_METRIC;

#[test]
fn concurrent_records_total_to_call_count() {
    let runtime = tokio::runtime::Builder::new_multi_thread()
        .worker_threads(4)
        .enable_all()
        .build()
        .unwrap();
    runtime.block_on(async {
        let config = GlideOpenTelemetryConfigBuilder::default()
            .with_flush_interval(100)
            .build();
        let telemetry = std::sync::Arc::new(GlideOpenTelemetry::initialise(config).unwrap());

        let mut tasks = Vec::new();
        for _ in 0..8 {
            let handle = telemetry.clone();
            tasks.push(tokio::spawn(async move { handle.record_timeout_error() }));
        }
        for task in tasks {
            task.await.unwrap().unwrap();
        }

        // Let the periodic reader export at least one cumulative reading.
        tokio::time::sleep(tokio::time::Duration::from_secs(1)).await;

        let readings = telemetry.exported_counter_readings().unwrap();
        let idx = latest_counter_reading_index(&readings, TIMEOUT_ERROR_METRIC)
            .expect("the timeout counter was exported");
        let total: u64 = readings[idx].1.iter().sum();
        assert_eq!(total, 8);
    });
}
