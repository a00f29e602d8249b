use std::str::FromStr;

use glide_telemetry::parse_endpoint;
use glide_telemetry::GlideOpenTelemetry;
use glide_telemetry::GlideOpenTelemetryConfigBuilder;
use glide_telemetry::GlideOpenTelemetrySignalsExporter;
use glide_telemetry::GlideOTELError;
use glide_telemetry::ParseError;

#[test]
fn parse_http_with_explicit_port() {
    match parse_endpoint("http://localhost:1234").unwrap() {
        GlideOpenTelemetrySignalsExporter::Http(e) => assert_eq!(e, "localhost:1234"),
        other => panic!("expected Http selector, got {:?}", other),
    }
}

#[test]
fn parse_http_default_port() {
    match parse_endpoint("http://example.com").unwrap() {
        GlideOpenTelemetrySignalsExporter::Http(e) => assert_eq!(e, "example.com:80"),
        other => panic!("expected Http selector, got {:?}", other),
    }
}

#[test]
fn parse_https_default_port() {
    match parse_endpoint("https://example.com").unwrap() {
        GlideOpenTelemetrySignalsExporter::Http(e) => assert_eq!(e, "example.com:443"),
        other => panic!("expected Http selector, got {:?}", other),
    }
}

#[test]
fn parse_https_with_explicit_port() {
    match parse_endpoint("https://example.com:8443").unwrap() {
        GlideOpenTelemetrySignalsExporter::Http(e) => assert_eq!(e, "example.com:8443"),
        other => panic!("expected Http selector, got {:?}", other),
    }
}

#[test]
fn parse_grpc_with_explicit_port() {
    match parse_endpoint("grpc://collector.internal:4317").unwrap() {
        GlideOpenTelemetrySignalsExporter::Grpc(e) => assert_eq!(e, "collector.internal:4317"),
        other => panic!("expected Grpc selector, got {:?}", other),
    }
}

#[test]
fn parse_grpc_default_port() {
    match parse_endpoint("grpc://127.0.0.1").unwrap() {
        GlideOpenTelemetrySignalsExporter::Grpc(e) => assert_eq!(e, "127.0.0.1:80"),
        other => panic!("expected Grpc selector, got {:?}", other),
    }
}

#[test]
fn parse_grpc_without_host_defaults_host_and_port() {
    match parse_endpoint("grpc:nowhere").unwrap() {
        GlideOpenTelemetrySignalsExporter::Grpc(e) => assert_eq!(e, "127.0.0.1:80"),
        other => panic!("expected Grpc selector, got {:?}", other),
    }
}

#[test]
fn parse_unsupported_scheme_fails() {
    match parse_endpoint("ftp://example.com:21") {
        Err(ParseError::UnsupportedScheme(orig)) => assert_eq!(orig, "ftp://example.com:21"),
        other => panic!("expected UnsupportedScheme, got {:?}", other),
    }
}

#[test]
fn parse_garbage_fails_as_invalid() {
    match parse_endpoint("not a url at all") {
        Err(ParseError::Invalid(orig)) => assert_eq!(orig, "not a url at all"),
        other => panic!("expected Invalid, got {:?}", other),
    }
}

#[test]
fn from_str_parses_selector() {
    match GlideOpenTelemetrySignalsExporter::from_str("http://h:9").unwrap() {
        GlideOpenTelemetrySignalsExporter::Http(e) => assert_eq!(e, "h:9"),
        other => panic!("expected Http selector, got {:?}", other),
    }
}

#[test]
fn builder_defaults() {
    let config = GlideOpenTelemetryConfigBuilder::default().build();
    assert_eq!(GlideOpenTelemetry::get_span_interval(config.clone()), 5000);
    match &config.trace_exporter {
        GlideOpenTelemetrySignalsExporter::File(dir) => assert_eq!(dir, "/tmp"),
        other => panic!("expected File selector, got {:?}", other),
    }
    match &config.metrics_exporter {
        GlideOpenTelemetrySignalsExporter::File(dir) => assert_eq!(dir, "/tmp"),
        other => panic!("expected File selector, got {:?}", other),
    }
}

#[test]
fn builder_overrides() {
    let config = GlideOpenTelemetryConfigBuilder::default()
        .with_flush_interval(100)
        .with_trace_exporter(GlideOpenTelemetrySignalsExporter::Http(String::from("h:1")))
        .with_metrics_exporter(GlideOpenTelemetrySignalsExporter::Grpc(String::from("h:2")))
        .build();
    assert_eq!(config.flush_interval_ms, 100);
    assert!(matches!(&config.trace_exporter, GlideOpenTelemetrySignalsExporter::Http(e) if e == "h:1"));
    assert!(matches!(&config.metrics_exporter, GlideOpenTelemetrySignalsExporter::Grpc(e) if e == "h:2"));
}

#[test]
fn parse_largest_port() {
    match parse_endpoint("http://h:65535").unwrap() {
        GlideOpenTelemetrySignalsExporter::Http(e) => assert_eq!(e, "h:65535"),
        other => panic!("expected Http selector, got {:?}", other),
    }
}

#[test]
fn error_messages_render() {
    assert_eq!(
        GlideOTELError::Other(String::from("boom")).message(),
        "Other error: boom"
    );
    assert_eq!(
        GlideOTELError::SpanReadLockError.message(),
        "Failed to acquire span read lock"
    );
    assert_eq!(
        GlideOTELError::SpanWriteLockError.message(),
        "Failed to acquire span write lock"
    );
    assert_eq!(
        GlideOTELError::OpenTelemetry(String::from("x")).message(),
        "Glide OpenTelemetry trace error: x"
    );
    assert_eq!(
        GlideOTELError::MetricError(String::from("y")).message(),
        "Glide OpenTelemetry metric error: y"
    );
}

#[test]
fn record_timeout_error_before_initialise_fails() {
    let telemetry = GlideOpenTelemetry::uninitialised();
    match telemetry.record_timeout_error() {
        Err(GlideOTELError::Other(msg)) => {
            assert_eq!(msg, "Timeout counter not initialized")
        },
        other => panic!("expected the uninitialized-counter error, got {:?}", other),
    }
}
