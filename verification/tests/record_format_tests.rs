use glide_telemetry::span_records_to_json_lines;
use glide_telemetry::SpanRecord;

fn sample_record() -> SpanRecord {
    SpanRecord {
        name: String::from("Root_Span_1"),
        span_id: String::from("00f067aa0ba902b7"),
        trace_id: String::from("4bf92f3577b34da6a3ce929d0e0e4736"),
        start_time_us: 1000,
        end_time_us: 201000,
        status: String::from("Ok"),
        status_description: String::new(),
        link_span_ids: vec![String::from("aaaabbbbccccdddd")],
    }
}

#[test]
fn json_line_exact_shape() {
    let line = sample_record().to_json_line();
    assert_eq!(
        line,
        "{\"name\":\"Root_Span_1\",\"span_id\":\"00f067aa0ba902b7\",\
         \"trace_id\":\"4bf92f3577b34da6a3ce929d0e0e4736\",\
         \"start_time\":\"1000\",\"end_time\":\"201000\",\"status\":\"Ok\",\
         \"status_description\":\"\",\"links\":[{\"span_id\":\"aaaabbbbccccdddd\"}]}"
    );
    let parsed: serde_json::Value = serde_json::from_str(&line).unwrap();
    assert_eq!(parsed["name"], "Root_Span_1");
    assert_eq!(parsed["links"].as_array().unwrap().len(), 1);
    assert_eq!(parsed["links"][0]["span_id"], "aaaabbbbccccdddd");
}

#[test]
fn json_line_escapes_quotes_and_backslashes() {
    let mut record = sample_record();
    record.name = String::from("a\"b\\c");
    record.status = String::from("Error");
    record.status_description = String::from("quote \" inside");
    record.link_span_ids = Vec::new();
    let line = record.to_json_line();
    let parsed: serde_json::Value = serde_json::from_str(&line).unwrap();
    assert_eq!(parsed["name"], "a\"b\\c");
    assert_eq!(parsed["status"], "Error");
    assert_eq!(parsed["status_description"], "quote \" inside");
    assert_eq!(parsed["links"].as_array().unwrap().len(), 0);
}

#[test]
fn json_line_largest_times() {
    let mut record = sample_record();
    record.start_time_us = u64::MAX;
    record.end_time_us = u64::MAX;
    let line = record.to_json_line();
    let parsed: serde_json::Value = serde_json::from_str(&line).unwrap();
    assert_eq!(parsed["start_time"], "18446744073709551615");
    assert_eq!(parsed["end_time"], "18446744073709551615");
}

#[test]
fn json_lines_keep_order_and_count() {
    let mut second = sample_record();
    second.name = String::from("Network_Span");
    second.link_span_ids = Vec::new();
    let records = vec![sample_record(), second];
    let lines = span_records_to_json_lines(&records);
    assert_eq!(lines.len(), 2);
    let first: serde_json::Value = serde_json::from_str(&lines[0]).unwrap();
    let snd: serde_json::Value = serde_json::from_str(&lines[1]).unwrap();
    assert_eq!(first["name"], "Root_Span_1");
    assert_eq!(snd["name"], "Network_Span");
    assert_eq!(snd["start_time"], "1000");
}
