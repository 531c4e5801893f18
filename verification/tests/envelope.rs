use metrics_exporter_sentry_v2::buffer::{MetricItem, MetricKind, MetricValue};
use metrics_exporter_sentry_v2::envelope::{
    build_envelope, build_envelope_bytes, frame_payload,
};
use serde_json::{Number, Value};

fn one_item() -> MetricItem {
    MetricItem {
        timestamp: Number::from_f64(1_700_000_000.0),
        trace_id: None,
        span_id: None,
        name: "demo".to_string(),
        value: MetricValue::Counter(1),
        unit: "none".to_string(),
        kind: MetricKind::Counter,
        attributes: vec![],
    }
}

#[test]
fn envelope_layout_has_three_lines() {
    let bytes = build_envelope_bytes(&[one_item()]);
    let trimmed = bytes.strip_suffix(b"\n").unwrap_or(&bytes);
    let lines: Vec<&[u8]> = trimmed.split(|&b| b == b'\n').collect();
    assert_eq!(lines.len(), 3, "expected env header + item header + payload");
}

#[test]
fn item_header_declares_correct_type_and_content_type() {
    let bytes = build_envelope_bytes(&[one_item()]);
    let mut iter = bytes.split(|&b| b == b'\n');
    let _env = iter.next().unwrap();
    let item_header = iter.next().unwrap();
    let parsed: Value = serde_json::from_slice(item_header).unwrap();
    assert_eq!(parsed["type"], "trace_metric");
    assert_eq!(parsed["content_type"], "application/vnd.sentry.items.trace-metric+json");
    assert!(parsed["length"].as_u64().unwrap() > 0);
}

#[test]
fn item_header_length_matches_payload() {
    let bytes = build_envelope_bytes(&[one_item()]);
    let mut iter = bytes.split(|&b| b == b'\n');
    let _env = iter.next().unwrap();
    let item_header = iter.next().unwrap();
    let payload = iter.next().unwrap();
    let parsed: Value = serde_json::from_slice(item_header).unwrap();
    assert_eq!(parsed["length"].as_u64().unwrap() as usize, payload.len());
}

#[test]
fn empty_input_yields_no_envelope() {
    assert!(build_envelope(&[]).is_none());
}

#[test]
fn envelope_bytes_of_one_item() {
    let text = String::from_utf8(build_envelope_bytes(&[one_item()])).unwrap();
    let payload = "{\"items\":[{\"name\":\"demo\",\"timestamp\":1700000000.0,\"type\":\"counter\",\
                   \"unit\":\"none\",\"value\":1}],\"version\":2}";
    let header = format!(
        "{{\"content_type\":\"application/vnd.sentry.items.trace-metric+json\",\"length\":{},\
         \"type\":\"trace_metric\"}}",
        payload.len()
    );
    assert_eq!(text, format!("{{}}\n{}\n{}\n", header, payload));
}

#[test]
fn line_feeds_in_a_metric_stay_inside_one_line() {
    let item = MetricItem { name: "a\nb\r\n".to_string(), unit: "\n".to_string(), ..one_item() };
    let bytes = build_envelope_bytes(&[item]);
    assert_eq!(bytes.iter().filter(|&&b| b == b'\n').count(), 3);
    let payload = bytes.split(|&b| b == b'\n').nth(2).unwrap();
    let v: Value = serde_json::from_slice(payload).unwrap();
    assert_eq!(v["items"][0]["name"], "a\nb\r\n");
}

#[test]
fn envelope_writes_the_built_bytes() {
    let items = vec![one_item(), one_item()];
    let envelope = build_envelope(&items).unwrap();
    let mut written = Vec::new();
    envelope.to_writer(&mut written).unwrap();
    assert_eq!(written, build_envelope_bytes(&items));
}

#[test]
fn empty_batch_still_has_three_lines_of_bytes() {
    let bytes = build_envelope_bytes(&[]);
    let lines: Vec<&[u8]> = bytes.split(|&b| b == b'\n').collect();
    assert_eq!(lines.len(), 4);
    assert_eq!(lines[0], b"{}");
    assert_eq!(lines[2], b"{\"items\":[],\"version\":2}");
    assert_eq!(lines[3], b"");
}

#[test]
fn framing_states_the_payload_length() {
    let framed = String::from_utf8(frame_payload(b"[1,2]")).unwrap();
    assert_eq!(
        framed,
        "{}\n{\"content_type\":\"application/vnd.sentry.items.trace-metric+json\",\"length\":5,\
         \"type\":\"trace_metric\"}\n[1,2]\n"
    );
    let framed = String::from_utf8(frame_payload(b"")).unwrap();
    assert!(framed.contains("\"length\":0,"));
    assert!(framed.ends_with("}\n\n"));
}
