use std::time::Duration;

use metrics::{Key, KeyName, Label, Unit};
use metrics_exporter_sentry_v2::buffer::{AttributeType, MetricKind, MetricValue};
use metrics_exporter_sentry_v2::clock::{epoch_secs, now_epoch_secs};
use metrics_exporter_sentry_v2::keys::{attributes_of, labels_to_attributes};
use metrics_exporter_sentry_v2::recorder::{
    COUNTER_ABSOLUTE_DROPPED, DEFAULT_MAX_BUFFER_SIZE, DEFAULT_UNIT, GAUGE_DECREMENT_DROPPED,
    GAUGE_INCREMENT_DROPPED,
};
use metrics_exporter_sentry_v2::runtime::{FlushSchedule, TickAction};
use metrics_exporter_sentry_v2::trace::ids_of;
use metrics_exporter_sentry_v2::units::{map_unit, UnitKind};
use metrics_exporter_sentry_v2::SentryRecorder;
use sentry::protocol::{SpanId, TraceId};
use sentry::Envelope;
use serde_json::{Number, Value};

/// The items in an envelope's payload.
fn items_of(envelope: &Envelope) -> Vec<Value> {
    let mut bytes = Vec::new();
    envelope.to_writer(&mut bytes).unwrap();
    let payload = bytes.split(|&b| b == b'\n').nth(2).unwrap().to_vec();
    let v: Value = serde_json::from_slice(&payload).unwrap();
    v["items"].as_array().unwrap().clone()
}

fn send_if_bound(envelope: Option<Envelope>) {
    if let (Some(e), Some(client)) = (envelope, sentry::Hub::current().client()) {
        client.send_envelope(e);
    }
}

#[test]
fn map_unit_canonical_strings() {
    assert_eq!(map_unit(Unit::Milliseconds), "millisecond");
    assert_eq!(map_unit(Unit::Bytes), "byte");
    assert_eq!(map_unit(Unit::Count), "none");
    assert_eq!(map_unit(Unit::Percent), "percent");
}

#[test]
fn builder_round_trip_defaults() {
    let r = SentryRecorder::builder().build();
    assert_eq!(r.max_buffer_size(), DEFAULT_MAX_BUFFER_SIZE);
    assert_eq!(r.default_unit(), DEFAULT_UNIT);
}

#[test]
fn no_panic_when_sentry_uninitialized() {
    let mut r = SentryRecorder::new();
    let key = Key::from_name("x");
    let c = r.register_counter(&key);
    send_if_bound(c.increment(&mut r, 1, None));
    let g = r.register_gauge(&key);
    send_if_bound(g.set(&mut r, Number::from_f64(2.0), None));
    let h = r.register_histogram(&key);
    send_if_bound(h.record(&mut r, Number::from_f64(3.0), None));
    // No client bound: the envelope is dropped.
    send_if_bound(r.flush());
}

#[test]
fn map_unit_of_every_unit() {
    let expected = [
        (Unit::Count, "none", UnitKind::Count),
        (Unit::Percent, "percent", UnitKind::Percent),
        (Unit::Seconds, "second", UnitKind::Seconds),
        (Unit::Milliseconds, "millisecond", UnitKind::Milliseconds),
        (Unit::Microseconds, "microsecond", UnitKind::Microseconds),
        (Unit::Nanoseconds, "nanosecond", UnitKind::Nanoseconds),
        (Unit::Tebibytes, "tebibyte", UnitKind::Tebibytes),
        (Unit::Gibibytes, "gibibyte", UnitKind::Gibibytes),
        (Unit::Mebibytes, "mebibyte", UnitKind::Mebibytes),
        (Unit::Kibibytes, "kibibyte", UnitKind::Kibibytes),
        (Unit::Bytes, "byte", UnitKind::Bytes),
        (Unit::TerabitsPerSecond, "terabit_per_second", UnitKind::TerabitsPerSecond),
        (Unit::GigabitsPerSecond, "gigabit_per_second", UnitKind::GigabitsPerSecond),
        (Unit::MegabitsPerSecond, "megabit_per_second", UnitKind::MegabitsPerSecond),
        (Unit::KilobitsPerSecond, "kilobit_per_second", UnitKind::KilobitsPerSecond),
        (Unit::BitsPerSecond, "bit_per_second", UnitKind::BitsPerSecond),
        (Unit::CountPerSecond, "count_per_second", UnitKind::CountPerSecond),
    ];
    for (unit, name, kind) in expected {
        assert_eq!(map_unit(unit), name);
        assert_eq!(kind.as_wire_str(), name);
    }
}

#[test]
fn defaults_and_options() {
    let r = SentryRecorder::new();
    assert_eq!(r.max_buffer_size(), 100);
    assert_eq!(r.flush_interval(), Duration::from_secs(10));
    assert_eq!(r.default_unit(), "none");
    let r = SentryRecorder::builder()
        .max_buffer_size(500)
        .flush_interval(Duration::from_secs(5))
        .default_unit("second")
        .build();
    assert_eq!(r.max_buffer_size(), 500);
    assert_eq!(r.flush_interval(), Duration::from_secs(5));
    assert_eq!(r.default_unit(), "second");
    assert_eq!(SentryRecorder::default().max_buffer_size(), 100);
}

#[test]
fn zero_buffer_size_sends_every_item() {
    let mut r = SentryRecorder::builder().max_buffer_size(0).build();
    let c = r.register_counter(&Key::from_name("a"));
    assert_eq!(items_of(&c.increment(&mut r, 1, None).unwrap()).len(), 1);
    assert_eq!(items_of(&c.increment(&mut r, 2, None).unwrap())[0]["value"], 2);
    assert!(r.flush().is_none());
}

#[test]
fn a_full_buffer_is_sent_in_order() {
    let mut r = SentryRecorder::builder().max_buffer_size(3).build();
    let c = r.register_counter(&Key::from_name("a"));
    let mut sent = Vec::new();
    for n in 1..=7u64 {
        if let Some(e) = c.increment(&mut r, n, None) {
            let items = items_of(&e);
            assert_eq!(items.len(), 3);
            sent.extend(items);
        }
    }
    sent.extend(items_of(&r.flush().unwrap()));
    assert!(r.flush().is_none());
    let values: Vec<u64> = sent.iter().map(|i| i["value"].as_u64().unwrap()).collect();
    assert_eq!(values, vec![1, 2, 3, 4, 5, 6, 7]);
    assert_eq!(r.max_buffer_size(), 3);
}

#[test]
fn shutdown_sends_the_rest_and_stops_recording() {
    let mut r = SentryRecorder::new();
    let c = r.register_counter(&Key::from_name("a"));
    assert!(c.increment(&mut r, 5, None).is_none());
    assert_eq!(items_of(&r.shut_down().unwrap())[0]["value"], 5);
    assert!(c.increment(&mut r, 6, None).is_none());
    assert!(r.flush().is_none());
    assert!(r.shut_down().is_none());
}

#[test]
fn unsupported_operations_warn_once_per_metric() {
    let mut r = SentryRecorder::new();
    let a = Key::from_name("a");
    let c = r.register_counter(&a);
    let g = r.register_gauge(&a);
    let other = r.register_gauge(&Key::from_name("b"));
    assert_eq!(c.absolute(&mut r, 1), Some(COUNTER_ABSOLUTE_DROPPED));
    assert_eq!(c.absolute(&mut r, 1), None);
    assert_eq!(g.increment(&mut r, Number::from_f64(1.0)), None);
    assert_eq!(other.increment(&mut r, Number::from_f64(1.0)), Some(GAUGE_INCREMENT_DROPPED));
    assert_eq!(other.decrement(&mut r, Number::from_f64(1.0)), None);
    let third = r.register_gauge(&Key::from_name("c"));
    assert_eq!(third.decrement(&mut r, Number::from_f64(1.0)), Some(GAUGE_DECREMENT_DROPPED));
    assert_eq!(r.warn_once("d", "message"), Some("message"));
    assert_eq!(r.warn_once("d", "message"), None);
    // Nothing was recorded.
    assert!(r.flush().is_none());
}

#[test]
fn warning_texts() {
    assert_eq!(
        COUNTER_ABSOLUTE_DROPPED,
        "metrics-exporter-sentry-v2: Counter::absolute is not supported by Sentry's \
         trace_metric protocol (counter values are deltas); dropping"
    );
    assert_eq!(
        GAUGE_INCREMENT_DROPPED,
        "metrics-exporter-sentry-v2: Gauge::increment is not supported by Sentry's \
         trace_metric protocol (gauge values are absolute); dropping"
    );
    assert_eq!(
        GAUGE_DECREMENT_DROPPED,
        "metrics-exporter-sentry-v2: Gauge::decrement is not supported by Sentry's \
         trace_metric protocol (gauge values are absolute); dropping"
    );
}

#[test]
fn the_last_described_unit_is_used() {
    let mut r = SentryRecorder::builder().default_unit("request").build();
    assert_eq!(r.unit_for("a"), "request");
    r.describe_counter(KeyName::from("a"), Some(Unit::Bytes));
    assert_eq!(r.unit_for("a"), "byte");
    r.describe_gauge(KeyName::from("a"), None);
    assert_eq!(r.unit_for("a"), "byte");
    r.describe_histogram(KeyName::from("a"), Some(Unit::Seconds));
    assert_eq!(r.unit_for("a"), "second");
    assert_eq!(r.unit_for("b"), "request");
    let h = r.register_histogram(&Key::from_name("a"));
    assert!(h.record(&mut r, Number::from_f64(1.5), None).is_none());
    assert_eq!(items_of(&r.flush().unwrap())[0]["unit"], "second");
}

#[test]
fn record_at_states_every_field() {
    let mut r = SentryRecorder::builder().max_buffer_size(1).build();
    let key = Key::from_parts("api", vec![Label::new("route", "/health"), Label::new("x", "1")]);
    let sent = r.record_at(
        MetricKind::Gauge,
        &key,
        MetricValue::Float(Number::from_f64(0.25)),
        Number::from_f64(12.5),
        Some("t".to_string()),
        None,
    );
    let item = items_of(&sent.unwrap())[0].clone();
    assert_eq!(item["timestamp"], 12.5);
    assert_eq!(item["trace_id"], "t");
    assert!(item.get("span_id").is_none());
    assert_eq!(item["name"], "api");
    assert_eq!(item["value"], 0.25);
    assert_eq!(item["type"], "gauge");
    assert_eq!(item["unit"], "none");
    assert_eq!(item["attributes"]["route"]["value"], "/health");
    assert_eq!(item["attributes"]["x"]["value"], "1");
    assert_eq!(item["attributes"]["x"]["type"], "string");
}

#[test]
fn readings_without_a_json_number_are_sent_as_zero() {
    let mut r = SentryRecorder::new();
    let g = r.register_gauge(&Key::from_name("g"));
    assert!(g.set(&mut r, Number::from_f64(f64::NAN), None).is_none());
    assert_eq!(items_of(&r.flush().unwrap())[0]["value"], 0.0);
}

#[test]
fn labels_become_string_attributes_in_order() {
    let key = Key::from_parts("n", vec![Label::new("b", "2"), Label::new("a", "1")]);
    let attributes = labels_to_attributes(&key);
    assert_eq!(attributes.len(), 2);
    assert_eq!(attributes[0].key, "b");
    assert_eq!(attributes[0].value, Value::from("2"));
    assert_eq!(attributes[0].ty, AttributeType::String);
    assert_eq!(attributes[1].key, "a");
    assert!(labels_to_attributes(&Key::from_name("n")).is_empty());
    let attributes = attributes_of(&vec![("k".to_string(), "v".to_string())]);
    assert_eq!(attributes[0].key, "k");
    assert_eq!(attributes[0].value, Value::from("v"));
}

#[test]
fn handles_of_one_metric_agree() {
    let mut r = SentryRecorder::new();
    let key = Key::from_parts("n", vec![Label::new("a", "1")]);
    let first = r.register_counter(&key);
    let second = r.register_counter(&key.clone());
    assert!(first.increment(&mut r, 3, None).is_none());
    assert!(second.increment(&mut r, 3, None).is_none());
    let items = items_of(&r.flush().unwrap());
    for field in ["name", "type", "unit", "value", "attributes"] {
        assert_eq!(items[0][field], items[1][field]);
    }
    assert_eq!(items[0]["name"], "n");
    assert_eq!(items[0]["attributes"]["a"]["value"], "1");
}

#[test]
fn timestamps_are_epoch_seconds() {
    assert_eq!(epoch_secs(Some(Duration::from_millis(1500))), Number::from_f64(1.5));
    assert_eq!(epoch_secs(Some(Duration::from_secs(1_700_000_000))), Number::from_f64(1_700_000_000.0));
    assert_eq!(epoch_secs(None), Number::from_f64(0.0));
    assert!(now_epoch_secs().unwrap().as_f64().unwrap() > 1_600_000_000.0);
}

#[test]
fn ids_come_from_the_span() {
    assert_eq!(ids_of(None), (None, None));
    let bytes: [u8; 16] = [0, 1, 2, 3, 4, 5, 6, 7, 8, 9, 10, 171, 205, 239, 254, 255];
    let short: [u8; 8] = [16, 32, 48, 64, 80, 96, 112, 128];
    let (trace_id, span_id) = ids_of(Some((TraceId::from(bytes), SpanId::from(short))));
    assert_eq!(trace_id.as_deref(), Some("000102030405060708090aabcdeffeff"));
    assert_eq!(span_id.as_deref(), Some("1020304050607080"));
}

#[test]
fn recorded_metrics_carry_the_given_ids() {
    let active = Some((TraceId::from([17u8; 16]), SpanId::from([34u8; 8])));
    let mut r = SentryRecorder::builder().max_buffer_size(3).build();
    let key = Key::from_name("a");
    let counter = r.register_counter(&key);
    let gauge = r.register_gauge(&key);
    let histogram = r.register_histogram(&key);
    assert!(counter.increment(&mut r, 1, active).is_none());
    assert!(gauge.set(&mut r, Number::from_f64(1.0), active).is_none());
    let sent = histogram.record(&mut r, Number::from_f64(1.0), active).unwrap();
    for item in items_of(&sent) {
        assert_eq!(item["trace_id"], "11111111111111111111111111111111");
        assert_eq!(item["span_id"], "2222222222222222");
    }
    let sent = r.record(MetricKind::Counter, &key, MetricValue::Counter(1), None);
    assert!(sent.is_none());
    let item = items_of(&r.flush().unwrap())[0].clone();
    assert!(item.get("trace_id").is_none());
    assert!(item.get("span_id").is_none());
}

#[test]
fn a_ticker_skips_its_first_tick() {
    let mut ticker = FlushSchedule::immediate_ticker();
    assert_eq!(ticker.on_tick(false), TickAction::Wait);
    assert_eq!(ticker.on_tick(false), TickAction::Flush);
    assert_eq!(ticker.on_tick(false), TickAction::Flush);
    assert_eq!(ticker.on_tick(true), TickAction::Stop);
    let mut ticker = FlushSchedule::immediate_ticker();
    assert_eq!(ticker.on_tick(true), TickAction::Wait);
    assert_eq!(ticker.on_tick(true), TickAction::Stop);
}

#[test]
fn a_sleeper_flushes_at_its_first_wakeup() {
    let mut sleeper = FlushSchedule::sleeper();
    assert_eq!(sleeper.on_tick(false), TickAction::Flush);
    assert_eq!(sleeper.on_tick(true), TickAction::Stop);
}

#[test]
fn enqueue_returns_the_batch_that_is_due() {
    let mut r = SentryRecorder::builder().max_buffer_size(3).build();
    let key = Key::from_name("a");
    let counter = r.register_counter(&key);
    let gauge = r.register_gauge(&key);
    let histogram = r.register_histogram(&key);
    let at = Number::from_f64(1.5);
    assert!(counter.enqueue(&mut r, 7, at.clone(), None, None).is_empty());
    assert!(gauge.enqueue(&mut r, Number::from_f64(0.5), at.clone(), None, None).is_empty());
    let id = Some("i".to_string());
    let due = histogram.enqueue(&mut r, Number::from_f64(2.5), at.clone(), id.clone(), id.clone());
    assert_eq!(due.len(), 3);
    assert_eq!(due[0].kind, MetricKind::Counter);
    assert_eq!(due[0].value, MetricValue::Counter(7));
    assert_eq!(due[0].timestamp, at);
    assert_eq!(due[1].kind, MetricKind::Gauge);
    assert_eq!(due[1].value, MetricValue::Float(Number::from_f64(0.5)));
    assert_eq!(due[2].kind, MetricKind::Distribution);
    assert_eq!(due[2].value, MetricValue::Float(Number::from_f64(2.5)));
    assert_eq!(due[2].trace_id, id);
    assert_eq!(due[2].span_id, id);
    assert!(r.take_pending().is_empty());
    assert!(counter.enqueue(&mut r, 8, None, None, None).is_empty());
    assert_eq!(r.take_pending()[0].value, MetricValue::Counter(8));
    assert!(r.shut_down().is_none());
    assert!(counter.enqueue(&mut r, 9, None, None, None).is_empty());
    assert!(r.take_pending().is_empty());
}
