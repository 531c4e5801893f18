//! End-to-end tests: metrics are recorded, the envelopes go through Sentry's
//! test transport, and the captured wire bytes are parsed back.

use std::time::Duration;

use metrics::{Key, Label};
use metrics_exporter_sentry_v2::runtime::{FlushSchedule, TickAction};
use metrics_exporter_sentry_v2::SentryRecorder;
use sentry::protocol::{SpanId, TraceId};
use sentry::test::with_captured_envelopes_options;
use sentry::{ClientOptions, Envelope, TransactionOrSpan};
use serde_json::{Number, Value};

/// Splits a captured envelope's raw wire bytes into (envelope_header_json,
/// item_header_json, payload_json).
fn parse_trace_metric_envelope(envelope: &Envelope) -> Option<(Value, Value, Value)> {
    let mut buf = Vec::new();
    envelope.to_writer(&mut buf).ok()?;

    let trimmed: &[u8] = buf.strip_suffix(b"\n").unwrap_or(&buf);
    let mut iter = trimmed.split(|&b| b == b'\n');
    let env_h = iter.next()?;
    let item_h = iter.next()?;
    let payload = iter.next()?;

    let env_h: Value = serde_json::from_slice(env_h).ok()?;
    let item_h: Value = serde_json::from_slice(item_h).ok()?;
    if item_h.get("type")? != "trace_metric" {
        return None;
    }
    let payload: Value = serde_json::from_slice(payload).ok()?;
    Some((env_h, item_h, payload))
}

/// The captured envelopes that hold metrics.
fn trace_metric_envelopes(envs: Vec<Envelope>) -> Vec<(Value, Value, Value)> {
    envs.iter().filter_map(parse_trace_metric_envelope).collect()
}

fn test_options() -> ClientOptions {
    ClientOptions { dsn: "https://public@example.com/1".parse().ok(), ..Default::default() }
}

/// Sends an envelope, if there is one, through the bound client, if there is
/// one.
fn send(envelope: Option<Envelope>) {
    if let (Some(e), Some(client)) = (envelope, sentry::Hub::current().client()) {
        client.send_envelope(e);
    }
}

/// The ids of the span that is set on the scope, if there is one.
fn active_span_ids() -> Option<(TraceId, SpanId)> {
    let span = sentry::configure_scope(|scope| scope.get_span())?;
    let context = span.get_trace_context();
    let span_id = match &span {
        TransactionOrSpan::Transaction(_) => context.span_id,
        TransactionOrSpan::Span(child) => child.get_span_id(),
    };
    Some((context.trace_id, span_id))
}

fn total_items(parsed: &[(Value, Value, Value)]) -> usize {
    parsed.iter().map(|(_, _, p)| p["items"].as_array().map(|a| a.len()).unwrap_or(0)).sum()
}

#[test]
fn counter_increment_emits_counter_with_delta_value() {
    let envs = with_captured_envelopes_options(
        || {
            let mut recorder = SentryRecorder::builder()
                .max_buffer_size(100)
                .flush_interval(Duration::from_secs(60))
                .build();
            let key = Key::from_parts("api.requests", vec![Label::new("route", "/health")]);
            let counter = recorder.register_counter(&key);
            send(counter.increment(&mut recorder, 3, active_span_ids()));
            let counter = recorder.register_counter(&key);
            send(counter.increment(&mut recorder, 4, active_span_ids()));
            send(recorder.flush());
        },
        test_options(),
    );

    let parsed = trace_metric_envelopes(envs);
    assert_eq!(parsed.len(), 1, "expected exactly one trace_metric envelope");
    let (_env_h, item_h, payload) = &parsed[0];

    assert_eq!(item_h["type"], "trace_metric");
    assert_eq!(item_h["content_type"], "application/vnd.sentry.items.trace-metric+json");
    assert_eq!(payload["version"], 2);
    let items = payload["items"].as_array().unwrap();
    assert_eq!(items.len(), 2);
    assert_eq!(items[0]["type"], "counter");
    assert_eq!(items[0]["value"], 3);
    assert_eq!(items[1]["value"], 4);
    assert_eq!(items[0]["name"], "api.requests");
    assert_eq!(items[0]["attributes"]["route"]["value"], "/health");
    assert_eq!(items[0]["attributes"]["route"]["type"], "string");
}

#[test]
fn gauge_set_emits_gauge_with_absolute_value() {
    let envs = with_captured_envelopes_options(
        || {
            let mut recorder =
                SentryRecorder::builder().flush_interval(Duration::from_secs(60)).build();
            let gauge = recorder.register_gauge(&Key::from_name("queue.depth"));
            send(gauge.set(&mut recorder, Number::from_f64(42.5), active_span_ids()));
            send(recorder.flush());
        },
        test_options(),
    );
    let parsed = trace_metric_envelopes(envs);
    assert_eq!(parsed.len(), 1);
    let items = parsed[0].2["items"].as_array().unwrap();
    assert_eq!(items[0]["type"], "gauge");
    assert_eq!(items[0]["value"], 42.5);
}

#[test]
fn histogram_record_emits_distribution() {
    let envs = with_captured_envelopes_options(
        || {
            let mut recorder =
                SentryRecorder::builder().flush_interval(Duration::from_secs(60)).build();
            let histogram = recorder.register_histogram(&Key::from_name("request.duration"));
            send(histogram.record(&mut recorder, Number::from_f64(120.0), active_span_ids()));
            send(histogram.record(&mut recorder, Number::from_f64(45.0), active_span_ids()));
            send(recorder.flush());
        },
        test_options(),
    );
    let parsed = trace_metric_envelopes(envs);
    assert_eq!(parsed.len(), 1);
    let items = parsed[0].2["items"].as_array().unwrap();
    assert_eq!(items.len(), 2);
    assert_eq!(items[0]["type"], "distribution");
    assert_eq!(items[0]["value"], 120.0);
    assert_eq!(items[1]["value"], 45.0);
}

#[test]
fn flush_by_size_triggers_at_max_buffer() {
    let envs = with_captured_envelopes_options(
        || {
            let mut recorder = SentryRecorder::builder()
                .max_buffer_size(2)
                .flush_interval(Duration::from_secs(3600))
                .build();
            let counter = recorder.register_counter(&Key::from_name("a"));
            send(counter.increment(&mut recorder, 1, active_span_ids()));
            send(counter.increment(&mut recorder, 1, active_span_ids()));
            send(counter.increment(&mut recorder, 1, active_span_ids()));
            send(counter.increment(&mut recorder, 1, active_span_ids()));
        },
        test_options(),
    );
    let parsed = trace_metric_envelopes(envs);
    assert!(
        parsed.len() >= 2,
        "expected at least two envelopes from size-triggered flushes, got {}",
        parsed.len()
    );
    assert_eq!(total_items(&parsed), 4);
}

#[test]
fn flush_by_time_triggers_after_interval() {
    let envs = with_captured_envelopes_options(
        || {
            let rt = tokio::runtime::Builder::new_current_thread().enable_all().build().unwrap();
            rt.block_on(async {
                let mut recorder = SentryRecorder::builder()
                    .max_buffer_size(10_000)
                    .flush_interval(Duration::from_millis(50))
                    .build();
                let counter = recorder.register_counter(&Key::from_name("a"));
                send(counter.increment(&mut recorder, 1, active_span_ids()));

                let started = tokio::time::Instant::now();
                let mut ticker = tokio::time::interval(recorder.flush_interval());
                let mut schedule = FlushSchedule::immediate_ticker();
                loop {
                    ticker.tick().await;
                    match schedule.on_tick(started.elapsed() >= Duration::from_millis(200)) {
                        TickAction::Wait => {}
                        TickAction::Flush => send(recorder.flush()),
                        TickAction::Stop => break,
                    }
                }
            });
        },
        test_options(),
    );
    let parsed = trace_metric_envelopes(envs);
    assert!(!parsed.is_empty(), "expected at least one envelope from time-triggered flush");
    assert!(total_items(&parsed) >= 1);
}

#[test]
fn no_active_span_omits_trace_and_span_ids() {
    let envs = with_captured_envelopes_options(
        || {
            let mut recorder =
                SentryRecorder::builder().flush_interval(Duration::from_secs(60)).build();
            let counter = recorder.register_counter(&Key::from_name("no.span"));
            send(counter.increment(&mut recorder, 1, active_span_ids()));
            send(recorder.flush());
        },
        test_options(),
    );
    let parsed = trace_metric_envelopes(envs);
    assert_eq!(parsed.len(), 1);
    let item = &parsed[0].2["items"][0];
    let obj = item.as_object().unwrap();
    assert!(!obj.contains_key("trace_id"), "trace_id should be omitted when no active span");
    assert!(!obj.contains_key("span_id"), "span_id should be omitted when no active span");
}

#[test]
fn active_span_attaches_trace_and_span_ids() {
    let mut opts = test_options();
    opts.traces_sample_rate = 1.0;

    let envs = with_captured_envelopes_options(
        || {
            let mut recorder =
                SentryRecorder::builder().flush_interval(Duration::from_secs(60)).build();

            let txn =
                sentry::start_transaction(sentry::TransactionContext::new("test-op", "test-tx"));
            sentry::configure_scope(|scope| {
                scope.set_span(Some(txn.clone().into()));
            });

            let counter = recorder.register_counter(&Key::from_name("with.span"));
            send(counter.increment(&mut recorder, 1, active_span_ids()));
            send(recorder.flush());

            sentry::configure_scope(|scope| scope.set_span(None));
            txn.finish();
        },
        opts,
    );

    let parsed = trace_metric_envelopes(envs);
    let metric_envs: Vec<_> = parsed
        .iter()
        .filter(|(_, _, p)| {
            p["items"]
                .as_array()
                .map(|a| a.iter().any(|i| i["name"] == "with.span"))
                .unwrap_or(false)
        })
        .collect();
    assert_eq!(metric_envs.len(), 1, "expected one matching trace_metric envelope");
    let item = metric_envs[0].2["items"]
        .as_array()
        .unwrap()
        .iter()
        .find(|i| i["name"] == "with.span")
        .unwrap();

    let trace_id = item["trace_id"].as_str().expect("trace_id present");
    let span_id = item["span_id"].as_str().expect("span_id present");
    assert_eq!(trace_id.len(), 32, "trace_id should be 32 hex chars");
    assert_eq!(span_id.len(), 16, "span_id should be 16 hex chars");
    assert!(trace_id.chars().all(|c| c.is_ascii_hexdigit()));
    assert!(span_id.chars().all(|c| c.is_ascii_hexdigit()));
}

#[test]
fn graceful_when_sentry_hub_uninitialized() {
    let mut recorder = SentryRecorder::new();
    let key = Key::from_name("nope");
    let counter = recorder.register_counter(&key);
    send(counter.increment(&mut recorder, 1, active_span_ids()));
    let gauge = recorder.register_gauge(&key);
    send(gauge.set(&mut recorder, Number::from_f64(1.0), active_span_ids()));
    let histogram = recorder.register_histogram(&key);
    send(histogram.record(&mut recorder, Number::from_f64(1.0), active_span_ids()));
    send(recorder.flush());
}

#[test]
fn a_child_span_attaches_its_own_span_id() {
    let mut opts = test_options();
    opts.traces_sample_rate = 1.0;
    let mut expected: Vec<String> = Vec::new();

    let envs = with_captured_envelopes_options(
        || {
            let mut recorder = SentryRecorder::new();
            let txn = sentry::start_transaction(sentry::TransactionContext::new("name", "op"));
            let child = txn.start_child("child-op", "child");
            sentry::configure_scope(|scope| {
                scope.set_span(Some(child.clone().into()));
            });
            expected.push(txn.get_trace_context().trace_id.to_string());
            expected.push(child.get_span_id().to_string());
            expected.push(txn.get_trace_context().span_id.to_string());

            let counter = recorder.register_counter(&Key::from_name("in.child"));
            send(counter.increment(&mut recorder, 1, active_span_ids()));
            send(recorder.flush());

            sentry::configure_scope(|scope| scope.set_span(None));
            child.finish();
            txn.finish();
        },
        opts,
    );

    let parsed = trace_metric_envelopes(envs);
    assert_eq!(parsed.len(), 1);
    let item = &parsed[0].2["items"][0];
    assert_eq!(item["name"], "in.child");
    assert_eq!(item["trace_id"], expected[0].as_str());
    assert_eq!(item["span_id"], expected[1].as_str());
    assert_ne!(item["span_id"], expected[2].as_str());
}
