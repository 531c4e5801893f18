//! The handles through which a metric is written: what each operation of a
//! counter, a gauge or a histogram sends, and what it drops.
use crate::buffer;
use crate::buffer::{MetricItem, MetricKind, MetricValue, MetricValueView};
use crate::json;
use crate::keys;
use crate::recorder;
use crate::recorder::{
    RecorderView, SentryRecorder, COUNTER_ABSOLUTE_DROPPED, GAUGE_DECREMENT_DROPPED, GAUGE_INCREMENT_DROPPED,
};
use std::time::Duration;
use vstd::prelude::*;

verus! {

/// `handle` stands for the metric `key`: the names and the labels agree.
pub open spec fn same_metric(handle: metrics::Key, key: metrics::Key) -> bool {
    &&& keys::key_name(handle) == keys::key_name(key)
    &&& keys::key_labels(handle) == keys::key_labels(key)
}

/// What a handle records depends on the name and the labels of its metric
/// alone: two handles of one metric write the same items.
pub proof fn law_handles_of_one_metric_agree(
    state: RecorderView,
    kind: MetricKind,
    handle: metrics::Key,
    key: metrics::Key,
    value: MetricValueView,
    since: Option<Duration>,
    active: Option<(sentry::protocol::TraceId, sentry::protocol::SpanId)>,
)
    requires
        same_metric(handle, key),
    ensures
        state.item_at(kind, handle, value, since, active) == state.item_at(
            kind,
            key,
            value,
            since,
            active,
        ),
{
}

/// The handle of a counter.
pub struct SentryCounter {
    key: metrics::Key,
}

/// The handle of a gauge.
pub struct SentryGauge {
    key: metrics::Key,
}

/// The handle of a histogram.
pub struct SentryHistogram {
    key: metrics::Key,
}

impl SentryRecorder {
    /// A handle for the counter `key`.
    pub fn register_counter(&self, key: &metrics::Key) -> (r: SentryCounter)
        ensures
            same_metric(r.key(), *key),
    {
        SentryCounter { key: key.clone() }
    }

    /// A handle for the gauge `key`.
    pub fn register_gauge(&self, key: &metrics::Key) -> (r: SentryGauge)
        ensures
            same_metric(r.key(), *key),
    {
        SentryGauge { key: key.clone() }
    }

    /// A handle for the histogram `key`.
    pub fn register_histogram(&self, key: &metrics::Key) -> (r: SentryHistogram)
        ensures
            same_metric(r.key(), *key),
    {
        SentryHistogram { key: key.clone() }
    }
}

impl SentryCounter {
    /// The metric of this handle.
    pub closed spec fn key(&self) -> metrics::Key {
        self.key
    }

    /// Add `value`, while the active span has the ids `active`. The increment
    /// itself is sent, not a running total.
    pub fn increment(
        &self,
        recorder: &mut SentryRecorder,
        value: u64,
        active: Option<(sentry::protocol::TraceId, sentry::protocol::SpanId)>,
    ) -> (r: Option<sentry::Envelope>)
        ensures
            recorder::recorded(
                old(recorder)@,
                final(recorder)@,
                r,
                MetricKind::Counter,
                self.key(),
                MetricValueView::Counter(value),
                active,
            ),
    {
        recorder.record(MetricKind::Counter, &self.key, MetricValue::Counter(value), active)
    }

    /// Queue an increment by `value` with the given timestamp and ids. Returns the
    /// batch that is now due; it is empty where nothing is due.
    pub fn enqueue(
        &self,
        recorder: &mut SentryRecorder,
        value: u64,
        timestamp: Option<serde_json::Number>,
        trace_id: Option<String>,
        span_id: Option<String>,
    ) -> (r: Vec<MetricItem>)
        ensures
            ({
                let item = old(recorder)@.item(
                    MetricKind::Counter,
                    self.key(),
                    MetricValueView::Counter(value),
                    json::optional_number(timestamp),
                    buffer::optional_text(trace_id),
                    buffer::optional_text(span_id),
                );
                &&& final(recorder)@ == old(recorder)@.after_record(item)
                &&& buffer::item_views(r@) == old(recorder)@.sent_by_record(item)
            }),
    {
        recorder.enqueue(
            MetricKind::Counter,
            &self.key,
            MetricValue::Counter(value),
            timestamp,
            trace_id,
            span_id,
        )
    }

    /// Set the running total. On the wire a counter value is a delta, which
    /// cannot express this: the write is dropped, with one warning per metric.
    pub fn absolute(&self, recorder: &mut SentryRecorder, _value: u64) -> (r: Option<&'static str>)
        ensures
            recorder::dropped(
                old(recorder)@,
                final(recorder)@,
                r,
                keys::key_name(self.key()),
                COUNTER_ABSOLUTE_DROPPED,
            ),
    {
        recorder.warn_once(self.key.name(), COUNTER_ABSOLUTE_DROPPED)
    }
}

impl SentryGauge {
    /// The metric of this handle.
    pub closed spec fn key(&self) -> metrics::Key {
        self.key
    }

    /// Move the gauge up. On the wire a gauge value is absolute, which cannot
    /// express this: the write is dropped, with one warning per metric.
    pub fn increment(&self, recorder: &mut SentryRecorder, _value: Option<serde_json::Number>) -> (r:
        Option<&'static str>)
        ensures
            recorder::dropped(
                old(recorder)@,
                final(recorder)@,
                r,
                keys::key_name(self.key()),
                GAUGE_INCREMENT_DROPPED,
            ),
    {
        recorder.warn_once(self.key.name(), GAUGE_INCREMENT_DROPPED)
    }

    /// Move the gauge down. Dropped as an increment is.
    pub fn decrement(&self, recorder: &mut SentryRecorder, _value: Option<serde_json::Number>) -> (r:
        Option<&'static str>)
        ensures
            recorder::dropped(
                old(recorder)@,
                final(recorder)@,
                r,
                keys::key_name(self.key()),
                GAUGE_DECREMENT_DROPPED,
            ),
    {
        recorder.warn_once(self.key.name(), GAUGE_DECREMENT_DROPPED)
    }

    /// Set the gauge to a reading, given as the JSON number of the double, or
    /// as `None` where the double is infinite or not a number, while the active
    /// span has the ids `active`.
    pub fn set(
        &self,
        recorder: &mut SentryRecorder,
        value: Option<serde_json::Number>,
        active: Option<(sentry::protocol::TraceId, sentry::protocol::SpanId)>,
    ) -> (r: Option<sentry::Envelope>)
        ensures
            recorder::recorded(
                old(recorder)@,
                final(recorder)@,
                r,
                MetricKind::Gauge,
                self.key(),
                MetricValueView::Float(json::optional_number(value)),
                active,
            ),
    {
        recorder.record(MetricKind::Gauge, &self.key, MetricValue::Float(value), active)
    }

    /// Queue a reading with the given timestamp and ids. Returns the
    /// batch that is now due; it is empty where nothing is due.
    pub fn enqueue(
        &self,
        recorder: &mut SentryRecorder,
        value: Option<serde_json::Number>,
        timestamp: Option<serde_json::Number>,
        trace_id: Option<String>,
        span_id: Option<String>,
    ) -> (r: Vec<MetricItem>)
        ensures
            ({
                let item = old(recorder)@.item(
                    MetricKind::Gauge,
                    self.key(),
                    MetricValueView::Float(json::optional_number(value)),
                    json::optional_number(timestamp),
                    buffer::optional_text(trace_id),
                    buffer::optional_text(span_id),
                );
                &&& final(recorder)@ == old(recorder)@.after_record(item)
                &&& buffer::item_views(r@) == old(recorder)@.sent_by_record(item)
            }),
    {
        recorder.enqueue(
            MetricKind::Gauge,
            &self.key,
            MetricValue::Float(value),
            timestamp,
            trace_id,
            span_id,
        )
    }
}

impl SentryHistogram {
    /// The metric of this handle.
    pub closed spec fn key(&self) -> metrics::Key {
        self.key
    }

    /// Record an observation, given as the JSON number of the double, or as
    /// `None` where the double is infinite or not a number, while the active
    /// span has the ids `active`.
    pub fn record(
        &self,
        recorder: &mut SentryRecorder,
        value: Option<serde_json::Number>,
        active: Option<(sentry::protocol::TraceId, sentry::protocol::SpanId)>,
    ) -> (r: Option<sentry::Envelope>)
        ensures
            recorder::recorded(
                old(recorder)@,
                final(recorder)@,
                r,
                MetricKind::Distribution,
                self.key(),
                MetricValueView::Float(json::optional_number(value)),
                active,
            ),
    {
        recorder.record(MetricKind::Distribution, &self.key, MetricValue::Float(value), active)
    }

    /// Queue an observation with the given timestamp and ids. Returns the
    /// batch that is now due; it is empty where nothing is due.
    pub fn enqueue(
        &self,
        recorder: &mut SentryRecorder,
        value: Option<serde_json::Number>,
        timestamp: Option<serde_json::Number>,
        trace_id: Option<String>,
        span_id: Option<String>,
    ) -> (r: Vec<MetricItem>)
        ensures
            ({
                let item = old(recorder)@.item(
                    MetricKind::Distribution,
                    self.key(),
                    MetricValueView::Float(json::optional_number(value)),
                    json::optional_number(timestamp),
                    buffer::optional_text(trace_id),
                    buffer::optional_text(span_id),
                );
                &&& final(recorder)@ == old(recorder)@.after_record(item)
                &&& buffer::item_views(r@) == old(recorder)@.sent_by_record(item)
            }),
    {
        recorder.enqueue(
            MetricKind::Distribution,
            &self.key,
            MetricValue::Float(value),
            timestamp,
            trace_id,
            span_id,
        )
    }
}

} // verus!
