//! The recorder: it turns metric operations into buffered items and the items
//! into envelopes.
use crate::buffer;
use crate::buffer::{
    MetricBuffer, MetricItem, MetricItemView, MetricKind, MetricValue, MetricValueView,
};
use crate::clock;
use crate::envelope;
use crate::json;
use crate::json::JsonNumber;
use crate::keys;
use crate::trace;
use crate::units;
use std::time::Duration;
use vstd::hash_map::StringHashMap;
use vstd::hash_set::StringHashSet;
use vstd::prelude::*;

verus! {

/// Default maximum buffered items before a size-triggered flush.
pub const DEFAULT_MAX_BUFFER_SIZE: usize = 100;

/// Default time between forced flushes, in seconds.
pub const DEFAULT_FLUSH_INTERVAL_SECS: u64 = 10;

/// Default unit applied to metrics that don't declare one.
pub const DEFAULT_UNIT: &'static str = "none";

/// Logged when a cumulative counter write is dropped.
pub const COUNTER_ABSOLUTE_DROPPED: &'static str =
    "metrics-exporter-sentry-v2: Counter::absolute is not supported by Sentry's trace_metric protocol (counter values are deltas); dropping";

/// Logged when a gauge increment is dropped.
pub const GAUGE_INCREMENT_DROPPED: &'static str =
    "metrics-exporter-sentry-v2: Gauge::increment is not supported by Sentry's trace_metric protocol (gauge values are absolute); dropping";

/// Logged when a gauge decrement is dropped.
pub const GAUGE_DECREMENT_DROPPED: &'static str =
    "metrics-exporter-sentry-v2: Gauge::decrement is not supported by Sentry's trace_metric protocol (gauge values are absolute); dropping";

/// The configuration in a [`SentryRecorderBuilder`].
pub struct BuilderView {
    pub max_buffer_size: usize,
    pub flush_interval: Duration,
    pub default_unit: Seq<char>,
}

/// Builder for [`SentryRecorder`].
pub struct SentryRecorderBuilder {
    max_buffer_size: usize,
    flush_interval: Duration,
    default_unit: &'static str,
}

impl View for SentryRecorderBuilder {
    type V = BuilderView;

    closed spec fn view(&self) -> BuilderView {
        BuilderView {
            max_buffer_size: self.max_buffer_size,
            flush_interval: self.flush_interval,
            default_unit: self.default_unit@,
        }
    }
}

impl BuilderView {
    /// The configuration with every option at its default.
    pub open spec fn is_default(self) -> bool {
        &&& self.max_buffer_size == DEFAULT_MAX_BUFFER_SIZE
        &&& clock::duration_nanos(self.flush_interval) == DEFAULT_FLUSH_INTERVAL_SECS
            * 1_000_000_000
        &&& self.default_unit == DEFAULT_UNIT@
    }

    /// A fresh recorder with this configuration.
    pub open spec fn build(self) -> RecorderView {
        RecorderView {
            pending: Seq::empty(),
            max_buffer_size: self.max_buffer_size,
            flush_interval: self.flush_interval,
            default_unit: self.default_unit,
            descriptions: Map::empty(),
            warned: Set::empty(),
            shutdown: false,
        }
    }
}

impl Default for SentryRecorderBuilder {
    fn default() -> (r: Self)
        ensures
            r@.is_default(),
    {
        SentryRecorderBuilder {
            max_buffer_size: DEFAULT_MAX_BUFFER_SIZE,
            flush_interval: Duration::from_secs(DEFAULT_FLUSH_INTERVAL_SECS),
            default_unit: DEFAULT_UNIT,
        }
    }
}

impl SentryRecorderBuilder {
    /// Maximum buffered items before a size-triggered flush. Default `100`.
    /// With `0` every item is sent at once.
    pub fn max_buffer_size(self, n: usize) -> (r: Self)
        ensures
            r@ == (BuilderView { max_buffer_size: n, ..self@ }),
    {
        SentryRecorderBuilder { max_buffer_size: n, ..self }
    }

    /// Time between forced flushes. Default `10s`.
    pub fn flush_interval(self, d: Duration) -> (r: Self)
        ensures
            r@ == (BuilderView { flush_interval: d, ..self@ }),
    {
        SentryRecorderBuilder { flush_interval: d, ..self }
    }

    /// Unit string applied to metrics with no declared unit. Default `"none"`.
    pub fn default_unit(self, unit: &'static str) -> (r: Self)
        ensures
            r@ == (BuilderView { default_unit: unit@, ..self@ }),
    {
        SentryRecorderBuilder { default_unit: unit, ..self }
    }

    /// Build the recorder.
    pub fn build(self) -> (r: SentryRecorder)
        ensures
            r@ == self@.build(),
    {
        SentryRecorder {
            buffer: MetricBuffer::new(),
            max_buffer_size: self.max_buffer_size,
            flush_interval: self.flush_interval,
            default_unit: self.default_unit,
            descriptions: StringHashMap::new(),
            warned_keys: StringHashSet::new(),
            shutdown: false,
        }
    }
}

/// The state of a [`SentryRecorder`].
#[verifier::ext_equal]
pub struct RecorderView {
    /// The items that wait for the next flush, oldest first.
    pub pending: Seq<MetricItemView>,
    pub max_buffer_size: usize,
    pub flush_interval: Duration,
    pub default_unit: Seq<char>,
    /// The units of the metrics that were described with one.
    pub descriptions: Map<Seq<char>, metrics::Unit>,
    /// The metrics for which a warning was given.
    pub warned: Set<Seq<char>>,
    pub shutdown: bool,
}

impl RecorderView {
    /// The configuration that the recorder was built with.
    pub open spec fn config(self) -> BuilderView {
        BuilderView {
            max_buffer_size: self.max_buffer_size,
            flush_interval: self.flush_interval,
            default_unit: self.default_unit,
        }
    }

    /// The wire unit of the metric `name`.
    pub open spec fn unit_for(self, name: Seq<char>) -> Seq<char> {
        if self.descriptions.contains_key(name) {
            units::unit_view(self.descriptions[name]).wire_name()
        } else {
            self.default_unit
        }
    }

    /// The item for an operation on the metric `key`.
    pub open spec fn item(
        self,
        kind: MetricKind,
        key: metrics::Key,
        value: MetricValueView,
        timestamp: Option<JsonNumber>,
        trace_id: Option<Seq<char>>,
        span_id: Option<Seq<char>>,
    ) -> MetricItemView {
        MetricItemView {
            timestamp,
            trace_id,
            span_id,
            name: keys::key_name(key),
            value,
            unit: self.unit_for(keys::key_name(key)),
            kind,
            attributes: keys::label_attributes(keys::key_labels(key)),
        }
    }

    /// The item for an operation on the metric `key` at a time when the clock
    /// is `since` past the epoch and the active span has the ids `active`.
    pub open spec fn item_at(
        self,
        kind: MetricKind,
        key: metrics::Key,
        value: MetricValueView,
        since: Option<Duration>,
        active: Option<(sentry::protocol::TraceId, sentry::protocol::SpanId)>,
    ) -> MetricItemView {
        self.item(
            kind,
            key,
            value,
            Some(clock::timestamp(since)),
            trace::trace_id_of(active),
            trace::span_id_of(active),
        )
    }

    /// Whether one more item fills the buffer.
    pub open spec fn next_fills(self) -> bool {
        self.pending.len() + 1 >= self.max_buffer_size
    }

    /// The state after `item` was recorded.
    pub open spec fn after_record(self, item: MetricItemView) -> RecorderView {
        if self.shutdown {
            self
        } else if self.next_fills() {
            self.after_flush()
        } else {
            RecorderView { pending: self.pending.push(item), ..self }
        }
    }

    /// The batch that is sent when `item` is recorded; empty where nothing is
    /// sent.
    pub open spec fn sent_by_record(self, item: MetricItemView) -> Seq<MetricItemView> {
        if !self.shutdown && self.next_fills() {
            self.pending.push(item)
        } else {
            Seq::empty()
        }
    }

    /// The state after a flush, which sends what is pending.
    pub open spec fn after_flush(self) -> RecorderView {
        RecorderView { pending: Seq::empty(), ..self }
    }

    /// The state after the shutdown, which sends what is pending.
    pub open spec fn after_shut_down(self) -> RecorderView {
        RecorderView { shutdown: true, ..self.after_flush() }
    }

    /// The state after a warning on the metric `name`.
    pub open spec fn after_warning(self, name: Seq<char>) -> RecorderView {
        RecorderView { warned: self.warned.insert(name), ..self }
    }

    /// The state after the metric `name` was described with `unit`, or
    /// without a unit.
    pub open spec fn after_description(
        self,
        name: Seq<char>,
        unit: Option<metrics::Unit>,
    ) -> RecorderView {
        match unit {
            Some(u) => RecorderView { descriptions: self.descriptions.insert(name, u), ..self },
            None => self,
        }
    }
}

/// `sent` is what has to be handed to the Sentry client for `batch`: nothing
/// for an empty batch, and else the envelope of the batch.
pub open spec fn ships(sent: Option<sentry::Envelope>, batch: Seq<MetricItemView>) -> bool {
    match sent {
        Some(e) => {
            &&& batch.len() > 0
            &&& envelope::envelope_content(e) == envelope::envelope_text(batch)
            &&& envelope::well_framed(envelope::envelope_content(e), batch)
        },
        None => batch.len() == 0,
    }
}

/// An operation on the metric `key` was recorded while the active span had the
/// ids `active`: `before` became `after` and `sent` has to be handed to the
/// Sentry client, for a reading that the system clock gave. After the shutdown
/// nothing happens.
pub open spec fn recorded(
    before: RecorderView,
    after: RecorderView,
    sent: Option<sentry::Envelope>,
    kind: MetricKind,
    key: metrics::Key,
    value: MetricValueView,
    active: Option<(sentry::protocol::TraceId, sentry::protocol::SpanId)>,
) -> bool {
    if before.shutdown {
        after == before && sent is None
    } else {
        &&& trace::correlated(trace::trace_id_of(active), trace::span_id_of(active))
        &&& exists|since: Option<Duration>|
            {
                let item = #[trigger] before.item_at(kind, key, value, since, active);
                &&& clock::is_clock_reading(since)
                &&& after == before.after_record(item)
                &&& ships(sent, before.sent_by_record(item))
            }
    }
}

/// The operation on the metric `name` was dropped: nothing is recorded, and a
/// warning has to be logged unless the metric already had one.
pub open spec fn dropped(
    before: RecorderView,
    after: RecorderView,
    warning: Option<&'static str>,
    name: Seq<char>,
    msg: &'static str,
) -> bool {
    &&& after == before.after_warning(name)
    &&& warning == if before.warned.contains(name) {
        None
    } else {
        Some(msg)
    }
}

/// A recorder that ships metrics to Sentry's `trace_metric` endpoint. The
/// operations that send something return the envelope to send.
pub struct SentryRecorder {
    buffer: MetricBuffer,
    max_buffer_size: usize,
    flush_interval: Duration,
    default_unit: &'static str,
    /// Units by metric name, from the `describe_*` operations.
    descriptions: StringHashMap<metrics::Unit>,
    /// Metric names with an "unsupported operation" warning already given,
    /// which keeps the log from getting flooded.
    warned_keys: StringHashSet,
    /// Set at the shutdown, so that later operations are ignored.
    shutdown: bool,
}

impl View for SentryRecorder {
    type V = RecorderView;

    closed spec fn view(&self) -> RecorderView {
        RecorderView {
            pending: self.buffer@,
            max_buffer_size: self.max_buffer_size,
            flush_interval: self.flush_interval,
            default_unit: self.default_unit@,
            descriptions: self.descriptions@,
            warned: self.warned_keys@,
            shutdown: self.shutdown,
        }
    }
}

impl Default for SentryRecorder {
    fn default() -> (r: Self)
        ensures
            r@.config().is_default(),
            r@ == r@.config().build(),
    {
        Self::new()
    }
}

impl SentryRecorder {
    /// Build a recorder with all defaults
    /// (`max_buffer_size = 100`, `flush_interval = 10s`, `default_unit = "none"`).
    pub fn new() -> (r: Self)
        ensures
            r@.config().is_default(),
            r@ == r@.config().build(),
    {
        Self::builder().build()
    }

    /// Start a builder for configuring buffer size, flush cadence, and unit
    /// fallback.
    pub fn builder() -> (r: SentryRecorderBuilder)
        ensures
            r@.is_default(),
    {
        SentryRecorderBuilder::default()
    }

    /// The number of buffered items that triggers a flush.
    pub fn max_buffer_size(&self) -> (r: usize)
        ensures
            r == self@.max_buffer_size,
    {
        self.max_buffer_size
    }

    /// The time between forced flushes.
    pub fn flush_interval(&self) -> (r: Duration)
        ensures
            r == self@.flush_interval,
    {
        self.flush_interval
    }

    /// The unit of metrics that don't declare one.
    pub fn default_unit(&self) -> (r: &'static str)
        ensures
            r@ == self@.default_unit,
    {
        self.default_unit
    }

    /// Drain the buffer. The envelope of what was in it remains to be built.
    pub fn take_pending(&mut self) -> (r: Vec<MetricItem>)
        ensures
            final(self)@ == old(self)@.after_flush(),
            buffer::item_views(r@) == old(self)@.pending,
    {
        self.buffer.drain()
    }

    /// Drain the buffer and build the envelope of what was in it. The size and
    /// time triggers do this too.
    pub fn flush(&mut self) -> (r: Option<sentry::Envelope>)
        ensures
            final(self)@ == old(self)@.after_flush(),
            ships(r, old(self)@.pending),
    {
        let drained = self.take_pending();
        envelope::build_envelope(drained.as_slice())
    }

    /// Stop recording, and build the envelope of what is left in the buffer.
    pub fn shut_down(&mut self) -> (r: Option<sentry::Envelope>)
        ensures
            final(self)@ == old(self)@.after_shut_down(),
            ships(r, old(self)@.pending),
    {
        self.shutdown = true;
        self.flush()
    }

    /// Record an operation on the metric `key`, stamped with the time and with
    /// the ids of the active span, if there is one.
    pub fn record(
        &mut self,
        kind: MetricKind,
        key: &metrics::Key,
        value: MetricValue,
        active: Option<(sentry::protocol::TraceId, sentry::protocol::SpanId)>,
    ) -> (r: Option<sentry::Envelope>)
        ensures
            recorded(old(self)@, final(self)@, r, kind, *key, value@, active),
    {
        if self.shutdown {
            return None;
        }
        let (trace_id, span_id) = trace::ids_of(active);
        let timestamp = clock::now_epoch_secs();
        proof {
            let since = choose|since: Option<Duration>| #[trigger]
                clock::is_clock_reading(since) && json::optional_number(timestamp) == Some(
                    clock::timestamp(since),
                );
            let item = self@.item_at(kind, *key, value@, since, active);
        }
        self.record_at(kind, key, value, timestamp, trace_id, span_id)
    }

    /// Record an operation on the metric `key` with the given timestamp and
    /// ids.
    pub fn record_at(
        &mut self,
        kind: MetricKind,
        key: &metrics::Key,
        value: MetricValue,
        timestamp: Option<serde_json::Number>,
        trace_id: Option<String>,
        span_id: Option<String>,
    ) -> (r: Option<sentry::Envelope>)
        ensures
            ({
                let item = old(self)@.item(
                    kind,
                    *key,
                    value@,
                    json::optional_number(timestamp),
                    buffer::optional_text(trace_id),
                    buffer::optional_text(span_id),
                );
                &&& final(self)@ == old(self)@.after_record(item)
                &&& ships(r, old(self)@.sent_by_record(item))
            }),
    {
        let due = self.enqueue(kind, key, value, timestamp, trace_id, span_id);
        envelope::build_envelope(due.as_slice())
    }

    /// Queue an operation on the metric `key` with the given timestamp and ids.
    /// Returns the batch that is now due, whose envelope remains to be built;
    /// it is empty where nothing is due.
    pub fn enqueue(
        &mut self,
        kind: MetricKind,
        key: &metrics::Key,
        value: MetricValue,
        timestamp: Option<serde_json::Number>,
        trace_id: Option<String>,
        span_id: Option<String>,
    ) -> (r: Vec<MetricItem>)
        ensures
            ({
                let item = old(self)@.item(
                    kind,
                    *key,
                    value@,
                    json::optional_number(timestamp),
                    buffer::optional_text(trace_id),
                    buffer::optional_text(span_id),
                );
                &&& final(self)@ == old(self)@.after_record(item)
                &&& buffer::item_views(r@) == old(self)@.sent_by_record(item)
            }),
    {
        if self.shutdown {
            return Vec::new();
        }
        let unit = self.unit_for(key.name());
        let attributes = keys::labels_to_attributes(key);
        let item = MetricItem {
            timestamp,
            trace_id,
            span_id,
            name: key.name().to_string(),
            value,
            unit,
            kind,
            attributes,
        };
        let new_len = self.buffer.push(item);
        if new_len >= self.max_buffer_size {
            self.take_pending()
        } else {
            Vec::new()
        }
    }

    /// The wire unit of the metric `name`: the one it was described with, or
    /// the default.
    pub fn unit_for(&self, name: &str) -> (r: String)
        ensures
            r@ == self@.unit_for(name@),
    {
        if let Some(u) = self.descriptions.get(name) {
            return units::map_unit(*u).to_string();
        }
        self.default_unit.to_string()
    }

    /// Note a warning on the metric `name`. Returns the message the first time,
    /// to be logged, and nothing later.
    pub fn warn_once(&mut self, name: &str, msg: &'static str) -> (r: Option<&'static str>)
        ensures
            dropped(old(self)@, final(self)@, r, name@, msg),
    {
        if self.warned_keys.insert(name.to_string()) {
            Some(msg)
        } else {
            None
        }
    }

    /// Remember the unit of a metric. A later description replaces it; one
    /// without a unit changes nothing.
    fn describe(&mut self, key: metrics::KeyName, unit: Option<metrics::Unit>)
        ensures
            final(self)@ == old(self)@.after_description(keys::name_text(key), unit),
    {
        if let Some(u) = unit {
            self.descriptions.insert(key.as_str().to_string(), u);
        }
    }

    /// Describe a counter.
    pub fn describe_counter(&mut self, key: metrics::KeyName, unit: Option<metrics::Unit>)
        ensures
            final(self)@ == old(self)@.after_description(keys::name_text(key), unit),
    {
        self.describe(key, unit)
    }

    /// Describe a gauge.
    pub fn describe_gauge(&mut self, key: metrics::KeyName, unit: Option<metrics::Unit>)
        ensures
            final(self)@ == old(self)@.after_description(keys::name_text(key), unit),
    {
        self.describe(key, unit)
    }

    /// Describe a histogram.
    pub fn describe_histogram(&mut self, key: metrics::KeyName, unit: Option<metrics::Unit>)
        ensures
            final(self)@ == old(self)@.after_description(keys::name_text(key), unit),
    {
        self.describe(key, unit)
    }
}

} // verus!
