//! Metric items, their JSON form, and the buffer that holds them until the
//! next flush.
use crate::json;
use crate::json::{Json, JsonNumber};
use vstd::prelude::*;

verus! {

/// One of the three Sentry trace-metric type values.
#[derive(Debug, Clone, Copy, PartialEq, Eq)]
pub enum MetricKind {
    /// `"counter"`: the value is a **delta** (the increment amount).
    Counter,
    /// `"gauge"`: the value is an **absolute** reading.
    Gauge,
    /// `"distribution"`: a single observation in a distribution stream.
    Distribution,
}

impl MetricKind {
    /// The wire string of this kind.
    pub open spec fn wire_name(self) -> Seq<char> {
        match self {
            MetricKind::Counter => "counter"@,
            MetricKind::Gauge => "gauge"@,
            MetricKind::Distribution => "distribution"@,
        }
    }

    /// The exact wire string Sentry expects in the `type` field.
    pub fn as_wire_str(self) -> (r: &'static str)
        ensures
            r@ == self.wire_name(),
    {
        match self {
            MetricKind::Counter => "counter",
            MetricKind::Gauge => "gauge",
            MetricKind::Distribution => "distribution",
        }
    }
}

/// The numeric `value` field of a metric.
#[derive(Debug, Clone, PartialEq)]
pub enum MetricValue {
    /// The amount of a counter increment.
    Counter(u64),
    /// A gauge reading or an observation, as the JSON number of the double;
    /// `None` where the double is infinite or not a number.
    Float(Option<serde_json::Number>),
}

/// What a [`MetricValue`] stands for.
pub enum MetricValueView {
    Counter(u64),
    Float(Option<JsonNumber>),
}

impl View for MetricValue {
    type V = MetricValueView;

    open spec fn view(&self) -> MetricValueView {
        match self {
            MetricValue::Counter(n) => MetricValueView::Counter(*n),
            MetricValue::Float(n) => MetricValueView::Float(json::optional_number(*n)),
        }
    }
}

impl MetricValueView {
    /// The number that goes on the wire. A reading that JSON cannot express is
    /// sent as `0.0`.
    pub open spec fn number(self) -> JsonNumber {
        match self {
            MetricValueView::Counter(n) => JsonNumber::Integer(n as int),
            MetricValueView::Float(Some(n)) => n,
            MetricValueView::Float(None) => json::zero(),
        }
    }
}

impl MetricValue {
    /// The value as a JSON number.
    pub fn to_json(&self) -> (r: serde_json::Value)
        ensures
            json::json_view(r) == Json::Number(self@.number()),
    {
        match self {
            MetricValue::Counter(n) => json::integer_value(*n),
            MetricValue::Float(Some(n)) => json::number_value(n.clone()),
            MetricValue::Float(None) => json::number_value(json::zero_number().unwrap()),
        }
    }
}

/// Sentry's typed-attribute discriminator values.
#[derive(Debug, Clone, Copy, PartialEq, Eq)]
pub enum AttributeType {
    /// `"string"`
    String,
    /// `"integer"`
    Integer,
    /// `"double"`
    Double,
    /// `"boolean"`
    Boolean,
}

impl AttributeType {
    /// The wire string of this type.
    pub open spec fn wire_name(self) -> Seq<char> {
        match self {
            AttributeType::String => "string"@,
            AttributeType::Integer => "integer"@,
            AttributeType::Double => "double"@,
            AttributeType::Boolean => "boolean"@,
        }
    }

    /// The exact wire string Sentry expects in the attribute's `type` field.
    pub fn as_wire_str(self) -> (r: &'static str)
        ensures
            r@ == self.wire_name(),
    {
        match self {
            AttributeType::String => "string",
            AttributeType::Integer => "integer",
            AttributeType::Double => "double",
            AttributeType::Boolean => "boolean",
        }
    }
}

/// One typed attribute, sent as
/// `{"value": ..., "type": "string"|"integer"|"double"|"boolean"}`.
#[derive(Debug, Clone)]
pub struct Attribute {
    /// Attribute name (the key in the outer `attributes` object).
    pub key: String,
    /// JSON value.
    pub value: serde_json::Value,
    /// Sentry's typed-attribute discriminator.
    pub ty: AttributeType,
}

/// What an [`Attribute`] stands for.
pub struct AttributeView {
    pub key: Seq<char>,
    pub value: Json,
    pub ty: AttributeType,
}

impl View for Attribute {
    type V = AttributeView;

    open spec fn view(&self) -> AttributeView {
        AttributeView { key: self.key@, value: json::json_view(self.value), ty: self.ty }
    }
}

impl AttributeView {
    /// The typed wrapper around the attribute's value.
    pub open spec fn to_json(self) -> Json {
        Json::Object(
            json::no_entries().insert("value"@, self.value).insert(
                "type"@,
                Json::Text(self.ty.wire_name()),
            ),
        )
    }
}

/// The attributes behind a sequence of [`Attribute`]s, in order.
pub open spec fn attribute_views(attributes: Seq<Attribute>) -> Seq<AttributeView> {
    attributes.map_values(|a: Attribute| a@)
}

/// The entries of the `attributes` object. Of two attributes with one key the
/// later one stays.
pub open spec fn attribute_entries(attributes: Seq<AttributeView>) -> Map<Seq<char>, Json>
    decreases attributes.len(),
{
    if attributes.len() == 0 {
        json::no_entries()
    } else {
        attribute_entries(attributes.drop_last()).insert(
            attributes.last().key,
            attributes.last().to_json(),
        )
    }
}

impl Attribute {
    /// The typed wrapper around the attribute's value.
    fn to_json(&self) -> (r: serde_json::Value)
        ensures
            json::json_view(r) == self@.to_json(),
    {
        let mut wrapper = json::new_object();
        json::insert(&mut wrapper, "value", self.value.clone());
        json::insert(&mut wrapper, "type", json::text_value(self.ty.as_wire_str()));
        json::object_value(wrapper)
    }
}

/// One queued metric ready for flushing.
#[derive(Debug, Clone)]
pub struct MetricItem {
    /// Seconds since the epoch, fractional seconds preserved, as a JSON number;
    /// `None` where the double is infinite or not a number.
    pub timestamp: Option<serde_json::Number>,
    /// Optional 32-char hex trace id from the active Sentry span/scope.
    pub trace_id: Option<String>,
    /// Optional 16-char hex span id from the active Sentry span/scope.
    pub span_id: Option<String>,
    /// Hierarchical metric name (e.g. `"api.requests"`).
    pub name: String,
    /// Metric value (delta for counter, absolute for gauge/distribution).
    pub value: MetricValue,
    /// Sentry unit string (e.g. `"millisecond"`, `"byte"`, `"none"`).
    pub unit: String,
    /// Counter / gauge / distribution.
    pub kind: MetricKind,
    /// Typed attributes (the metric's labels).
    pub attributes: Vec<Attribute>,
}

/// What a [`MetricItem`] stands for.
pub struct MetricItemView {
    pub timestamp: Option<JsonNumber>,
    pub trace_id: Option<Seq<char>>,
    pub span_id: Option<Seq<char>>,
    pub name: Seq<char>,
    pub value: MetricValueView,
    pub unit: Seq<char>,
    pub kind: MetricKind,
    pub attributes: Seq<AttributeView>,
}

/// The characters of an optional string, if there is one.
pub open spec fn optional_text(s: Option<String>) -> Option<Seq<char>> {
    match s {
        Some(s) => Some(s@),
        None => None,
    }
}

impl View for MetricItem {
    type V = MetricItemView;

    open spec fn view(&self) -> MetricItemView {
        MetricItemView {
            timestamp: json::optional_number(self.timestamp),
            trace_id: optional_text(self.trace_id),
            span_id: optional_text(self.span_id),
            name: self.name@,
            value: self.value@,
            unit: self.unit@,
            kind: self.kind,
            attributes: attribute_views(self.attributes@),
        }
    }
}

/// The items behind a sequence of [`MetricItem`]s, in order.
pub open spec fn item_views(items: Seq<MetricItem>) -> Seq<MetricItemView> {
    items.map_values(|i: MetricItem| i@)
}

/// `entries` with `key` leading to the string `text`, where there is one.
pub open spec fn with_optional_text(
    entries: Map<Seq<char>, Json>,
    key: Seq<char>,
    text: Option<Seq<char>>,
) -> Map<Seq<char>, Json> {
    match text {
        Some(text) => entries.insert(key, Json::Text(text)),
        None => entries,
    }
}

impl MetricItemView {
    /// The JSON form of the timestamp. A double that JSON cannot express
    /// becomes `null`.
    pub open spec fn timestamp_json(self) -> Json {
        match self.timestamp {
            Some(n) => Json::Number(n),
            None => Json::Null,
        }
    }

    /// The entries of the item's object, up to the attributes.
    pub open spec fn plain_entries(self) -> Map<Seq<char>, Json> {
        let stamped = json::no_entries().insert("timestamp"@, self.timestamp_json());
        let traced = with_optional_text(stamped, "trace_id"@, self.trace_id);
        let spanned = with_optional_text(traced, "span_id"@, self.span_id);
        spanned.insert("name"@, Json::Text(self.name)).insert(
            "value"@,
            Json::Number(self.value.number()),
        ).insert("type"@, Json::Text(self.kind.wire_name())).insert("unit"@, Json::Text(self.unit))
    }

    /// The entries of the item's object. There is an `attributes` entry only
    /// where there are attributes.
    pub open spec fn entries(self) -> Map<Seq<char>, Json> {
        if self.attributes.len() == 0 {
            self.plain_entries()
        } else {
            self.plain_entries().insert(
                "attributes"@,
                Json::Object(attribute_entries(self.attributes)),
            )
        }
    }

    /// The per-item JSON object.
    pub open spec fn to_json(self) -> Json {
        Json::Object(self.entries())
    }
}

impl MetricItem {
    /// Convert into the per-item JSON object the Sentry spec mandates.
    pub fn to_json(&self) -> (r: serde_json::Value)
        ensures
            json::json_view(r) == self@.to_json(),
    {
        let mut obj = json::new_object();
        let timestamp = match &self.timestamp {
            Some(n) => json::number_value(n.clone()),
            None => json::null_value(),
        };
        json::insert(&mut obj, "timestamp", timestamp);
        if let Some(tid) = &self.trace_id {
            json::insert(&mut obj, "trace_id", json::text_value(tid.as_str()));
        }
        if let Some(sid) = &self.span_id {
            json::insert(&mut obj, "span_id", json::text_value(sid.as_str()));
        }
        json::insert(&mut obj, "name", json::text_value(self.name.as_str()));
        json::insert(&mut obj, "value", self.value.to_json());
        json::insert(&mut obj, "type", json::text_value(self.kind.as_wire_str()));
        json::insert(&mut obj, "unit", json::text_value(self.unit.as_str()));

        if self.attributes.len() > 0 {
            let ghost views = attribute_views(self.attributes@);
            let mut attrs = json::new_object();
            for i in 0..self.attributes.len()
                invariant
                    views == attribute_views(self.attributes@),
                    json::entries(attrs) == attribute_entries(views.take(i as int)),
            {
                let a = &self.attributes[i];
                json::insert(&mut attrs, a.key.as_str(), a.to_json());
                assert(views.take(i + 1).drop_last() == views.take(i as int));
            }
            assert(views.take(views.len() as int) == views);
            json::insert(&mut obj, "attributes", json::object_value(attrs));
        }
        json::object_value(obj)
    }
}

/// The JSON forms of a batch, in order.
pub open spec fn items_json(items: Seq<MetricItemView>) -> Seq<Json> {
    items.map_values(|i: MetricItemView| i.to_json())
}

/// The top-level `{"version": 2, "items": [...]}` document of a batch.
pub open spec fn payload_json(items: Seq<MetricItemView>) -> Json {
    Json::Object(
        json::no_entries().insert("version"@, Json::Number(JsonNumber::Integer(2))).insert(
            "items"@,
            Json::Array(items_json(items)),
        ),
    )
}

/// The payload bytes of a batch.
pub open spec fn payload_text(items: Seq<MetricItemView>) -> Seq<u8> {
    json::json_text(payload_json(items))
}

/// Build the full top-level `{"version": 2, "items": [...]}` JSON payload
/// shipped inside the `trace_metric` envelope item. It is one line, and not
/// empty.
pub fn build_payload_json(items: &[MetricItem]) -> (r: Vec<u8>)
    ensures
        r@ == payload_text(item_views(items@)),
        r@.len() > 0,
        !r@.contains(10u8),
{
    let mut values: Vec<serde_json::Value> = Vec::new();
    for i in 0..items.len()
        invariant
            values.len() == i,
            forall|k: int|
                0 <= k < i ==> #[trigger] json::json_view(values@[k]) == items@[k]@.to_json(),
    {
        values.push(items[i].to_json());
    }
    assert(json::json_views(values@) == items_json(item_views(items@)));
    let mut payload = json::new_object();
    json::insert(&mut payload, "version", json::integer_value(2));
    json::insert(&mut payload, "items", json::array_value(values));
    json::to_vec(&json::object_value(payload)).unwrap()
}

/// The metric items that wait for the next flush. Recorder operations push,
/// a flush drains.
#[derive(Debug)]
pub struct MetricBuffer {
    items: Vec<MetricItem>,
}

impl View for MetricBuffer {
    type V = Seq<MetricItemView>;

    closed spec fn view(&self) -> Seq<MetricItemView> {
        item_views(self.items@)
    }
}

impl Default for MetricBuffer {
    fn default() -> (r: Self)
        ensures
            r@ == Seq::<MetricItemView>::empty(),
    {
        Self::new()
    }
}

impl MetricBuffer {
    /// Create a new empty buffer.
    pub fn new() -> (r: Self)
        ensures
            r@ == Seq::<MetricItemView>::empty(),
    {
        let r = MetricBuffer { items: Vec::new() };
        assert(r@ =~= Seq::<MetricItemView>::empty());
        r
    }

    /// Push one item. Returns the new length.
    pub fn push(&mut self, item: MetricItem) -> (r: usize)
        ensures
            final(self)@ == old(self)@.push(item@),
            r == final(self)@.len(),
    {
        self.items.push(item);
        assert(self@ =~= old(self)@.push(item@));
        self.items.len()
    }

    /// Drain everything currently queued.
    pub fn drain(&mut self) -> (r: Vec<MetricItem>)
        ensures
            item_views(r@) == old(self)@,
            final(self)@ == Seq::<MetricItemView>::empty(),
    {
        let mut drained: Vec<MetricItem> = Vec::new();
        std::mem::swap(&mut drained, &mut self.items);
        assert(self@ =~= Seq::<MetricItemView>::empty());
        drained
    }

    /// Current queued length.
    pub fn len(&self) -> (r: usize)
        ensures
            r == self@.len(),
    {
        self.items.len()
    }
}

} // verus!
