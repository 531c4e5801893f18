//! What holds of everything that goes on the wire.
use crate::buffer;
use crate::buffer::{
    Attribute, AttributeType, AttributeView, MetricItem, MetricItemView, MetricKind, MetricValue,
    MetricValueView,
};
use crate::clock;
use crate::envelope;
use crate::envelope::{TRACE_METRIC_CONTENT_TYPE, TRACE_METRIC_ITEM_TYPE};
use crate::json;
use crate::json::{Json, JsonNumber};
use crate::keys;
use crate::recorder::RecorderView;
use crate::trace;
use crate::units::UnitKind;
use std::time::Duration;
use vstd::prelude::*;

verus! {

/// The keys of an item's object are eight different strings.
proof fn lemma_item_keys_differ()
    ensures
        "timestamp"@.len() == 9,
        "trace_id"@.len() == 8,
        "span_id"@.len() == 7,
        "name"@.len() == 4,
        "name"@[0] == 'n',
        "value"@.len() == 5,
        "type"@.len() == 4,
        "type"@[0] == 't',
        "unit"@.len() == 4,
        "unit"@[0] == 'u',
        "attributes"@.len() == 10,
{
    reveal_strlit("timestamp");
    reveal_strlit("trace_id");
    reveal_strlit("span_id");
    reveal_strlit("name");
    reveal_strlit("value");
    reveal_strlit("type");
    reveal_strlit("unit");
    reveal_strlit("attributes");
}

/// The object of an item has the item's name, number, kind and unit under
/// their keys. The number is never `null`.
pub proof fn law_an_item_states_its_value(item: MetricItemView)
    ensures
        item.to_json() == Json::Object(item.entries()),
        item.entries().contains_key("timestamp"@),
        item.entries()["timestamp"@] == item.timestamp_json(),
        item.entries().contains_key("name"@),
        item.entries()["name"@] == Json::Text(item.name),
        item.entries().contains_key("value"@),
        item.entries()["value"@] == Json::Number(item.value.number()),
        item.entries().contains_key("type"@),
        item.entries()["type"@] == Json::Text(item.kind.wire_name()),
        item.entries().contains_key("unit"@),
        item.entries()["unit"@] == Json::Text(item.unit),
{
    lemma_item_keys_differ();
}

/// The ids are in the object of an item where the item has them, and left out
/// where it does not; the same holds of the attributes.
pub proof fn law_absent_fields_are_left_out(item: MetricItemView)
    ensures
        item.entries().contains_key("trace_id"@) <==> item.trace_id is Some,
        item.trace_id matches Some(id) ==> item.entries()["trace_id"@] == Json::Text(id),
        item.entries().contains_key("span_id"@) <==> item.span_id is Some,
        item.span_id matches Some(id) ==> item.entries()["span_id"@] == Json::Text(id),
        item.entries().contains_key("attributes"@) <==> item.attributes.len() > 0,
        item.attributes.len() > 0 ==> item.entries()["attributes"@] == Json::Object(
            buffer::attribute_entries(item.attributes),
        ),
{
    lemma_item_keys_differ();
}

/// The object of an item has no other entries.
pub proof fn law_an_item_has_no_other_fields(item: MetricItemView, key: Seq<char>)
    requires
        item.entries().contains_key(key),
    ensures
        key == "timestamp"@ || key == "trace_id"@ || key == "span_id"@ || key == "name"@ || key
            == "value"@ || key == "type"@ || key == "unit"@ || key == "attributes"@,
{
}

/// A counter increment is sent as it is, as an integer.
pub proof fn law_a_counter_sends_its_increment(item: MetricItemView, increment: u64)
    requires
        item.value == MetricValueView::Counter(increment),
    ensures
        item.entries()["value"@] == Json::Number(JsonNumber::Integer(increment as int)),
{
    law_an_item_states_its_value(item);
}

/// A reading is sent as it is where JSON has a number for it, and as `0.0`
/// where it is infinite or not a number.
pub proof fn law_a_reading_is_sent_as_a_number(item: MetricItemView, reading: Option<JsonNumber>)
    requires
        item.value == MetricValueView::Float(reading),
    ensures
        reading matches Some(n) ==> item.entries()["value"@] == Json::Number(n),
        reading is None ==> item.entries()["value"@] == Json::Number(json::zero()),
{
    law_an_item_states_its_value(item);
}

/// A recorded item has a timestamp that is a number.
pub proof fn law_a_recorded_item_has_a_timestamp(
    state: RecorderView,
    kind: MetricKind,
    key: metrics::Key,
    value: MetricValueView,
    since: Option<Duration>,
    active: Option<(sentry::protocol::TraceId, sentry::protocol::SpanId)>,
)
    ensures
        state.item_at(kind, key, value, since, active).entries()["timestamp"@] is Number,
{
    law_an_item_states_its_value(state.item_at(kind, key, value, since, active));
}

/// An attribute goes on the wire as exactly its value and the name of its
/// type.
pub proof fn law_an_attribute_is_wrapped_with_its_type(attribute: AttributeView)
    ensures
        attribute.to_json() is Object,
        attribute.to_json()->Object_0.dom() == set!["value"@, "type"@],
        attribute.to_json()->Object_0["value"@] == attribute.value,
        attribute.to_json()->Object_0["type"@] == Json::Text(attribute.ty.wire_name()),
{
    lemma_item_keys_differ();
    assert(attribute.to_json()->Object_0.dom() =~= set!["value"@, "type"@]);
}

/// The `attributes` object has an entry for every attribute key, and no other.
pub proof fn law_every_attribute_key_is_sent(attributes: Seq<AttributeView>, key: Seq<char>)
    ensures
        buffer::attribute_entries(attributes).contains_key(key) <==> exists|i: int|
            0 <= i < attributes.len() && #[trigger] attributes[i].key == key,
    decreases attributes.len(),
{
    if attributes.len() > 0 {
        let front = attributes.drop_last();
        law_every_attribute_key_is_sent(front, key);
        if buffer::attribute_entries(front).contains_key(key) {
            let i = choose|i: int| 0 <= i < front.len() && #[trigger] front[i].key == key;
            assert(attributes[i].key == key);
        }
        if attributes.last().key == key {
            assert(attributes[attributes.len() - 1].key == key);
        }
        if exists|i: int| 0 <= i < attributes.len() && #[trigger] attributes[i].key == key {
            let i = choose|i: int| 0 <= i < attributes.len() && #[trigger] attributes[i].key == key;
            if i < front.len() {
                assert(front[i].key == key);
            }
        }
    }
}

/// Of the attributes with one key the last one is sent.
pub proof fn law_the_last_attribute_wins(attributes: Seq<AttributeView>, i: int)
    requires
        0 <= i < attributes.len(),
        forall|j: int| i < j < attributes.len() ==> (#[trigger] attributes[j]).key
            != attributes[i].key,
    ensures
        buffer::attribute_entries(attributes)[attributes[i].key] == attributes[i].to_json(),
    decreases attributes.len(),
{
    if i < attributes.len() - 1 {
        let front = attributes.drop_last();
        assert forall|j: int| i < j < front.len() implies (#[trigger] front[j]).key
            != front[i].key by {
            assert(attributes[j] == front[j]);
        }
        law_the_last_attribute_wins(front, i);
        assert(attributes[attributes.len() - 1].key != attributes[i].key);
    }
}

/// A label of a metric is sent as a string attribute under the label's key,
/// unless a later label has the same key.
pub proof fn law_labels_are_string_attributes(labels: Seq<(Seq<char>, Seq<char>)>, i: int)
    requires
        0 <= i < labels.len(),
        forall|j: int| i < j < labels.len() ==> (#[trigger] labels[j]).0 != labels[i].0,
    ensures
        ({
            let sent = buffer::attribute_entries(keys::label_attributes(labels));
            &&& sent.contains_key(labels[i].0)
            &&& sent[labels[i].0] == (AttributeView {
                key: labels[i].0,
                value: Json::Text(labels[i].1),
                ty: AttributeType::String,
            }).to_json()
        }),
{
    let attributes = keys::label_attributes(labels);
    assert forall|j: int| i < j < attributes.len() implies (#[trigger] attributes[j]).key
        != attributes[i].key by {
        assert(labels[j].0 != labels[i].0);
    }
    assert(attributes[i].key == labels[i].0);
    law_every_attribute_key_is_sent(attributes, labels[i].0);
    law_the_last_attribute_wins(attributes, i);
}

/// The payload of a batch is a version and the objects of the items: one for
/// each item, in order, nothing aggregated.
pub proof fn law_the_payload_lists_every_item(items: Seq<MetricItemView>)
    ensures
        buffer::payload_json(items) is Object,
        buffer::payload_json(items)->Object_0.dom() == set!["version"@, "items"@],
        buffer::payload_json(items)->Object_0["version"@] == Json::Number(JsonNumber::Integer(2)),
        buffer::payload_json(items)->Object_0["items"@] is Array,
        buffer::payload_json(items)->Object_0["items"@]->Array_0.len() == items.len(),
        forall|i: int|
            0 <= i < items.len() ==> #[trigger] buffer::payload_json(
                items,
            )->Object_0["items"@]->Array_0[i] == items[i].to_json(),
{
    reveal_strlit("version");
    reveal_strlit("items");
    assert("version"@.len() != "items"@.len());
    assert(buffer::payload_json(items)->Object_0.dom() =~= set!["version"@, "items"@]);
}

/// The item headers give the item type, the content type and the byte length
/// of the payload, and nothing else.
pub proof fn law_the_item_headers_describe_the_payload(length: nat)
    ensures
        envelope::item_headers_json(length) is Object,
        envelope::item_headers_json(length)->Object_0.dom() == set![
            "type"@,
            "content_type"@,
            "length"@,
        ],
        envelope::item_headers_json(length)->Object_0["type"@] == Json::Text(
            TRACE_METRIC_ITEM_TYPE@,
        ),
        envelope::item_headers_json(length)->Object_0["content_type"@] == Json::Text(
            TRACE_METRIC_CONTENT_TYPE@,
        ),
        envelope::item_headers_json(length)->Object_0["length"@] == Json::Number(
            JsonNumber::Integer(length as int),
        ),
{
    reveal_strlit("type");
    reveal_strlit("content_type");
    reveal_strlit("length");
    assert("type"@.len() == 4 && "content_type"@.len() == 12 && "length"@.len() == 6);
    assert(envelope::item_headers_json(length)->Object_0.dom() =~= set![
        "type"@,
        "content_type"@,
        "length"@,
    ]);
}

/// The object that stands for an item is determined by the item's fields: the
/// timestamp, the name, the value, the kind and the unit are there under their
/// keys, each id and the attributes are there where the item has them, and
/// nothing else is there.
pub proof fn law_the_object_of_an_item(item: MetricItem, doc: Map<Seq<char>, Json>)
    requires
        forall|k: Seq<char>| #[trigger] doc.contains_key(k) <==> {
            ||| k == "timestamp"@
            ||| k == "name"@
            ||| k == "value"@
            ||| k == "type"@
            ||| k == "unit"@
            ||| k == "trace_id"@ && item.trace_id is Some
            ||| k == "span_id"@ && item.span_id is Some
            ||| k == "attributes"@ && item.attributes@.len() > 0
        },
        doc["timestamp"@] == match item.timestamp {
            Some(n) => Json::Number(json::number_view(n)),
            None => Json::Null,
        },
        doc["name"@] == Json::Text(item.name@),
        doc["value"@] == Json::Number(
            match item.value {
                MetricValue::Counter(n) => JsonNumber::Integer(n as int),
                MetricValue::Float(Some(n)) => json::number_view(n),
                MetricValue::Float(None) => JsonNumber::Float(0),
            },
        ),
        doc["type"@] == Json::Text(
            match item.kind {
                MetricKind::Counter => "counter"@,
                MetricKind::Gauge => "gauge"@,
                MetricKind::Distribution => "distribution"@,
            },
        ),
        doc["unit"@] == Json::Text(item.unit@),
        item.trace_id matches Some(id) ==> doc["trace_id"@] == Json::Text(id@),
        item.span_id matches Some(id) ==> doc["span_id"@] == Json::Text(id@),
        item.attributes@.len() > 0 ==> doc["attributes"@] == Json::Object(
            buffer::attribute_entries(buffer::attribute_views(item.attributes@)),
        ),
    ensures
        item@.to_json() == Json::Object(doc),
{
    lemma_item_keys_differ();
    law_an_item_states_its_value(item@);
    law_absent_fields_are_left_out(item@);
    assert forall|k: Seq<char>| item@.entries().contains_key(k) == #[trigger] doc.contains_key(
        k,
    ) by {
        if item@.entries().contains_key(k) {
            law_an_item_has_no_other_fields(item@, k);
        }
    }
    assert(item@.entries() =~= doc);
}

/// The object that stands for an attribute is determined by the attribute's
/// value and type.
pub proof fn law_the_object_of_an_attribute(attribute: Attribute, doc: Map<Seq<char>, Json>)
    requires
        doc.dom() == set!["value"@, "type"@],
        doc["value"@] == json::json_view(attribute.value),
        doc["type"@] == Json::Text(
            match attribute.ty {
                AttributeType::String => "string"@,
                AttributeType::Integer => "integer"@,
                AttributeType::Double => "double"@,
                AttributeType::Boolean => "boolean"@,
            },
        ),
    ensures
        attribute@.key == attribute.key@,
        attribute@.to_json() == Json::Object(doc),
{
    law_an_attribute_is_wrapped_with_its_type(attribute@);
    assert(attribute@.to_json()->Object_0 =~= doc);
}

/// A batch stands for its items and an attribute list for its attributes: none
/// is left out, and the order is kept.
pub proof fn law_views_keep_every_element(items: Seq<MetricItem>, attributes: Seq<Attribute>)
    ensures
        buffer::item_views(items).len() == items.len(),
        forall|i: int| 0 <= i < items.len() ==> #[trigger] buffer::item_views(items)[i] == items[i]@,
        buffer::attribute_views(attributes).len() == attributes.len(),
        forall|i: int|
            0 <= i < attributes.len() ==> #[trigger] buffer::attribute_views(attributes)[i]
                == attributes[i]@,
{
}

/// An item stands for what its fields hold.
pub proof fn law_an_item_stands_for_its_fields(item: MetricItem)
    ensures
        item@.timestamp == match item.timestamp {
            Some(n) => Some(json::number_view(n)),
            None => None,
        },
        item@.trace_id == match item.trace_id {
            Some(id) => Some(id@),
            None => None,
        },
        item@.span_id == match item.span_id {
            Some(id) => Some(id@),
            None => None,
        },
        item@.name == item.name@,
        item@.value == match item.value {
            MetricValue::Counter(n) => MetricValueView::Counter(n),
            MetricValue::Float(Some(n)) => MetricValueView::Float(Some(json::number_view(n))),
            MetricValue::Float(None) => MetricValueView::Float(None),
        },
        item@.unit == item.unit@,
        item@.kind == item.kind,
        item@.attributes == buffer::attribute_views(item.attributes@),
{
}

/// A value is sent as the number it holds, and as `0.0` where it holds none.
pub proof fn law_the_number_of_a_value(value: MetricValue)
    ensures
        value@.number() == match value {
            MetricValue::Counter(n) => JsonNumber::Integer(n as int),
            MetricValue::Float(Some(n)) => json::number_view(n),
            MetricValue::Float(None) => JsonNumber::Float(0),
        },
{
}

/// The payload bytes of a batch are the text of the document whose version is
/// 2 and whose list has exactly as many entries as the batch has items, each
/// the object of its item.
pub proof fn law_the_payload_is_the_text_of_every_item(
    items: Seq<MetricItemView>,
    doc: Map<Seq<char>, Json>,
    list: Seq<Json>,
)
    requires
        doc.dom() == set!["version"@, "items"@],
        doc["version"@] == Json::Number(JsonNumber::Integer(2)),
        doc["items"@] == Json::Array(list),
        list.len() == items.len(),
        forall|i: int| 0 <= i < items.len() ==> #[trigger] list[i] == items[i].to_json(),
    ensures
        buffer::payload_text(items) == json::json_text(Json::Object(doc)),
{
    law_the_payload_lists_every_item(items);
    let own = buffer::payload_json(items)->Object_0;
    let entries = own["items"@]->Array_0;
    assert forall|i: int| 0 <= i < items.len() implies entries[i] == list[i] by {
        assert(buffer::payload_json(items)->Object_0["items"@]->Array_0[i] == items[i].to_json());
    }
    assert(entries =~= list);
    assert(own =~= doc);
}

/// The bytes around a payload are `{}`, the text of the object that gives the
/// item type, the content type and the byte length of that very payload, and
/// the payload, each followed by a line feed.
pub proof fn law_the_frame_states_the_payload_length(
    payload: Seq<u8>,
    header: Map<Seq<char>, Json>,
)
    requires
        header.dom() == set!["type"@, "content_type"@, "length"@],
        header["type"@] == Json::Text("trace_metric"@),
        header["content_type"@] == Json::Text("application/vnd.sentry.items.trace-metric+json"@),
        header["length"@] == Json::Number(JsonNumber::Integer(payload.len() as int)),
    ensures
        envelope::framed(payload) == seq![123u8, 125u8, 10u8] + json::json_text(
            Json::Object(header),
        ) + seq![10u8] + payload + seq![10u8],
        envelope::framed_lines(payload) == seq![
            seq![123u8, 125u8],
            json::json_text(Json::Object(header)),
            payload,
        ],
{
    law_the_item_headers_describe_the_payload(payload.len());
    assert(envelope::item_headers_json(payload.len())->Object_0 =~= header);
    assert(envelope::framed(payload) =~= seq![123u8, 125u8, 10u8] + json::json_text(
        Json::Object(header),
    ) + seq![10u8] + payload + seq![10u8]);
}

/// The bytes of a batch of items, from the objects of the items to the length
/// in the item headers: nothing is left out, and `length` is the number of
/// bytes of the payload that follows.
pub proof fn law_the_bytes_of_a_batch(
    items: Seq<MetricItem>,
    doc: Map<Seq<char>, Json>,
    list: Seq<Json>,
    header: Map<Seq<char>, Json>,
)
    requires
        doc.dom() == set!["version"@, "items"@],
        doc["version"@] == Json::Number(JsonNumber::Integer(2)),
        doc["items"@] == Json::Array(list),
        list.len() == items.len(),
        forall|i: int| 0 <= i < items.len() ==> #[trigger] list[i] == items[i]@.to_json(),
        header.dom() == set!["type"@, "content_type"@, "length"@],
        header["type"@] == Json::Text("trace_metric"@),
        header["content_type"@] == Json::Text("application/vnd.sentry.items.trace-metric+json"@),
        header["length"@] == Json::Number(
            JsonNumber::Integer(json::json_text(Json::Object(doc)).len() as int),
        ),
    ensures
        envelope::envelope_text(buffer::item_views(items)) == seq![123u8, 125u8, 10u8]
            + json::json_text(Json::Object(header)) + seq![10u8] + json::json_text(
            Json::Object(doc),
        ) + seq![10u8],
{
    law_views_keep_every_element(items, Seq::empty());
    assert forall|i: int| 0 <= i < items.len() implies #[trigger] list[i] == buffer::item_views(
        items,
    )[i].to_json() by {
        assert(buffer::item_views(items)[i] == items[i]@);
    }
    law_the_payload_is_the_text_of_every_item(buffer::item_views(items), doc, list);
    law_the_frame_states_the_payload_length(json::json_text(Json::Object(doc)), header);
}

/// Bytes that are well framed for a batch are three lines: `{}`, the text of
/// the item headers with the length of the third line, and the payload of the
/// batch, which is not empty.
pub proof fn law_well_framed_bytes_are_three_lines(
    bytes: Seq<u8>,
    items: Seq<MetricItemView>,
    header: Map<Seq<char>, Json>,
)
    requires
        envelope::well_framed(bytes, items),
        header.dom() == set!["type"@, "content_type"@, "length"@],
        header["type"@] == Json::Text("trace_metric"@),
        header["content_type"@] == Json::Text("application/vnd.sentry.items.trace-metric+json"@),
        header["length"@] == Json::Number(
            JsonNumber::Integer(buffer::payload_text(items).len() as int),
        ),
    ensures
        bytes.last() == 10u8,
        envelope::lines(bytes.drop_last()).len() == 3,
        envelope::lines(bytes.drop_last())[0] == seq![123u8, 125u8],
        envelope::lines(bytes.drop_last())[1] == json::json_text(Json::Object(header)),
        envelope::lines(bytes.drop_last())[2] == buffer::payload_text(items),
        envelope::lines(bytes.drop_last())[2].len() > 0,
{
    law_the_frame_states_the_payload_length(buffer::payload_text(items), header);
}

/// A document holds what it is made of: an empty object has no entries, a list
/// has every element in its place, and an optional number or text is there
/// where it was given.
pub proof fn law_documents_hold_what_they_are_made_of(
    values: Seq<serde_json::Value>,
    number: Option<serde_json::Number>,
    text: Option<String>,
)
    ensures
        json::no_entries() == Map::<Seq<char>, Json>::empty(),
        json::json_views(values).len() == values.len(),
        forall|i: int|
            0 <= i < values.len() ==> #[trigger] json::json_views(values)[i] == json::json_view(
                values[i],
            ),
        number matches Some(n) ==> json::optional_number(number) == Some(json::number_view(n)),
        number is None ==> json::optional_number(number) is None,
        text matches Some(t) ==> buffer::optional_text(text) == Some(t@),
        text is None ==> buffer::optional_text(text) is None,
        json::zero() == JsonNumber::Float(0),
{
    assert(json::no_entries() =~= Map::<Seq<char>, Json>::empty());
}

/// The attributes of a metric are all its labels, in order, each a string.
pub proof fn law_every_label_is_an_attribute(
    labels: Seq<(Seq<char>, Seq<char>)>,
    owned: Seq<(String, String)>,
)
    ensures
        keys::label_attributes(labels).len() == labels.len(),
        forall|i: int|
            0 <= i < labels.len() ==> #[trigger] keys::label_attributes(labels)[i] == (
            AttributeView {
                key: labels[i].0,
                value: Json::Text(labels[i].1),
                ty: AttributeType::String,
            }),
        keys::label_texts(owned).len() == owned.len(),
        forall|i: int|
            0 <= i < owned.len() ==> #[trigger] keys::label_texts(owned)[i] == (
                owned[i].0@,
                owned[i].1@,
            ),
{
}

/// A metric carries the ids of the active span: both of them, as they are
/// written, or none where there is no span.
pub proof fn law_a_metric_carries_the_active_ids(
    trace_id: sentry::protocol::TraceId,
    span_id: sentry::protocol::SpanId,
)
    ensures
        trace::trace_id_of(Some((trace_id, span_id))) == Some(trace::trace_id_text(trace_id)),
        trace::span_id_of(Some((trace_id, span_id))) == Some(trace::span_id_text(span_id)),
        trace::trace_id_of(None) is None,
        trace::span_id_of(None) is None,
{
}

/// Ids that belong together are both absent, or are 32 and 16 lower-case
/// hexadecimal digits.
pub proof fn law_correlated_ids_are_hexadecimal(
    trace_id: Option<Seq<char>>,
    span_id: Option<Seq<char>>,
)
    requires
        trace::correlated(trace_id, span_id),
    ensures
        trace_id is Some <==> span_id is Some,
        trace_id matches Some(t) ==> t.len() == 32 && forall|i: int|
            0 <= i < 32 ==> '0' <= #[trigger] t[i] <= '9' || 'a' <= t[i] <= 'f',
        span_id matches Some(s) ==> s.len() == 16 && forall|i: int|
            0 <= i < 16 ==> '0' <= #[trigger] s[i] <= '9' || 'a' <= s[i] <= 'f',
{
}

/// A timestamp is the seconds that the clock shows past the epoch, and `0.0`
/// for a clock that shows a time before it.
pub proof fn law_a_timestamp_is_the_time_past_the_epoch(since: Option<Duration>)
    ensures
        since matches Some(d) ==> clock::timestamp(since) == JsonNumber::Float(
            clock::seconds_bits(clock::duration_nanos(d)),
        ),
        since is None ==> clock::timestamp(since) == JsonNumber::Float(0),
{
}

/// The name of a multiple of a unit is the name of the unit behind a prefix,
/// and the name of a rate ends in the name of the time it is taken over.
pub proof fn law_unit_names_are_composed()
    ensures
        UnitKind::Count.wire_name() == "none"@,
        UnitKind::Percent.wire_name() == "percent"@,
        UnitKind::Seconds.wire_name() == "second"@,
        UnitKind::Milliseconds.wire_name() == "milli"@ + UnitKind::Seconds.wire_name(),
        UnitKind::Microseconds.wire_name() == "micro"@ + UnitKind::Seconds.wire_name(),
        UnitKind::Nanoseconds.wire_name() == "nano"@ + UnitKind::Seconds.wire_name(),
        UnitKind::Bytes.wire_name() == "byte"@,
        UnitKind::Kibibytes.wire_name() == "kibi"@ + UnitKind::Bytes.wire_name(),
        UnitKind::Mebibytes.wire_name() == "mebi"@ + UnitKind::Bytes.wire_name(),
        UnitKind::Gibibytes.wire_name() == "gibi"@ + UnitKind::Bytes.wire_name(),
        UnitKind::Tebibytes.wire_name() == "tebi"@ + UnitKind::Bytes.wire_name(),
        UnitKind::BitsPerSecond.wire_name() == "bit_per_"@ + UnitKind::Seconds.wire_name(),
        UnitKind::KilobitsPerSecond.wire_name() == "kilo"@ + UnitKind::BitsPerSecond.wire_name(),
        UnitKind::MegabitsPerSecond.wire_name() == "mega"@ + UnitKind::BitsPerSecond.wire_name(),
        UnitKind::GigabitsPerSecond.wire_name() == "giga"@ + UnitKind::BitsPerSecond.wire_name(),
        UnitKind::TerabitsPerSecond.wire_name() == "tera"@ + UnitKind::BitsPerSecond.wire_name(),
        UnitKind::CountPerSecond.wire_name() == "count_per_"@ + UnitKind::Seconds.wire_name(),
{
    reveal_strlit("second");
    reveal_strlit("millisecond");
    reveal_strlit("microsecond");
    reveal_strlit("nanosecond");
    reveal_strlit("byte");
    reveal_strlit("kibibyte");
    reveal_strlit("mebibyte");
    reveal_strlit("gibibyte");
    reveal_strlit("tebibyte");
    reveal_strlit("bit_per_second");
    reveal_strlit("kilobit_per_second");
    reveal_strlit("megabit_per_second");
    reveal_strlit("gigabit_per_second");
    reveal_strlit("terabit_per_second");
    reveal_strlit("count_per_second");
    reveal_strlit("milli");
    reveal_strlit("micro");
    reveal_strlit("nano");
    reveal_strlit("kibi");
    reveal_strlit("mebi");
    reveal_strlit("gibi");
    reveal_strlit("tebi");
    reveal_strlit("bit_per_");
    reveal_strlit("kilo");
    reveal_strlit("mega");
    reveal_strlit("giga");
    reveal_strlit("tera");
    reveal_strlit("count_per_");
    assert("millisecond"@ =~= "milli"@ + "second"@);
    assert("microsecond"@ =~= "micro"@ + "second"@);
    assert("nanosecond"@ =~= "nano"@ + "second"@);
    assert("kibibyte"@ =~= "kibi"@ + "byte"@);
    assert("mebibyte"@ =~= "mebi"@ + "byte"@);
    assert("gibibyte"@ =~= "gibi"@ + "byte"@);
    assert("tebibyte"@ =~= "tebi"@ + "byte"@);
    assert("bit_per_second"@ =~= "bit_per_"@ + "second"@);
    assert("kilobit_per_second"@ =~= "kilo"@ + "bit_per_second"@);
    assert("megabit_per_second"@ =~= "mega"@ + "bit_per_second"@);
    assert("gigabit_per_second"@ =~= "giga"@ + "bit_per_second"@);
    assert("terabit_per_second"@ =~= "tera"@ + "bit_per_second"@);
    assert("count_per_second"@ =~= "count_per_"@ + "second"@);
}

/// Different kinds of metrics have different names on the wire.
pub proof fn law_kind_names_differ(a: MetricKind, b: MetricKind)
    ensures
        a.wire_name() == b.wire_name() <==> a == b,
{
    reveal_strlit("counter");
    reveal_strlit("gauge");
    reveal_strlit("distribution");
    assert("counter"@.len() == 7 && "gauge"@.len() == 5 && "distribution"@.len() == 12);
}

/// Different types of attributes have different names on the wire.
pub proof fn law_attribute_type_names_differ(a: AttributeType, b: AttributeType)
    ensures
        a.wire_name() == b.wire_name() <==> a == b,
{
    reveal_strlit("string");
    reveal_strlit("integer");
    reveal_strlit("double");
    reveal_strlit("boolean");
    assert("integer"@[0] == 'i');
    assert("boolean"@[0] == 'b');
    assert("string"@[0] == 's');
    assert("double"@[0] == 'd');
}

/// Different units have different names on the wire.
pub proof fn law_unit_names_differ(a: UnitKind, b: UnitKind)
    ensures
        a.wire_name() == b.wire_name() <==> a == b,
{
    reveal_strlit("none");
    reveal_strlit("percent");
    reveal_strlit("second");
    reveal_strlit("millisecond");
    reveal_strlit("microsecond");
    reveal_strlit("nanosecond");
    reveal_strlit("tebibyte");
    reveal_strlit("gibibyte");
    reveal_strlit("mebibyte");
    reveal_strlit("kibibyte");
    reveal_strlit("byte");
    reveal_strlit("terabit_per_second");
    reveal_strlit("gigabit_per_second");
    reveal_strlit("megabit_per_second");
    reveal_strlit("kilobit_per_second");
    reveal_strlit("bit_per_second");
    reveal_strlit("count_per_second");
    // Names of one length differ in the first or the third character.
    assert("none"@.len() == 4 && "none"@[0] == 'n' && "none"@[2] == 'n');
    assert("percent"@.len() == 7 && "percent"@[0] == 'p' && "percent"@[2] == 'r');
    assert("second"@.len() == 6 && "second"@[0] == 's' && "second"@[2] == 'c');
    assert("millisecond"@.len() == 11 && "millisecond"@[0] == 'm' && "millisecond"@[2] == 'l');
    assert("microsecond"@.len() == 11 && "microsecond"@[0] == 'm' && "microsecond"@[2] == 'c');
    assert("nanosecond"@.len() == 10 && "nanosecond"@[0] == 'n' && "nanosecond"@[2] == 'n');
    assert("tebibyte"@.len() == 8 && "tebibyte"@[0] == 't' && "tebibyte"@[2] == 'b');
    assert("gibibyte"@.len() == 8 && "gibibyte"@[0] == 'g' && "gibibyte"@[2] == 'b');
    assert("mebibyte"@.len() == 8 && "mebibyte"@[0] == 'm' && "mebibyte"@[2] == 'b');
    assert("kibibyte"@.len() == 8 && "kibibyte"@[0] == 'k' && "kibibyte"@[2] == 'b');
    assert("byte"@.len() == 4 && "byte"@[0] == 'b' && "byte"@[2] == 't');
    assert("terabit_per_second"@.len() == 18 && "terabit_per_second"@[0] == 't' && "terabit_per_second"@[2] == 'r');
    assert("gigabit_per_second"@.len() == 18 && "gigabit_per_second"@[0] == 'g' && "gigabit_per_second"@[2] == 'g');
    assert("megabit_per_second"@.len() == 18 && "megabit_per_second"@[0] == 'm' && "megabit_per_second"@[2] == 'g');
    assert("kilobit_per_second"@.len() == 18 && "kilobit_per_second"@[0] == 'k' && "kilobit_per_second"@[2] == 'l');
    assert("bit_per_second"@.len() == 14 && "bit_per_second"@[0] == 'b' && "bit_per_second"@[2] == 't');
    assert("count_per_second"@.len() == 16 && "count_per_second"@[0] == 'c' && "count_per_second"@[2] == 'u');
}

} // verus!
