//! Envelope assembly. Sentry's Rust SDK has no envelope item with a custom
//! content type, so the wire bytes (header line, item header, payload) are put
//! together here and handed to [`sentry::Envelope::from_bytes_raw`].
use crate::buffer;
use crate::buffer::{MetricItem, MetricItemView};
use crate::json;
use crate::json::{Json, JsonNumber};
use vstd::prelude::*;

verus! {

/// `sentry::Envelope`.
#[verifier::external_type_specification]
#[verifier::external_body]
pub struct ExEnvelope(sentry::Envelope);

/// `sentry::protocol::EnvelopeError`.
#[verifier::external_type_specification]
#[verifier::external_body]
pub struct ExEnvelopeError(sentry::protocol::EnvelopeError);

/// The bytes that an envelope writes to a transport.
pub uninterp spec fn envelope_content(e: sentry::Envelope) -> Seq<u8>;

/// `Envelope::from_bytes_raw`: it parses nothing, so it always succeeds, and
/// the envelope holds the given bytes as they are.
pub assume_specification[ sentry::Envelope::from_bytes_raw ](bytes: Vec<u8>) -> (r: Result<
    sentry::Envelope,
    sentry::protocol::EnvelopeError,
>)
    ensures
        r is Ok,
        envelope_content(r->Ok_0) == bytes@,
;

/// Sentry's envelope-item type string for metrics.
pub const TRACE_METRIC_ITEM_TYPE: &'static str = "trace_metric";

/// Sentry's envelope-item content type for metrics.
pub const TRACE_METRIC_CONTENT_TYPE: &'static str =
    "application/vnd.sentry.items.trace-metric+json";

/// The envelope headers: the empty object `{}`.
pub open spec fn envelope_headers_text() -> Seq<u8> {
    seq![123u8, 125u8]
}

/// The item headers for a payload of `length` bytes.
pub open spec fn item_headers_json(length: nat) -> Json {
    Json::Object(
        json::no_entries().insert("type"@, Json::Text(TRACE_METRIC_ITEM_TYPE@)).insert(
            "content_type"@,
            Json::Text(TRACE_METRIC_CONTENT_TYPE@),
        ).insert("length"@, Json::Number(JsonNumber::Integer(length as int))),
    )
}

/// The item header line for a payload of `length` bytes.
pub open spec fn item_headers_text(length: nat) -> Seq<u8> {
    json::json_text(item_headers_json(length))
}

/// The wire bytes around a payload: the envelope headers, the item headers and
/// the payload, each followed by a line feed.
pub open spec fn framed(payload: Seq<u8>) -> Seq<u8> {
    envelope_headers_text().push(10u8) + item_headers_text(payload.len()).push(10u8)
        + payload.push(10u8)
}

/// The wire bytes of a batch.
pub open spec fn envelope_text(items: Seq<MetricItemView>) -> Seq<u8> {
    framed(buffer::payload_text(items))
}

/// The lines of `bytes`, split at every line feed.
pub open spec fn lines(bytes: Seq<u8>) -> Seq<Seq<u8>>
    decreases bytes.len(),
{
    match bytes.index_of_first(10u8) {
        Some(i) => if 0 <= i < bytes.len() {
            seq![bytes.take(i)] + lines(bytes.skip(i + 1))
        } else {
            seq![bytes]
        },
        None => seq![bytes],
    }
}

/// The three lines around a payload that is one line.
pub open spec fn framed_lines(payload: Seq<u8>) -> Seq<Seq<u8>> {
    seq![envelope_headers_text(), item_headers_text(payload.len()), payload]
}

/// `bytes` is an envelope with one metrics item for `items`: after its final
/// line feed is dropped, its lines are the envelope headers `{}`, the item
/// headers with the byte length of the payload, and the payload, which is not
/// empty.
pub open spec fn well_framed(bytes: Seq<u8>, items: Seq<MetricItemView>) -> bool {
    let payload = buffer::payload_text(items);
    &&& payload.len() > 0
    &&& bytes.len() > 0
    &&& bytes.last() == 10u8
    &&& lines(bytes.drop_last()) == framed_lines(payload)
}

/// A text without a line feed is the first line of what starts with it.
proof fn lemma_first_line(text: Seq<u8>, rest: Seq<u8>)
    requires
        !text.contains(10u8),
    ensures
        lines(text.push(10u8) + rest) == seq![text] + lines(rest),
{
    let all = text.push(10u8) + rest;
    all.index_of_first_ensures(10u8);
    assert(all[text.len() as int] == 10u8);
    assert(all.contains(10u8));
    let i = all.index_of_first(10u8).unwrap();
    assert(i == text.len()) by {
        if i < text.len() {
            assert(all[i] == text[i]);
            assert(text.contains(10u8));
        }
    }
    assert(all.take(i) == text);
    assert(all.skip(i + 1) == rest);
}

/// A text without a line feed is one line.
proof fn lemma_only_line(text: Seq<u8>)
    requires
        !text.contains(10u8),
    ensures
        lines(text) == seq![text],
{
    text.index_of_first_ensures(10u8);
}

/// Lines end at line feeds and nowhere else: a text without one is a single
/// line, and it is the first line of what continues after a line feed.
pub proof fn law_lines_end_at_line_feeds(text: Seq<u8>, rest: Seq<u8>)
    requires
        !text.contains(10u8),
    ensures
        lines(text) == seq![text],
        lines(text.push(10u8) + rest) == seq![text] + lines(rest),
{
    lemma_only_line(text);
    lemma_first_line(text, rest);
}

/// Three texts without a line feed are the three lines of what joins them.
proof fn lemma_three_lines(a: Seq<u8>, b: Seq<u8>, c: Seq<u8>)
    requires
        !a.contains(10u8),
        !b.contains(10u8),
        !c.contains(10u8),
    ensures
        lines((a.push(10u8) + b.push(10u8) + c.push(10u8)).drop_last()) == seq![a, b, c],
{
    let all = (a.push(10u8) + b.push(10u8) + c.push(10u8)).drop_last();
    assert(all == a.push(10u8) + (b.push(10u8) + c));
    lemma_first_line(a, b.push(10u8) + c);
    lemma_first_line(b, c);
    lemma_only_line(c);
    assert(lines(all) =~= seq![a, b, c]);
}

/// Put the envelope headers and the item headers in front of a payload. The
/// `length` in the item headers is the byte length of the payload. A payload
/// that is one line makes an envelope of three lines.
pub fn frame_payload(payload: &[u8]) -> (r: Vec<u8>)
    ensures
        r@ == framed(payload@),
        !payload@.contains(10u8) ==> lines(r@.drop_last()) == framed_lines(payload@),
{
    // The envelope headers may be an empty object; an event id only makes
    // sense for events.
    let envelope_headers = json::to_vec(&json::object_value(json::new_object())).unwrap();

    let mut headers = json::new_object();
    json::insert(&mut headers, "type", json::text_value(TRACE_METRIC_ITEM_TYPE));
    json::insert(&mut headers, "content_type", json::text_value(TRACE_METRIC_CONTENT_TYPE));
    json::insert(&mut headers, "length", json::integer_value(payload.len() as u64));
    let item_headers = json::to_vec(&json::object_value(headers)).unwrap();

    let mut out: Vec<u8> = Vec::new();
    out.extend_from_slice(envelope_headers.as_slice());
    out.push(10);
    out.extend_from_slice(item_headers.as_slice());
    out.push(10);
    out.extend_from_slice(payload);
    out.push(10);
    proof {
        assert(out@ =~= framed(payload@));
        if !payload@.contains(10u8) {
            lemma_three_lines(envelope_headers@, item_headers@, payload@);
        }
    }
    out
}

/// Build the raw envelope bytes for a batch of metric items.
///
/// Layout (one line per JSON object, separated by `\n`):
///
/// ```text
/// {}\n                                                      <- envelope headers
/// {"type":"trace_metric","content_type":"...","length":N}\n <- item headers
/// <N bytes of payload JSON>\n                               <- item payload
/// ```
pub fn build_envelope_bytes(items: &[MetricItem]) -> (r: Vec<u8>)
    ensures
        r@ == envelope_text(buffer::item_views(items@)),
        well_framed(r@, buffer::item_views(items@)),
{
    let payload = buffer::build_payload_json(items);
    frame_payload(payload.as_slice())
}

/// Build an [`sentry::Envelope`] from a batch of metric items, suitable for
/// `sentry::Client::send_envelope`. An empty batch has no envelope.
pub fn build_envelope(items: &[MetricItem]) -> (r: Option<sentry::Envelope>)
    ensures
        r is Some <==> items@.len() > 0,
        r is Some ==> envelope_content(r->Some_0) == envelope_text(buffer::item_views(items@)),
        r is Some ==> well_framed(envelope_content(r->Some_0), buffer::item_views(items@)),
{
    if items.len() == 0 {
        return None;
    }
    let bytes = build_envelope_bytes(items);
    match sentry::Envelope::from_bytes_raw(bytes) {
        Ok(env) => Some(env),
        Err(_) => None,
    }
}

} // verus!
