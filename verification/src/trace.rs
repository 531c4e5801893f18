//! Trace correlation: the ids of the active Sentry span, as a metric carries
//! them.
use crate::buffer;
use vstd::prelude::*;

verus! {

/// `sentry::protocol::TraceId`.
#[verifier::external_type_specification]
#[verifier::external_body]
pub struct ExTraceId(sentry::protocol::TraceId);

/// `sentry::protocol::SpanId`.
#[verifier::external_type_specification]
#[verifier::external_body]
pub struct ExSpanId(sentry::protocol::SpanId);

/// The text of a trace id.
pub uninterp spec fn trace_id_text(id: sentry::protocol::TraceId) -> Seq<char>;

/// The text of a span id.
pub uninterp spec fn span_id_text(id: sentry::protocol::SpanId) -> Seq<char>;

/// A lower-case hexadecimal digit.
pub open spec fn is_hex_digit(c: char) -> bool {
    '0' <= c <= '9' || 'a' <= c <= 'f'
}

/// `text` is made of `len` lower-case hexadecimal digits.
pub open spec fn is_hex(text: Seq<char>, len: nat) -> bool {
    &&& text.len() == len
    &&& forall|i: int| 0 <= i < text.len() ==> is_hex_digit(#[trigger] text[i])
}

/// The `Display` form of a `TraceId`: its 16 bytes, each written as two
/// lower-case hexadecimal digits.
#[verifier::external_body]
fn trace_id_string(id: &sentry::protocol::TraceId) -> (r: String)
    ensures
        r@ == trace_id_text(*id),
        is_hex(r@, 32),
{
    id.to_string()
}

/// The `Display` form of a `SpanId`: its 8 bytes, each written as two
/// lower-case hexadecimal digits.
#[verifier::external_body]
fn span_id_string(id: &sentry::protocol::SpanId) -> (r: String)
    ensures
        r@ == span_id_text(*id),
        is_hex(r@, 16),
{
    id.to_string()
}

/// A trace id and a span id that belong together: both are absent, or both are
/// present with 32 and 16 hexadecimal digits.
pub open spec fn correlated(trace_id: Option<Seq<char>>, span_id: Option<Seq<char>>) -> bool {
    match (trace_id, span_id) {
        (Some(t), Some(s)) => is_hex(t, 32) && is_hex(s, 16),
        (None, None) => true,
        _ => false,
    }
}

/// The trace id that a metric carries while the span with the ids `active` is
/// the active one, or while there is none.
pub open spec fn trace_id_of(
    active: Option<(sentry::protocol::TraceId, sentry::protocol::SpanId)>,
) -> Option<Seq<char>> {
    match active {
        Some(ids) => Some(trace_id_text(ids.0)),
        None => None,
    }
}

/// The span id that a metric carries while the span with the ids `active` is
/// the active one, or while there is none.
pub open spec fn span_id_of(
    active: Option<(sentry::protocol::TraceId, sentry::protocol::SpanId)>,
) -> Option<Seq<char>> {
    match active {
        Some(ids) => Some(span_id_text(ids.1)),
        None => None,
    }
}

/// The trace id and the span id that a metric carries, for the ids of the
/// active span, if there is one.
pub fn ids_of(active: Option<(sentry::protocol::TraceId, sentry::protocol::SpanId)>) -> (r: (
    Option<String>,
    Option<String>,
))
    ensures
        buffer::optional_text(r.0) == trace_id_of(active),
        buffer::optional_text(r.1) == span_id_of(active),
        correlated(buffer::optional_text(r.0), buffer::optional_text(r.1)),
{
    match active {
        Some((trace_id, span_id)) => (
            Some(trace_id_string(&trace_id)),
            Some(span_id_string(&span_id)),
        ),
        None => (None, None),
    }
}

} // verus!
