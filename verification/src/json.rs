//! JSON values of `serde_json`, seen from the proofs as plain trees.
use vstd::prelude::*;

verus! {

/// `serde_json::Value`.
#[verifier::external_type_specification]
#[verifier::external_body]
pub struct ExValue(serde_json::Value);

/// `serde_json::Number`.
#[verifier::external_type_specification]
#[verifier::external_body]
pub struct ExNumber(serde_json::Number);

/// `serde_json::Map`.
#[verifier::external_type_specification]
#[verifier::external_body]
#[verifier::reject_recursive_types(K)]
#[verifier::reject_recursive_types(V)]
pub struct ExObjectMap<K, V>(serde_json::Map<K, V>);

/// `serde_json::Error`.
#[verifier::external_type_specification]
#[verifier::external_body]
pub struct ExError(serde_json::Error);

/// A JSON number: an integer, or a finite double given by its IEEE 754 bit
/// pattern.
#[verifier::ext_equal]
pub enum JsonNumber {
    Integer(int),
    Float(u64),
}

/// A JSON document.
#[verifier::ext_equal]
pub enum Json {
    Null,
    Bool(bool),
    Number(JsonNumber),
    Text(Seq<char>),
    Array(Seq<Json>),
    Object(Map<Seq<char>, Json>),
}

/// The number that a `serde_json::Number` holds.
pub uninterp spec fn number_view(n: serde_json::Number) -> JsonNumber;

/// The document that a `serde_json::Value` holds.
pub uninterp spec fn json_view(v: serde_json::Value) -> Json;

/// The entries of a JSON object under construction.
pub uninterp spec fn entries(m: serde_json::Map<String, serde_json::Value>) -> Map<Seq<char>, Json>;

/// The entries of the empty object.
pub open spec fn no_entries() -> Map<Seq<char>, Json> {
    Map::empty()
}

/// The text that `serde_json::to_vec` writes for a document.
pub uninterp spec fn json_text(j: Json) -> Seq<u8>;

/// The documents held by a sequence of values, in order.
pub open spec fn json_views(values: Seq<serde_json::Value>) -> Seq<Json> {
    values.map_values(|v: serde_json::Value| json_view(v))
}

/// The number that an optional `Number` stands for, if there is one.
pub open spec fn optional_number(n: Option<serde_json::Number>) -> Option<JsonNumber> {
    match n {
        Some(n) => Some(number_view(n)),
        None => None,
    }
}

/// The double `0.0`.
pub open spec fn zero() -> JsonNumber {
    JsonNumber::Float(0)
}

/// `<Value as From<&str>>::from`: a JSON string with the characters of `s`.
#[verifier::external_body]
pub(crate) fn text_value(s: &str) -> (r: serde_json::Value)
    ensures
        json_view(r) == Json::Text(s@),
{
    serde_json::Value::from(s)
}

/// `<Value as From<u64>>::from`: the JSON integer `n`.
#[verifier::external_body]
pub(crate) fn integer_value(n: u64) -> (r: serde_json::Value)
    ensures
        json_view(r) == Json::Number(JsonNumber::Integer(n as int)),
{
    serde_json::Value::from(n)
}

/// `<Value as From<Number>>::from`: the JSON number `n`.
#[verifier::external_body]
pub(crate) fn number_value(n: serde_json::Number) -> (r: serde_json::Value)
    ensures
        json_view(r) == Json::Number(number_view(n)),
{
    serde_json::Value::from(n)
}

/// `<Value as From<()>>::from`: JSON `null`.
#[verifier::external_body]
pub(crate) fn null_value() -> (r: serde_json::Value)
    ensures
        json_view(r) == Json::Null,
{
    serde_json::Value::from(())
}

/// `<Value as From<Vec<Value>>>::from`: the JSON array of `values`, in order.
#[verifier::external_body]
pub(crate) fn array_value(values: Vec<serde_json::Value>) -> (r: serde_json::Value)
    ensures
        json_view(r) == Json::Array(json_views(values@)),
{
    serde_json::Value::from(values)
}

/// `<Value as From<Map<String, Value>>>::from`: the JSON object with the
/// entries of `m`.
#[verifier::external_body]
pub(crate) fn object_value(m: serde_json::Map<String, serde_json::Value>) -> (r: serde_json::Value)
    ensures
        json_view(r) == Json::Object(entries(m)),
{
    serde_json::Value::from(m)
}

/// `<Value as Clone>::clone`: a copy holds the same document.
pub assume_specification[ <serde_json::Value as Clone>::clone ](v: &serde_json::Value) -> (r: serde_json::Value)
    ensures
        json_view(r) == json_view(*v),
;

/// `<Number as Clone>::clone`: a copy holds the same number.
pub assume_specification[ <serde_json::Number as Clone>::clone ](n: &serde_json::Number) -> (r: serde_json::Number)
    ensures
        number_view(r) == number_view(*n),
;

/// `Number::from_f64` at the default double, which is `0.0`: a finite double
/// is a JSON number, so there is a result, and it holds zero.
#[verifier::external_body]
pub(crate) fn zero_number() -> (r: Option<serde_json::Number>)
    ensures
        optional_number(r) == Some(zero()),
{
    serde_json::Number::from_f64(Default::default())
}

/// `Map::new`: no entries.
#[verifier::external_body]
pub(crate) fn new_object() -> (r: serde_json::Map<String, serde_json::Value>)
    ensures
        entries(r) == no_entries(),
{
    serde_json::Map::new()
}

/// `Map::insert`: afterwards `key` leads to `value`, whatever it led to
/// before; the other entries stay. The value that was replaced is dropped.
#[verifier::external_body]
pub(crate) fn insert(m: &mut serde_json::Map<String, serde_json::Value>, key: &str, value: serde_json::Value)
    ensures
        entries(*final(m)) == entries(*old(m)).insert(key@, json_view(value)),
{
    m.insert(key.to_string(), value);
}

/// `serde_json::to_vec` on a `Value`. It succeeds: serialising a `Value` has
/// no error of its own, its keys are strings, and the bytes go to memory. (It
/// recurses into nested documents; the depth that the stack allows is a limit
/// of the machine.) The text depends on the document alone (object entries are written in the order
/// of their keys). It is compact, with control characters escaped inside
/// strings, so it holds no line feed. Every document has at least one byte; an
/// empty object is written `{}`.
#[verifier::external_body]
pub(crate) fn to_vec(v: &serde_json::Value) -> (r: Result<Vec<u8>, serde_json::Error>)
    ensures
        r is Ok,
        r->Ok_0@ == json_text(json_view(*v)),
        r->Ok_0@.len() > 0,
        !r->Ok_0@.contains(10u8),
        json_view(*v) == Json::Object(no_entries()) ==> r->Ok_0@ == seq![123u8, 125u8],
{
    serde_json::to_vec(v)
}

} // verus!
