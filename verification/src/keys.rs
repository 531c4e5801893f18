//! Metric keys: the name of a metric and its labels.
use crate::buffer;
use crate::buffer::{Attribute, AttributeType, AttributeView};
use crate::json;
use crate::json::Json;
use vstd::prelude::*;

verus! {

/// `metrics::Key`.
#[verifier::external_type_specification]
#[verifier::external_body]
pub struct ExKey(metrics::Key);

/// `metrics::KeyName`.
#[verifier::external_type_specification]
#[verifier::external_body]
pub struct ExKeyName(metrics::KeyName);

/// The name in a key.
pub uninterp spec fn key_name(key: metrics::Key) -> Seq<char>;

/// The labels in a key, each a label key and a label value, in order.
pub uninterp spec fn key_labels(key: metrics::Key) -> Seq<(Seq<char>, Seq<char>)>;

/// The characters of a metric name.
pub uninterp spec fn name_text(name: metrics::KeyName) -> Seq<char>;

/// The characters of a list of labels, in order.
pub open spec fn label_texts(labels: Seq<(String, String)>) -> Seq<(Seq<char>, Seq<char>)> {
    labels.map_values(|l: (String, String)| (l.0@, l.1@))
}

/// `Key::name`: the name that the key was made with.
pub assume_specification[ metrics::Key::name ](key: &metrics::Key) -> (r: &str)
    ensures
        r@ == key_name(*key),
;

/// `KeyName::as_str`: the characters of the name.
pub assume_specification[ metrics::KeyName::as_str ](name: &metrics::KeyName) -> (r: &str)
    ensures
        r@ == name_text(*name),
;

/// `<Key as Clone>::clone`: a copy has the same name and the same labels.
pub assume_specification[ <metrics::Key as Clone>::clone ](key: &metrics::Key) -> (r: metrics::Key)
    ensures
        key_name(r) == key_name(*key),
        key_labels(r) == key_labels(*key),
;

/// `Key::labels`, with `Label::key` and `Label::value` of each label: the
/// labels that the key was made with, in that order.
#[verifier::external_body]
fn labels(key: &metrics::Key) -> (r: Vec<(String, String)>)
    ensures
        label_texts(r@) == key_labels(*key),
{
    key.labels().map(|l| (l.key().to_string(), l.value().to_string())).collect()
}

/// A label as an attribute: its value is sent as a string.
pub open spec fn label_attribute(label: (Seq<char>, Seq<char>)) -> AttributeView {
    AttributeView { key: label.0, value: Json::Text(label.1), ty: AttributeType::String }
}

/// Labels as attributes, in order.
pub open spec fn label_attributes(labels: Seq<(Seq<char>, Seq<char>)>) -> Seq<AttributeView> {
    labels.map_values(|l: (Seq<char>, Seq<char>)| label_attribute(l))
}

/// The labels of a key as `string`-typed attributes, in order.
pub fn labels_to_attributes(key: &metrics::Key) -> (r: Vec<Attribute>)
    ensures
        buffer::attribute_views(r@) == label_attributes(key_labels(*key)),
{
    attributes_of(&labels(key))
}

/// Labels, each a label key and a label value, as `string`-typed attributes,
/// in order.
pub fn attributes_of(labels: &Vec<(String, String)>) -> (r: Vec<Attribute>)
    ensures
        buffer::attribute_views(r@) == label_attributes(label_texts(labels@)),
{
    let mut attributes: Vec<Attribute> = Vec::new();
    for i in 0..labels.len()
        invariant
            attributes.len() == i,
            forall|k: int|
                0 <= k < i ==> #[trigger] attributes@[k]@ == label_attribute(
                    label_texts(labels@)[k],
                ),
    {
        let label = &labels[i];
        attributes.push(
            Attribute {
                key: label.0.clone(),
                value: json::text_value(label.1.as_str()),
                ty: AttributeType::String,
            },
        );
    }
    assert(buffer::attribute_views(attributes@) =~= label_attributes(label_texts(labels@)));
    attributes
}

} // verus!
