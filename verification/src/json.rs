//! The context as the JSON document that the template engine reads.

use vstd::prelude::*;
use vstd::string::*;
use crate::context::{ClassElement, ClassElementView, Context, ContextView};

verus! {

/// The mathematical value of a JSON document. A context holds neither `Null`
/// nor a `Number`; they stand here so that every document has a value.
pub enum Json {
    Null,
    Bool(bool),
    /// A number, by its decimal text.
    Number(Seq<char>),
    Text(Seq<char>),
    List(Seq<Json>),
    Record(Map<Seq<char>, Json>),
}

/// `serde_json::Value`, the form in which the template engine reads a context.
/// What a value holds is known through [`json_of`] alone.
#[verifier::external_type_specification]
#[verifier::external_body]
pub struct ExValue(serde_json::Value);

/// The document that a `serde_json::Value` holds.
pub uninterp spec fn json_of(value: serde_json::Value) -> Json;

/// The documents that the values of `items` hold.
pub open spec fn jsons_of(items: Seq<serde_json::Value>) -> Seq<Json> {
    items.map_values(|item: serde_json::Value| json_of(item))
}

/// The record with the fields `fields`, each a key and the document under it.
pub open spec fn record_of(fields: Seq<(String, serde_json::Value)>) -> Map<Seq<char>, Json>
    decreases fields.len(),
{
    if fields.len() == 0 {
        Map::empty()
    } else {
        record_of(fields.drop_last()).insert(fields.last().0@, json_of(fields.last().1))
    }
}

/// No two fields have the same key.
pub open spec fn keys_distinct(fields: Seq<(String, serde_json::Value)>) -> bool {
    forall|i: int, j: int|
        0 <= i < j < fields.len() ==> (#[trigger] fields[i]).0@ != (#[trigger] fields[j]).0@
}

/// `serde_json::Value::Bool`: the JSON boolean `b`.
#[verifier::external_body]
pub(crate) fn json_bool(b: bool) -> (value: serde_json::Value)
    ensures
        json_of(value) == Json::Bool(b),
{
    serde_json::Value::Bool(b)
}

/// `serde_json::Value::String`: the JSON string with the characters of `s`.
#[verifier::external_body]
pub(crate) fn json_string(s: String) -> (value: serde_json::Value)
    ensures
        json_of(value) == Json::Text(s@),
{
    serde_json::Value::String(s)
}

/// `serde_json::Value::Array`: the JSON array of the documents in `items`, in
/// their order.
#[verifier::external_body]
pub(crate) fn json_array(items: Vec<serde_json::Value>) -> (value: serde_json::Value)
    ensures
        json_of(value) == Json::List(jsons_of(items@)),
{
    serde_json::Value::Array(items)
}

/// `serde_json::Value::Object` of the `serde_json::Map` collected from
/// `fields`: the JSON object that holds, under each key, the document that
/// the field with that key brings. The keys have to differ, since the map
/// keeps one field per key and does not say which.
#[verifier::external_body]
pub(crate) fn json_object(fields: Vec<(String, serde_json::Value)>) -> (value: serde_json::Value)
    requires
        keys_distinct(fields@),
    ensures
        json_of(value) == Json::Record(record_of(fields@)),
{
    serde_json::Value::Object(fields.into_iter().collect())
}

impl ClassElementView {
    /// The element as the JSON object that the templates read.
    pub open spec fn to_json(self) -> Json {
        Json::Record(
            Map::empty().insert("default_value"@, Json::Text(self.default_value)).insert(
                "device_config_namespace"@,
                Json::Text(self.device_config_namespace),
            ).insert("device_config_flag"@, Json::Text(self.device_config_flag)).insert(
                "flag_name_constant_suffix"@,
                Json::Text(self.flag_name_constant_suffix),
            ).insert("is_read_write"@, Json::Bool(self.is_read_write)).insert(
                "method_name"@,
                Json::Text(self.method_name),
            ),
        )
    }
}

impl ContextView {
    /// The context as the JSON object that the templates read.
    pub open spec fn to_json(self) -> Json {
        Json::Record(
            Map::empty().insert("package_name"@, Json::Text(self.package_name)).insert(
                "is_read_write"@,
                Json::Bool(self.is_read_write),
            ).insert(
                "class_elements"@,
                Json::List(self.class_elements.map_values(|element: ClassElementView| element.to_json())),
            ),
        )
    }
}

/// One more field at the end of `fields` adds its key and document to the
/// record.
proof fn lemma_record_push(fields: Seq<(String, serde_json::Value)>, field: (String, serde_json::Value))
    ensures
        record_of(fields.push(field)) == record_of(fields).insert(field.0@, json_of(field.1)),
{
    assert(fields.push(field).drop_last() == fields);
}

/// Appends the field `key` with the document `value`.
fn push_field(fields: &mut Vec<(String, serde_json::Value)>, key: &str, value: serde_json::Value)
    ensures
        final(fields)@ == old(fields)@.push(final(fields)@.last()),
        final(fields)@.len() == old(fields)@.len() + 1,
        final(fields)@.last().0@ == key@,
        final(fields)@.last().1 == value,
        record_of(final(fields)@) == record_of(old(fields)@).insert(key@, json_of(value)),
{
    let field = (String::from_str(key), value);
    proof {
        lemma_record_push(fields@, field);
    }
    fields.push(field);
}

/// The JSON object for `element`.
pub fn class_element_json(element: &ClassElement) -> (value: serde_json::Value)
    ensures
        json_of(value) == element@.to_json(),
{
    let mut fields: Vec<(String, serde_json::Value)> = Vec::new();
    push_field(&mut fields, "default_value", json_string(element.default_value.clone()));
    push_field(
        &mut fields,
        "device_config_namespace",
        json_string(element.device_config_namespace.clone()),
    );
    push_field(&mut fields, "device_config_flag", json_string(element.device_config_flag.clone()));
    push_field(
        &mut fields,
        "flag_name_constant_suffix",
        json_string(element.flag_name_constant_suffix.clone()),
    );
    push_field(&mut fields, "is_read_write", json_bool(element.is_read_write));
    push_field(&mut fields, "method_name", json_string(element.method_name.clone()));
    proof {
        reveal_strlit("default_value");
        reveal_strlit("device_config_namespace");
        reveal_strlit("device_config_flag");
        reveal_strlit("flag_name_constant_suffix");
        reveal_strlit("is_read_write");
        reveal_strlit("method_name");
        assert(fields@[0].0@ == "default_value"@);
        assert(fields@[1].0@ == "device_config_namespace"@);
        assert(fields@[2].0@ == "device_config_flag"@);
        assert(fields@[3].0@ == "flag_name_constant_suffix"@);
        assert(fields@[4].0@ == "is_read_write"@);
        assert(fields@[5].0@ == "method_name"@);
        assert(fields@.len() == 6);
        assert("default_value"@[0] != "is_read_write"@[0]);
        assert(keys_distinct(fields@));
    }
    json_object(fields)
}

/// The JSON object for `context`.
pub fn context_json(context: &Context) -> (value: serde_json::Value)
    ensures
        json_of(value) == context@.to_json(),
{
    let ghost wanted = context@.class_elements.map_values(
        |element: ClassElementView| element.to_json(),
    );
    let mut elements: Vec<serde_json::Value> = Vec::new();
    for i in 0..context.class_elements.len()
        invariant
            wanted == context@.class_elements.map_values(
                |element: ClassElementView| element.to_json(),
            ),
            jsons_of(elements@) == wanted.take(i as int),
    {
        let element = class_element_json(&context.class_elements[i]);
        assert(wanted.take(i + 1) == wanted.take(i as int).push(json_of(element)));
        assert(jsons_of(elements@.push(element)) == jsons_of(elements@).push(json_of(element)));
        elements.push(element);
    }
    assert(wanted.take(context.class_elements.len() as int) == wanted);
    let mut fields: Vec<(String, serde_json::Value)> = Vec::new();
    push_field(&mut fields, "package_name", json_string(context.package_name.clone()));
    push_field(&mut fields, "is_read_write", json_bool(context.is_read_write));
    push_field(&mut fields, "class_elements", json_array(elements));
    proof {
        reveal_strlit("package_name");
        reveal_strlit("is_read_write");
        reveal_strlit("class_elements");
        assert(fields@[0].0@ == "package_name"@);
        assert(fields@[1].0@ == "is_read_write"@);
        assert(fields@[2].0@ == "class_elements"@);
        assert(keys_distinct(fields@));
    }
    json_object(fields)
}

} // verus!
