//! The schema that a tool publishes for its arguments: a JSON object that
//! names each argument with its type and a help text.

use vstd::prelude::*;
use serde_json::Value;
use crate::json::{array, empty_object, from_text, set_member, shape, shapes, JsonShape};

verus! {

/// An argument of type `kind` with the help text `help`.
pub open spec fn property_shape(kind: Seq<char>, help: Seq<char>) -> JsonShape {
    JsonShape::Object(Map::empty()).with("type"@, JsonShape::String(kind)).with(
        "description"@,
        JsonShape::String(help),
    )
}

/// A text argument that takes one of `choices`.
pub open spec fn choice_shape(choices: JsonShape, help: Seq<char>) -> JsonShape {
    JsonShape::Object(Map::empty()).with("type"@, JsonShape::String("string"@)).with(
        "enum"@,
        choices,
    ).with("description"@, JsonShape::String(help))
}

/// An argument that is a list of items of type `item_kind`.
pub open spec fn list_shape(item_kind: Seq<char>, help: Seq<char>) -> JsonShape {
    JsonShape::Object(Map::empty()).with("type"@, JsonShape::String("array"@)).with(
        "items"@,
        JsonShape::Object(Map::empty()).with("type"@, JsonShape::String(item_kind)),
    ).with("description"@, JsonShape::String(help))
}

/// The schema of an object with the arguments `properties`, of which those
/// in `required`, where that is given, must be there.
pub open spec fn object_shape(properties: JsonShape, required: Option<JsonShape>) -> JsonShape {
    let plain = JsonShape::Object(Map::empty()).with("type"@, JsonShape::String("object"@)).with(
        "properties"@,
        properties,
    );
    match required {
        Some(names) => plain.with("required"@, names),
        None => plain,
    }
}

/// An argument of type `kind` with the help text `help`.
pub fn property(kind: &str, help: &str) -> (p: Value)
    ensures
        shape(p) == property_shape(kind@, help@),
{
    let mut p = empty_object();
    set_member(&mut p, "type", from_text(kind));
    set_member(&mut p, "description", from_text(help));
    p
}

/// A text argument that takes one of `choices`.
pub fn choice(choices: Value, help: &str) -> (p: Value)
    ensures
        shape(p) == choice_shape(shape(choices), help@),
{
    let mut p = empty_object();
    set_member(&mut p, "type", from_text("string"));
    set_member(&mut p, "enum", choices);
    set_member(&mut p, "description", from_text(help));
    p
}

/// An argument that is a list of items of type `item_kind`.
pub fn list_property(item_kind: &str, help: &str) -> (p: Value)
    ensures
        shape(p) == list_shape(item_kind@, help@),
{
    let mut items = empty_object();
    set_member(&mut items, "type", from_text(item_kind));
    let mut p = empty_object();
    set_member(&mut p, "type", from_text("array"));
    set_member(&mut p, "items", items);
    set_member(&mut p, "description", from_text(help));
    p
}

/// The schema of an object with the arguments `properties`.
pub fn object_schema(properties: Value, required: Option<Value>) -> (schema: Value)
    ensures
        shape(schema) == object_shape(
            shape(properties),
            match required {
                Some(names) => Some(shape(names)),
                None => None,
            },
        ),
{
    let mut schema = empty_object();
    set_member(&mut schema, "type", from_text("object"));
    set_member(&mut schema, "properties", properties);
    match required {
        Some(names) => {
            set_member(&mut schema, "required", names);
        },
        None => {},
    }
    schema
}

/// Adds the text `text` to a list of JSON values.
pub fn push_text(list: &mut Vec<Value>, text: &str)
    ensures
        shapes(final(list)@) == shapes(old(list)@).push(JsonShape::String(text@)),
{
    list.push(from_text(text));
    assert(shapes(final(list)@) =~= shapes(old(list)@).push(JsonShape::String(text@)));
}

/// A list of JSON values without entries.
pub fn no_values() -> (list: Vec<Value>)
    ensures
        shapes(list@) == Seq::<JsonShape>::empty(),
{
    let list: Vec<Value> = Vec::new();
    assert(shapes(list@) =~= Seq::<JsonShape>::empty());
    list
}

} // verus!
