//! Builders of JSON schemas for structured output.
use vstd::prelude::*;
use crate::json::{
    Json, JsonValue, array_of, json_clone, json_set, members_of_pairs, object_of, pairs_view,
    set_member, string_array, string_value, strings_view,
};
use crate::text::{decimal, owned, push_decimal, push_signed_decimal, signed_decimal};

verus! {

/// The schema `{"type": t}`.
pub open spec fn typed(t: Seq<char>) -> Json {
    Json::Object(seq![("type"@, Json::Str(t))])
}

/// The schema `{"type": "string", "format": f}`.
pub open spec fn formatted_string(f: Seq<char>) -> Json {
    Json::Object(seq![("type"@, Json::Str("string"@)), ("format"@, Json::Str(f))])
}

/// The views of the property pairs of an object schema.
pub open spec fn properties_view(properties: Seq<(&str, JsonValue)>) -> Seq<(Seq<char>, Json)> {
    properties.map_values(|p: (&str, JsonValue)| (p.0@, p.1@))
}

/// The members shared by the object schemas: the type, the properties (a later
/// pair with the key of an earlier one replacing its value) and the required names.
pub open spec fn object_members(properties: Seq<(&str, JsonValue)>, required: Seq<&str>) -> Seq<(Seq<char>, Json)> {
    seq![
        ("type"@, Json::Str("object"@)),
        ("properties"@, Json::Object(members_of_pairs(properties_view(properties)))),
        ("required"@, Json::Array(strings_view(required))),
    ]
}

fn member(key: &str, value: JsonValue) -> (r: (String, JsonValue))
    ensures
        r.0@ == key@,
        r.1@ == value@,
{
    (owned(key), value)
}

fn type_member(t: &str) -> (r: (String, JsonValue))
    ensures
        r.0@ == "type"@,
        r.1@ == Json::Str(t@),
{
    member("type", string_value(t))
}

fn typed_schema(t: &str) -> (r: JsonValue)
    ensures
        r@ == typed(t@),
{
    let m = vec![type_member(t)];
    let ghost mv = m@;
    let r = object_of(m);
    assert(pairs_view(mv) =~= seq![("type"@, Json::Str(t@))]);
    r
}

fn formatted(f: &str) -> (r: JsonValue)
    ensures
        r@ == formatted_string(f@),
{
    let m = vec![type_member("string"), member("format", string_value(f))];
    let ghost mv = m@;
    let r = object_of(m);
    assert(pairs_view(mv) =~= seq![("type"@, Json::Str("string"@)), ("format"@, Json::Str(f@))]);
    r
}

/// `{"type": "string"}`.
pub fn string() -> (r: JsonValue)
    ensures
        r@ == typed("string"@),
{
    typed_schema("string")
}

/// `{"type": "string", "description": description}`.
pub fn string_with_desc(description: &str) -> (r: JsonValue)
    ensures
        r@ == Json::Object(seq![("type"@, Json::Str("string"@)), ("description"@, Json::Str(description@))]),
{
    let m = vec![type_member("string"), member("description", string_value(description))];
    let ghost mv = m@;
    let r = object_of(m);
    assert(pairs_view(mv) =~= seq![("type"@, Json::Str("string"@)), ("description"@, Json::Str(description@))]);
    r
}

/// `{"type": "integer"}`.
pub fn integer() -> (r: JsonValue)
    ensures
        r@ == typed("integer"@),
{
    typed_schema("integer")
}

fn signed_number(n: i64) -> (r: JsonValue)
    ensures
        r@ == Json::Number(signed_decimal(n as int)),
{
    let mut s = String::new();
    push_signed_decimal(&mut s, n);
    assert(s@ =~= signed_decimal(n as int));
    JsonValue::Number(s)
}

fn count_number(n: usize) -> (r: JsonValue)
    ensures
        r@ == Json::Number(decimal(n as nat)),
{
    let mut s = String::new();
    push_decimal(&mut s, n as u64);
    assert(s@ =~= decimal(n as nat));
    JsonValue::Number(s)
}

/// `{"type": "integer", "minimum": min, "maximum": max}`.
pub fn integer_range(min: i64, max: i64) -> (r: JsonValue)
    ensures
        r@ == Json::Object(
            seq![
                ("type"@, Json::Str("integer"@)),
                ("minimum"@, Json::Number(signed_decimal(min as int))),
                ("maximum"@, Json::Number(signed_decimal(max as int))),
            ],
        ),
{
    let m = vec![
        type_member("integer"),
        member("minimum", signed_number(min)),
        member("maximum", signed_number(max)),
    ];
    let ghost mv = m@;
    let r = object_of(m);
    assert(pairs_view(mv) =~= seq![
        ("type"@, Json::Str("integer"@)),
        ("minimum"@, Json::Number(signed_decimal(min as int))),
        ("maximum"@, Json::Number(signed_decimal(max as int))),
    ]);
    r
}

/// `{"type": "number"}`.
pub fn number() -> (r: JsonValue)
    ensures
        r@ == typed("number"@),
{
    typed_schema("number")
}

/// `{"type": "boolean"}`.
pub fn boolean() -> (r: JsonValue)
    ensures
        r@ == typed("boolean"@),
{
    typed_schema("boolean")
}

/// `{"type": [inner_type, "null"]}`.
pub fn nullable(inner_type: &str) -> (r: JsonValue)
    ensures
        r@ == Json::Object(seq![("type"@, Json::Array(seq![Json::Str(inner_type@), Json::Str("null"@)]))]),
{
    let types = vec![string_value(inner_type), string_value("null")];
    let ghost tv = types@;
    let arr = array_of(types);
    assert(tv.map_values(|e: JsonValue| e@) =~= seq![Json::Str(inner_type@), Json::Str("null"@)]);
    let m = vec![member("type", arr)];
    let ghost mv = m@;
    let r = object_of(m);
    assert(pairs_view(mv) =~= seq![("type"@, Json::Array(seq![Json::Str(inner_type@), Json::Str("null"@)]))]);
    r
}

/// `{"type": "string", "enum": values}`.
pub fn enum_values(values: &[&str]) -> (r: JsonValue)
    ensures
        r@ == Json::Object(seq![("type"@, Json::Str("string"@)), ("enum"@, Json::Array(strings_view(values@)))]),
{
    let m = vec![type_member("string"), member("enum", string_array(values))];
    let ghost mv = m@;
    let r = object_of(m);
    assert(pairs_view(mv) =~= seq![("type"@, Json::Str("string"@)), ("enum"@, Json::Array(strings_view(values@)))]);
    r
}

/// `{"type": "array", "items": items}`.
pub fn array(items: JsonValue) -> (r: JsonValue)
    ensures
        r@ == Json::Object(seq![("type"@, Json::Str("array"@)), ("items"@, items@)]),
{
    let ghost iv = items@;
    let m = vec![type_member("array"), member("items", items)];
    let ghost mv = m@;
    let r = object_of(m);
    assert(pairs_view(mv) =~= seq![("type"@, Json::Str("array"@)), ("items"@, iv)]);
    r
}

/// `{"type": "array", "items": items, "minItems": min, "maxItems": max}`.
pub fn array_bounded(items: JsonValue, min: usize, max: usize) -> (r: JsonValue)
    ensures
        r@ == Json::Object(
            seq![
                ("type"@, Json::Str("array"@)),
                ("items"@, items@),
                ("minItems"@, Json::Number(decimal(min as nat))),
                ("maxItems"@, Json::Number(decimal(max as nat))),
            ],
        ),
{
    let ghost iv = items@;
    let m = vec![
        type_member("array"),
        member("items", items),
        member("minItems", count_number(min)),
        member("maxItems", count_number(max)),
    ];
    let ghost mv = m@;
    let r = object_of(m);
    assert(pairs_view(mv) =~= seq![
        ("type"@, Json::Str("array"@)),
        ("items"@, iv),
        ("minItems"@, Json::Number(decimal(min as nat))),
        ("maxItems"@, Json::Number(decimal(max as nat))),
    ]);
    r
}

/// The object whose members are set from `properties` in turn.
fn properties_object(properties: &[(&str, JsonValue)]) -> (r: JsonValue)
    ensures
        r@ == Json::Object(members_of_pairs(properties_view(properties@))),
{
    let mut obj = object_of(Vec::new());
    assert(pairs_view(Seq::<(String, JsonValue)>::empty()) =~= Seq::empty());
    let mut i: usize = 0;
    while i < properties.len()
        invariant
            i <= properties@.len(),
            obj@ == Json::Object(members_of_pairs(properties_view(properties@).take(i as int))),
        decreases properties@.len() - i,
    {
        let ghost before = properties_view(properties@).take(i as int);
        let (key, value) = &properties[i];
        json_set(&mut obj, key, json_clone(value));
        i = i + 1;
        proof {
            let now = properties_view(properties@).take(i as int);
            assert(now.drop_last() =~= before);
            assert(now.last() == ((*key)@, (*value)@));
        }
    }
    assert(properties_view(properties@).take(properties@.len() as int) =~= properties_view(properties@));
    obj
}

fn object_base(properties: &[(&str, JsonValue)], required: &[&str]) -> (r: Vec<(String, JsonValue)>)
    ensures
        pairs_view(r@) == object_members(properties@, required@),
{
    let r = vec![
        type_member("object"),
        member("properties", properties_object(properties)),
        member("required", string_array(required)),
    ];
    assert(pairs_view(r@) =~= object_members(properties@, required@));
    r
}

/// `{"type": "object", "properties": ..., "required": required}`, the properties
/// set from the pairs in turn.
pub fn object(properties: &[(&str, JsonValue)], required: &[&str]) -> (r: JsonValue)
    ensures
        r@ == Json::Object(object_members(properties@, required@)),
{
    object_of(object_base(properties, required))
}

/// An object schema, as [`object`] gives it, that also allows additional properties.
pub fn object_open(properties: &[(&str, JsonValue)], required: &[&str]) -> (r: JsonValue)
    ensures
        r@ == Json::Object(object_members(properties@, required@).push(("additionalProperties"@, Json::Bool(true)))),
{
    let mut m = object_base(properties, required);
    let ghost before = m@;
    m.push(member("additionalProperties", JsonValue::Bool(true)));
    assert(pairs_view(m@) =~= pairs_view(before).push(("additionalProperties"@, Json::Bool(true))));
    object_of(m)
}

/// An object schema, as [`object`] gives it, with an explicit order of its properties.
pub fn object_ordered(properties: &[(&str, JsonValue)], required: &[&str], property_ordering: &[&str]) -> (r: JsonValue)
    ensures
        r@ == Json::Object(
            object_members(properties@, required@).push(("propertyOrdering"@, Json::Array(strings_view(property_ordering@)))),
        ),
{
    let mut m = object_base(properties, required);
    let ghost before = m@;
    m.push(member("propertyOrdering", string_array(property_ordering)));
    assert(pairs_view(m@) =~= pairs_view(before).push(("propertyOrdering"@, Json::Array(strings_view(property_ordering@)))));
    object_of(m)
}

/// `schema` with its member `propertyOrdering` set to `ordering` when it is an
/// object, and unchanged otherwise.
pub fn with_property_ordering(schema: JsonValue, ordering: &[&str]) -> (r: JsonValue)
    ensures
        r@ == match schema@ {
            Json::Object(m) => Json::Object(set_member(m, "propertyOrdering"@, Json::Array(strings_view(ordering@)))),
            _ => schema@,
        },
{
    let mut schema = schema;
    json_set(&mut schema, "propertyOrdering", string_array(ordering));
    schema
}

/// `{"type": "string", "format": "date-time"}`.
pub fn datetime() -> (r: JsonValue)
    ensures
        r@ == formatted_string("date-time"@),
{
    formatted("date-time")
}

/// `{"type": "string", "format": "date"}`.
pub fn date() -> (r: JsonValue)
    ensures
        r@ == formatted_string("date"@),
{
    formatted("date")
}

/// `{"type": "string", "format": "time"}`.
pub fn time() -> (r: JsonValue)
    ensures
        r@ == formatted_string("time"@),
{
    formatted("time")
}

} // verus!
