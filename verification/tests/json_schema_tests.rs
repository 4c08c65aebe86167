use gemini_client::json::JsonValue;
use gemini_client::json_schema;
use serde_json::Value;

fn to_value(j: &JsonValue) -> Value {
    match j {
        JsonValue::Null => Value::Null,
        JsonValue::Bool(b) => Value::Bool(*b),
        JsonValue::Number(n) => serde_json::from_str(n).unwrap(),
        JsonValue::String(s) => Value::String(s.clone()),
        JsonValue::Array(a) => Value::Array(a.iter().map(to_value).collect()),
        JsonValue::Object(m) => {
            let mut map = serde_json::Map::new();
            for (k, v) in m {
                map.insert(k.clone(), to_value(v));
            }
            Value::Object(map)
        }
    }
}

fn parse(text: &str) -> Value {
    serde_json::from_str(text).unwrap()
}

#[test]
fn string_schema_has_type_string() {
    assert_eq!(to_value(&json_schema::string()), parse(r#"{"type":"string"}"#));
}

#[test]
fn string_with_desc_has_description() {
    assert_eq!(
        to_value(&json_schema::string_with_desc("A name")),
        parse(r#"{"type":"string","description":"A name"}"#)
    );
}

#[test]
fn simple_type_schemas() {
    assert_eq!(to_value(&json_schema::integer()), parse(r#"{"type":"integer"}"#));
    assert_eq!(to_value(&json_schema::number()), parse(r#"{"type":"number"}"#));
    assert_eq!(to_value(&json_schema::boolean()), parse(r#"{"type":"boolean"}"#));
}

#[test]
fn integer_range_writes_signed_bounds() {
    assert_eq!(
        to_value(&json_schema::integer_range(-5, 10)),
        parse(r#"{"type":"integer","minimum":-5,"maximum":10}"#)
    );
    assert_eq!(
        to_value(&json_schema::integer_range(i64::MIN, i64::MAX)),
        parse(r#"{"type":"integer","minimum":-9223372036854775808,"maximum":9223372036854775807}"#)
    );
}

#[test]
fn nullable_lists_both_types() {
    assert_eq!(to_value(&json_schema::nullable("string")), parse(r#"{"type":["string","null"]}"#));
}

#[test]
fn enum_values_keeps_order() {
    assert_eq!(
        to_value(&json_schema::enum_values(&["red", "green", "blue"])),
        parse(r#"{"type":"string","enum":["red","green","blue"]}"#)
    );
}

#[test]
fn array_and_bounded_array() {
    assert_eq!(
        to_value(&json_schema::array(json_schema::string())),
        parse(r#"{"type":"array","items":{"type":"string"}}"#)
    );
    assert_eq!(
        to_value(&json_schema::array_bounded(json_schema::integer(), 1, 5)),
        parse(r#"{"type":"array","items":{"type":"integer"},"minItems":1,"maxItems":5}"#)
    );
}

#[test]
fn object_schema_with_required() {
    let schema = json_schema::object(
        &[("name", json_schema::string()), ("age", json_schema::integer())],
        &["name", "age"],
    );
    assert_eq!(
        to_value(&schema),
        parse(
            r#"{"type":"object","properties":{"name":{"type":"string"},"age":{"type":"integer"}},"required":["name","age"]}"#
        )
    );
}

#[test]
fn object_later_property_wins() {
    let schema = json_schema::object(&[("a", json_schema::string()), ("a", json_schema::boolean())], &[]);
    assert_eq!(
        to_value(&schema),
        parse(r#"{"type":"object","properties":{"a":{"type":"boolean"}},"required":[]}"#)
    );
    if let JsonValue::Object(m) = &schema {
        if let JsonValue::Object(props) = &m[1].1 {
            assert_eq!(props.len(), 1);
        } else {
            panic!("properties are not an object");
        }
    } else {
        panic!("schema is not an object");
    }
}

#[test]
fn object_open_allows_additional_properties() {
    let schema = json_schema::object_open(&[("x", json_schema::number())], &["x"]);
    assert_eq!(
        to_value(&schema),
        parse(
            r#"{"type":"object","properties":{"x":{"type":"number"}},"required":["x"],"additionalProperties":true}"#
        )
    );
}

#[test]
fn object_ordered_has_property_ordering() {
    let schema = json_schema::object_ordered(
        &[("name", json_schema::string()), ("age", json_schema::integer())],
        &["name"],
        &["name", "age"],
    );
    assert_eq!(
        to_value(&schema),
        parse(
            r#"{"type":"object","properties":{"name":{"type":"string"},"age":{"type":"integer"}},"required":["name"],"propertyOrdering":["name","age"]}"#
        )
    );
}

#[test]
fn with_property_ordering_sets_or_replaces() {
    let schema = json_schema::with_property_ordering(json_schema::object(&[], &[]), &["b", "a"]);
    assert_eq!(
        to_value(&schema),
        parse(r#"{"type":"object","properties":{},"required":[],"propertyOrdering":["b","a"]}"#)
    );
    let again = json_schema::with_property_ordering(schema, &["a"]);
    assert_eq!(
        to_value(&again),
        parse(r#"{"type":"object","properties":{},"required":[],"propertyOrdering":["a"]}"#)
    );
    if let JsonValue::Object(m) = &again {
        assert_eq!(m.len(), 4);
    }
}

#[test]
fn with_property_ordering_leaves_non_objects() {
    let v = json_schema::with_property_ordering(JsonValue::Bool(true), &["a"]);
    assert_eq!(to_value(&v), Value::Bool(true));
}

#[test]
fn formatted_strings() {
    assert_eq!(to_value(&json_schema::datetime()), parse(r#"{"type":"string","format":"date-time"}"#));
    assert_eq!(to_value(&json_schema::date()), parse(r#"{"type":"string","format":"date"}"#));
    assert_eq!(to_value(&json_schema::time()), parse(r#"{"type":"string","format":"time"}"#));
}

#[test]
fn json_get_reads_what_json_set_wrote() {
    let mut v = JsonValue::Object(vec![("a".to_string(), JsonValue::Null)]);
    gemini_client::json::json_set(&mut v, "b", JsonValue::Bool(false));
    gemini_client::json::json_set(&mut v, "a", JsonValue::Bool(true));
    assert_eq!(to_value(gemini_client::json::json_get(&v, "a").unwrap()), Value::Bool(true));
    assert_eq!(to_value(gemini_client::json::json_get(&v, "b").unwrap()), Value::Bool(false));
    assert!(gemini_client::json::json_get(&v, "c").is_none());
    assert!(gemini_client::json::json_get(&JsonValue::Null, "a").is_none());
}

#[test]
fn json_clone_is_equal() {
    let schema = json_schema::object(&[("n", json_schema::integer_range(1, 2))], &["n"]);
    let copy = schema.clone();
    assert_eq!(to_value(&copy), to_value(&schema));
}
