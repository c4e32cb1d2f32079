use proxy_server::common::jsonrpc::{SchemaCombiner, SchemaError};
use proxy_server::json::JsonObject;
use serde_json::Value;

fn value(text: &str) -> Value {
    serde_json::from_str::<Value>(text).unwrap()
}

fn object(text: &str) -> JsonObject {
    match value(text) {
        Value::Object(map) => map,
        other => panic!("not an object: {}", other),
    }
}

fn keys(object: &JsonObject) -> Vec<String> {
    object.keys().cloned().collect()
}

#[test]
fn empty_combiner_yields_object_schema_without_properties() {
    let schema = SchemaCombiner::new().generate_combined_schema();
    assert_eq!(schema, object(r#"{"type":"object","properties":{}}"#));
    assert_eq!(keys(&schema), vec!["type", "properties"]);
    assert_eq!(Value::Object(schema).to_string(), r#"{"type":"object","properties":{}}"#);
}

#[test]
fn settings_then_arguments_are_the_two_properties_in_that_order() {
    let mut combiner = SchemaCombiner::new();
    assert_eq!(combiner.add_schema_from_string("settings", r#"{"type":"object"}"#, None), Ok(()));
    assert_eq!(
        combiner.add_schema_from_string(
            "arguments",
            r#"{"type":"object","properties":{"text":{"type":"string"}}}"#,
            None
        ),
        Ok(())
    );
    let schema = combiner.generate_combined_schema();
    let properties = schema.get("properties").unwrap().as_object().unwrap();
    assert_eq!(keys(properties), vec!["settings", "arguments"]);
    assert_eq!(
        Value::Object(schema).to_string(),
        r#"{"type":"object","properties":{"settings":{"type":"object"},"arguments":{"type":"object","properties":{"text":{"type":"string"}}}}}"#
    );
}

#[test]
fn properties_follow_insertion_order_not_key_order() {
    let mut combiner = SchemaCombiner::new();
    for key in ["zeta", "alpha", "mid"] {
        assert_eq!(combiner.add_schema_from_string(key, "{}", None), Ok(()));
    }
    let schema = combiner.generate_combined_schema();
    let properties = schema.get("properties").unwrap().as_object().unwrap();
    assert_eq!(keys(properties), vec!["zeta", "alpha", "mid"]);
}

#[test]
fn description_is_set_on_object_schemas() {
    let mut combiner = SchemaCombiner::new();
    assert_eq!(
        combiner.add_schema_from_string(
            "settings",
            r#"{"type":"object"}"#,
            Some("Tool init settings".to_string())
        ),
        Ok(())
    );
    assert_eq!(
        Value::Object(combiner.generate_combined_schema()),
        value(
            r#"{"type":"object","properties":{"settings":{"type":"object","description":"Tool init settings"}}}"#
        )
    );
}

#[test]
fn description_replaces_the_schemas_own_in_place() {
    let mut combiner = SchemaCombiner::new();
    combiner.add_schema(
        "arguments",
        value(r#"{"description":"old","type":"string"}"#),
        Some("new".to_string()),
    );
    let schema = combiner.generate_combined_schema();
    let entry = schema.get("properties").unwrap().get("arguments").unwrap();
    assert_eq!(entry.to_string(), r#"{"description":"new","type":"string"}"#);
}

#[test]
fn description_leaves_other_values_alone() {
    let mut combiner = SchemaCombiner::new();
    combiner.add_schema("flag", Value::Bool(true), Some("ignored".to_string()));
    let schema = combiner.generate_combined_schema();
    assert_eq!(schema.get("properties").unwrap().get("flag"), Some(&Value::Bool(true)));
}

#[test]
fn text_that_is_not_json_is_refused_and_changes_nothing() {
    let mut combiner = SchemaCombiner::new();
    assert_eq!(combiner.add_schema_from_string("settings", "{}", None), Ok(()));
    assert_eq!(combiner.add_schema_from_string("arguments", "{not json", None), Err(SchemaError));
    assert_eq!(combiner.add_schema_from_string("arguments", "", None), Err(SchemaError));
    assert_eq!(combiner.add_schema_from_string("arguments", "key: value", None), Err(SchemaError));
    assert_eq!(
        combiner.generate_combined_schema(),
        object(r#"{"type":"object","properties":{"settings":{}}}"#)
    );
}

#[test]
fn adding_a_key_again_keeps_its_place() {
    let mut combiner = SchemaCombiner::new();
    assert_eq!(combiner.add_schema_from_string("a", r#"{"v":1}"#, None), Ok(()));
    assert_eq!(combiner.add_schema_from_string("b", r#"{"v":2}"#, None), Ok(()));
    assert_eq!(combiner.add_schema_from_string("a", r#"{"v":3}"#, None), Ok(()));
    let schema = combiner.generate_combined_schema();
    assert_eq!(
        schema.get("properties").unwrap().to_string(),
        r#"{"a":{"v":3},"b":{"v":2}}"#
    );
}
