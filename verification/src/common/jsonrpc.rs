//! Combining the schemas of a function into the one schema of its tool.

use crate::json::{
    as_object, clone_object, entries_of, json_of, json_text_value, lemma_upsert_second,
    new_object, object_insert, object_value, parse_json, text_value, upsert, Entries, Json,
    JsonObject,
};
use serde_json::Value;
use vstd::prelude::*;

verus! {

/// A schema with its description: an object takes the description under
/// `"description"`; any other value, and any schema without a description,
/// stays as it is.
pub open spec fn described(schema: Json, description: Option<Seq<char>>) -> Json {
    match (schema, description) {
        (Json::Object(entries), Some(text)) => Json::Object(
            upsert(entries, "description"@, Json::Text(text)),
        ),
        _ => schema,
    }
}

/// The object schema whose properties are the given ones. Nothing is
/// required of a value beyond what each property's own schema asks.
pub open spec fn combined_schema(properties: Entries) -> Entries {
    seq![("type"@, Json::Text("object"@)), ("properties"@, Json::Object(properties))]
}

/// A schema text that is not JSON.
#[derive(Clone, Copy, Debug, PartialEq, Eq, Structural)]
pub struct SchemaError;

/// Collects named schemas and combines them to one object schema.
pub struct SchemaCombiner {
    properties: JsonObject,
}

impl View for SchemaCombiner {
    type V = Entries;

    /// The named schemas added so far, in the order in which their names
    /// were first added.
    closed spec fn view(&self) -> Entries {
        entries_of(self.properties)
    }
}

impl SchemaCombiner {
    /// A combiner without schemas.
    pub fn new() -> (combiner: Self)
        ensures
            combiner@ == Seq::<(Seq<char>, Json)>::empty(),
    {
        SchemaCombiner { properties: new_object() }
    }

    /// Adds a parsed schema under `key`, with its description. A key that
    /// was added before keeps its place and takes the new schema.
    pub fn add_schema(&mut self, key: &str, schema: Value, description: Option<String>)
        ensures
            final(self)@ == upsert(
                old(self)@,
                key@,
                described(json_of(schema), crate::data::text_view(description)),
            ),
    {
        let entry = match description {
            Some(text) => match as_object(&schema) {
                Some(entries) => {
                    let mut annotated = clone_object(entries);
                    object_insert(&mut annotated, "description".to_owned(), text_value(text));
                    object_value(annotated)
                },
                None => schema,
            },
            None => schema,
        };
        object_insert(&mut self.properties, key.to_owned(), entry);
    }

    /// Parses a schema text as JSON and adds it under `key`. A text that is
    /// not JSON is refused and changes nothing.
    pub fn add_schema_from_string(
        &mut self,
        key: &str,
        schema: &str,
        description: Option<String>,
    ) -> (added: Result<(), SchemaError>)
        ensures
            match added {
                Ok(_) => json_text_value(schema@) matches Some(parsed) && final(self)@ == upsert(
                    old(self)@,
                    key@,
                    described(parsed, crate::data::text_view(description)),
                ),
                Err(_) => json_text_value(schema@) is None && final(self)@ == old(self)@,
            },
    {
        match parse_json(schema) {
            Some(parsed) => {
                self.add_schema(key, parsed, description);
                Ok(())
            },
            None => Err(SchemaError),
        }
    }

    /// The object schema with one property for each schema added, in the
    /// order of adding. Without schemas its properties are empty.
    pub fn generate_combined_schema(&self) -> (schema: JsonObject)
        ensures
            entries_of(schema) == combined_schema(self@),
    {
        let mut schema = new_object();
        object_insert(&mut schema, "type".to_owned(), text_value("object".to_owned()));
        object_insert(
            &mut schema,
            "properties".to_owned(),
            object_value(clone_object(&self.properties)),
        );
        proof {
            reveal_strlit("type");
            reveal_strlit("properties");
            assert("type"@.len() == 4 && "properties"@.len() == 10);
            lemma_upsert_second(
                "type"@,
                Json::Text("object"@),
                "properties"@,
                Json::Object(self@),
            );
        }
        schema
    }
}

/// A combiner that was given nothing yields an object schema without
/// properties.
pub proof fn lemma_empty_combiner_has_no_properties()
    ensures
        combined_schema(Seq::empty()) == seq![
            ("type"@, Json::Text("object"@)),
            ("properties"@, Json::Object(Seq::empty())),
        ],
{
}

/// Adding a schema under `"settings"` and then one under `"arguments"` to
/// a combiner without schemas yields an object schema with exactly these
/// two properties, in that order.
pub proof fn lemma_settings_then_arguments(settings: Json, arguments: Json)
    ensures
        combined_schema(
            upsert(upsert(Seq::empty(), "settings"@, settings), "arguments"@, arguments),
        ) == seq![
            ("type"@, Json::Text("object"@)),
            (
                "properties"@,
                Json::Object(seq![("settings"@, settings), ("arguments"@, arguments)]),
            ),
        ],
{
    reveal_strlit("settings");
    reveal_strlit("arguments");
    assert("settings"@.len() == 8 && "arguments"@.len() == 9);
    lemma_upsert_second("settings"@, settings, "arguments"@, arguments);
}

} // verus!
