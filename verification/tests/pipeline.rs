use askgql::decode::SchemaError;
use askgql::json_to_schema;

const SMALL_DOC: &str = r#"{
  "data": {
    "__schema": {
      "queryType": {"name": "Query"},
      "mutationType": null,
      "subscriptionType": null,
      "types": [
        {
          "kind": "OBJECT",
          "name": "Query",
          "description": "The root",
          "fields": [
            {
              "name": "user",
              "description": null,
              "args": [
                {
                  "name": "id",
                  "description": null,
                  "type": {"kind": "NON_NULL", "name": null, "ofType": {"kind": "SCALAR", "name": "ID", "ofType": null}},
                  "defaultValue": null
                }
              ],
              "type": {"kind": "OBJECT", "name": "User", "ofType": null},
              "isDeprecated": false,
              "deprecationReason": null
            }
          ],
          "inputFields": null,
          "interfaces": [],
          "enumValues": null,
          "possibleTypes": null
        },
        {
          "kind": "SCALAR",
          "name": "ID",
          "description": "An identifier",
          "fields": null,
          "inputFields": null,
          "interfaces": null,
          "enumValues": null,
          "possibleTypes": null
        }
      ],
      "directives": [
        {
          "name": "skip",
          "description": "Skips a field",
          "locations": ["FIELD", "FRAGMENT_SPREAD"],
          "args": [
            {
              "name": "if",
              "description": null,
              "type": {"kind": "NON_NULL", "name": null, "ofType": {"kind": "SCALAR", "name": "Boolean", "ofType": null}},
              "defaultValue": null
            }
          ]
        }
      ]
    }
  }
}"#;

#[test]
fn small_document_with_comments() {
    let out = json_to_schema(SMALL_DOC, true).unwrap();
    assert_eq!(
        out,
        "description: Skips a field\n\
         directive @skip(if: Boolean!) on FIELD | FRAGMENT_SPREAD\n\n\
         \"\"\"The root\"\"\"\n\
         type Query {\n  user(id: ID!): User\n}\n\
         \"\"\"An identifier\"\"\"\n\
         scalar ID\n"
    );
}

#[test]
fn small_document_without_comments() {
    let out = json_to_schema(SMALL_DOC, false).unwrap();
    assert_eq!(
        out,
        "directive @skip(if: Boolean!) on FIELD | FRAGMENT_SPREAD\n\n\
         type Query {\n  user(id: ID!): User\n}\n\
         scalar ID\n"
    );
}

#[test]
fn whitespace_in_the_json_is_irrelevant() {
    let compact = SMALL_DOC
        .lines()
        .map(|l| l.trim())
        .collect::<Vec<_>>()
        .join("");
    assert_ne!(SMALL_DOC, compact);
    assert_eq!(
        json_to_schema(SMALL_DOC, true).unwrap(),
        json_to_schema(&compact, true).unwrap()
    );
    assert_eq!(
        json_to_schema(SMALL_DOC, false).unwrap(),
        json_to_schema(&compact, false).unwrap()
    );
}

#[test]
fn top_level_list_type_is_a_model_invariant_error() {
    let doc = r#"{"data": {"__schema": {"types": [
        {"kind": "LIST", "name": "Listy", "description": null}
    ]}}}"#;
    match json_to_schema(doc, true) {
        Err(SchemaError::ModelInvariant(context)) => assert_eq!(context, "Listy"),
        other => panic!("expected a model-invariant error, got {:?}", other.is_ok()),
    }
}

#[test]
fn top_level_non_null_type_is_a_model_invariant_error() {
    let doc = r#"{"data": {"__schema": {"types": [
        {"kind": "NON_NULL", "name": "Bang", "description": null}
    ]}}}"#;
    match json_to_schema(doc, false) {
        Err(SchemaError::ModelInvariant(context)) => assert_eq!(context, "Bang"),
        other => panic!("expected a model-invariant error, got {:?}", other.is_ok()),
    }
}

#[test]
fn wrapper_without_of_type_is_a_model_invariant_error() {
    let doc = r#"{"data": {"__schema": {"types": [
        {"kind": "OBJECT", "name": "Q", "fields": [
            {"name": "f", "args": [], "type": {"kind": "LIST", "name": null, "ofType": null}, "isDeprecated": false}
        ]}
    ]}}}"#;
    match json_to_schema(doc, true) {
        Err(SchemaError::ModelInvariant(context)) => assert_eq!(context, "ofType"),
        _ => panic!("expected a model-invariant error"),
    }
}

#[test]
fn invalid_json_is_a_decode_error() {
    match json_to_schema("this is not json", true) {
        Err(SchemaError::Decode(context)) => assert_eq!(context, "json"),
        _ => panic!("expected a decode error"),
    }
}

#[test]
fn missing_data_key_is_a_decode_error() {
    match json_to_schema(r#"{"nope": 1}"#, true) {
        Err(SchemaError::Decode(context)) => assert_eq!(context, "data"),
        _ => panic!("expected a decode error"),
    }
}

#[test]
fn missing_schema_key_is_a_decode_error() {
    match json_to_schema(r#"{"data": {}}"#, true) {
        Err(SchemaError::Decode(context)) => assert_eq!(context, "__schema"),
        _ => panic!("expected a decode error"),
    }
}

#[test]
fn missing_types_key_is_a_decode_error() {
    match json_to_schema(r#"{"data": {"__schema": {"directives": []}}}"#, true) {
        Err(SchemaError::Decode(context)) => assert_eq!(context, "types"),
        _ => panic!("expected a decode error"),
    }
}

#[test]
fn type_without_name_is_a_decode_error() {
    let doc = r#"{"data": {"__schema": {"types": [{"kind": "SCALAR"}]}}}"#;
    match json_to_schema(doc, true) {
        Err(SchemaError::Decode(context)) => assert_eq!(context, "name"),
        _ => panic!("expected a decode error"),
    }
}

#[test]
fn unrecognized_kind_is_a_decode_error_naming_it() {
    let doc = r#"{"data": {"__schema": {"types": [{"kind": "FROB", "name": "X"}]}}}"#;
    match json_to_schema(doc, true) {
        Err(SchemaError::Decode(context)) => assert_eq!(context, "FROB"),
        _ => panic!("expected a decode error"),
    }
}

#[test]
fn non_string_kind_is_a_decode_error() {
    let doc = r#"{"data": {"__schema": {"types": [{"kind": 7, "name": "X"}]}}}"#;
    match json_to_schema(doc, true) {
        Err(SchemaError::Decode(context)) => assert_eq!(context, "kind"),
        _ => panic!("expected a decode error"),
    }
}

#[test]
fn missing_directives_key_is_an_empty_sequence() {
    let doc = r#"{"data": {"__schema": {"types": [
        {"kind": "SCALAR", "name": "S", "description": null}
    ]}}}"#;
    assert_eq!(json_to_schema(doc, true).unwrap(), "scalar S\n");
}

#[test]
fn null_directives_value_is_a_decode_error() {
    let doc = r#"{"data": {"__schema": {"types": [], "directives": null}}}"#;
    match json_to_schema(doc, true) {
        Err(SchemaError::Decode(context)) => assert_eq!(context, "directives"),
        _ => panic!("expected a decode error"),
    }
}

#[test]
fn null_description_counts_as_absent() {
    let doc = r#"{"data": {"__schema": {"types": [
        {"kind": "SCALAR", "name": "A", "description": null},
        {"kind": "SCALAR", "name": "B"}
    ]}}}"#;
    let out = json_to_schema(doc, true).unwrap();
    assert_eq!(out, "scalar A\nscalar B\n");
    assert!(!out.contains("\"\"\""));
}

#[test]
fn deprecation_is_decoded_but_never_rendered() {
    let doc = r#"{"data": {"__schema": {"types": [
        {"kind": "OBJECT", "name": "Q", "fields": [
            {"name": "old", "args": [], "type": {"kind": "SCALAR", "name": "Int", "ofType": null},
             "isDeprecated": true, "deprecationReason": "use new"}
        ]}
    ]}}}"#;
    let out = json_to_schema(doc, true).unwrap();
    assert_eq!(out, "type Q {\n  old: Int\n}\n");
    assert!(!out.contains("deprecated"));
}

#[test]
fn missing_is_deprecated_on_field_is_a_decode_error() {
    let doc = r#"{"data": {"__schema": {"types": [
        {"kind": "OBJECT", "name": "Q", "fields": [
            {"name": "f", "args": [], "type": {"kind": "SCALAR", "name": "Int", "ofType": null}}
        ]}
    ]}}}"#;
    match json_to_schema(doc, true) {
        Err(SchemaError::Decode(context)) => assert_eq!(context, "isDeprecated"),
        _ => panic!("expected a decode error"),
    }
}

#[test]
fn deeply_wrapped_type_reference_round_trips() {
    let doc = r#"{"data": {"__schema": {"types": [
        {"kind": "OBJECT", "name": "Q", "fields": [
            {"name": "m", "args": [],
             "type": {"kind": "NON_NULL", "name": null, "ofType":
                {"kind": "LIST", "name": null, "ofType":
                    {"kind": "NON_NULL", "name": null, "ofType":
                        {"kind": "LIST", "name": null, "ofType":
                            {"kind": "NON_NULL", "name": null, "ofType":
                                {"kind": "SCALAR", "name": "String", "ofType": null}}}}}},
             "isDeprecated": false}
        ]}
    ]}}}"#;
    assert_eq!(json_to_schema(doc, true).unwrap(), "type Q {\n  m: [[String!]!]!\n}\n");
}

#[test]
fn description_ending_in_quote_keeps_delimiter_apart() {
    let doc = r#"{"data": {"__schema": {"types": [
        {"kind": "SCALAR", "name": "S", "description": "text ends with\""}
    ]}}}"#;
    let out = json_to_schema(doc, true).unwrap();
    assert_eq!(out, "\"\"\"text ends with\" \"\"\"\nscalar S\n");
    assert!(!out.contains("\"\"\"\""));
}

#[test]
fn union_and_enum_and_input_through_the_pipeline() {
    let doc = r#"{"data": {"__schema": {"types": [
        {"kind": "UNION", "name": "Pet", "possibleTypes": [{"name": "Cat"}, {"name": "Dog"}]},
        {"kind": "ENUM", "name": "Color", "enumValues": [
            {"name": "RED", "isDeprecated": false},
            {"name": "BLUE", "isDeprecated": false}
        ]},
        {"kind": "INPUT_OBJECT", "name": "Point", "inputFields": [
            {"name": "x", "type": {"kind": "SCALAR", "name": "Int", "ofType": null}, "defaultValue": "0"}
        ]},
        {"kind": "UNION", "name": "Empty", "possibleTypes": []},
        {"kind": "INTERFACE", "name": "Node", "fields": [
            {"name": "id", "args": [], "type": {"kind": "SCALAR", "name": "ID", "ofType": null}, "isDeprecated": false}
        ]}
    ]}}}"#;
    assert_eq!(
        json_to_schema(doc, true).unwrap(),
        "union Pet = Cat | Dog\n\
         enum Color {\n  RED\n  BLUE\n}\n\
         input Point {\n  x: Int = 0\n}\n\
         union Empty = \n\
         interface Node {\n  id: ID\n}\n"
    );
}

#[test]
fn absent_fields_key_renders_an_empty_body() {
    let doc = r#"{"data": {"__schema": {"types": [{"kind": "OBJECT", "name": "Q"}]}}}"#;
    assert_eq!(json_to_schema(doc, true).unwrap(), "type Q {\n}\n");
}

#[test]
fn absent_args_key_renders_a_bare_field() {
    let doc = r#"{"data": {"__schema": {"types": [
        {"kind": "OBJECT", "name": "Q", "fields": [
            {"name": "f", "type": {"kind": "SCALAR", "name": "Int", "ofType": null}, "isDeprecated": false}
        ]}
    ]}}}"#;
    assert_eq!(json_to_schema(doc, true).unwrap(), "type Q {\n  f: Int\n}\n");
}

#[test]
fn error_message_names_the_context() {
    let err = json_to_schema("no", true).unwrap_err();
    assert_eq!(err.message(), "failed to decode the introspection document at: json");
    let doc = r#"{"data": {"__schema": {"types": [{"kind": "LIST", "name": "L"}]}}}"#;
    let err = json_to_schema(doc, true).unwrap_err();
    assert_eq!(err.message(), "the introspection document breaks a model invariant at: L");
}
