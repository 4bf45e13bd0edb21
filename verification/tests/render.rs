use askgql::model::Directive;
use askgql::model::EnumValue;
use askgql::model::Field;
use askgql::model::InputValue;
use askgql::model::NamedKind;
use askgql::model::Schema;
use askgql::model::Type;
use askgql::model::TypeDef;
use askgql::model::TypeRef;
use askgql::unparse::render;
use askgql::unparse::write_arg;
use askgql::unparse::write_comment;
use askgql::unparse::write_derective;
use askgql::unparse::write_derectives;
use askgql::unparse::write_field;
use askgql::unparse::write_input_field;
use askgql::unparse::write_input_value;
use askgql::unparse::write_schema;
use askgql::unparse::write_type;
use askgql::unparse::write_type_ref;
use askgql::unparse::write_types;

fn named(name: &str) -> TypeRef {
    TypeRef::Named { kind: NamedKind::Scalar, name: name.to_string() }
}

fn type_ref_text(t: &TypeRef) -> String {
    let mut out = String::new();
    write_type_ref(&mut out, t);
    out
}

#[test]
fn type_ref_plain_list() {
    let t = TypeRef::List { of: Box::new(named("String")) };
    assert_eq!(type_ref_text(&t), "[String]");
}

#[test]
fn type_ref_list_of_non_null() {
    let t = TypeRef::List { of: Box::new(TypeRef::NonNull { of: Box::new(named("String")) }) };
    assert_eq!(type_ref_text(&t), "[String!]");
}

#[test]
fn type_ref_non_null_list() {
    let t = TypeRef::NonNull { of: Box::new(TypeRef::List { of: Box::new(named("String")) }) };
    assert_eq!(type_ref_text(&t), "[String]!");
}

#[test]
fn type_ref_non_null_list_of_non_null() {
    let t = TypeRef::NonNull {
        of: Box::new(TypeRef::List {
            of: Box::new(TypeRef::NonNull { of: Box::new(named("String")) }),
        }),
    };
    assert_eq!(type_ref_text(&t), "[String!]!");
}

#[test]
fn type_ref_deep_nesting() {
    let t = TypeRef::NonNull {
        of: Box::new(TypeRef::List {
            of: Box::new(TypeRef::NonNull {
                of: Box::new(TypeRef::List {
                    of: Box::new(TypeRef::NonNull { of: Box::new(named("String")) }),
                }),
            }),
        }),
    };
    assert_eq!(type_ref_text(&t), "[[String!]!]!");
}

#[test]
fn comment_plain_text() {
    let mut out = String::new();
    write_comment(&mut out, "a plain description", true);
    assert_eq!(out, "\"\"\"a plain description\"\"\"\n");
}

#[test]
fn comment_text_ending_in_quote_gets_space() {
    let mut out = String::new();
    write_comment(&mut out, "text ends with\"", true);
    assert_eq!(out, "\"\"\"text ends with\" \"\"\"\n");
    assert!(!out.contains("\"\"\"\""));
}

#[test]
fn comment_disabled_writes_nothing() {
    let mut out = String::new();
    write_comment(&mut out, "ignored entirely", false);
    assert_eq!(out, "");
}

#[test]
fn empty_object_type_renders_empty_body() {
    let t = Type {
        name: "Foo".to_string(),
        description: None,
        def: TypeDef::Object { fields: vec![] },
    };
    let mut out = String::new();
    write_type(&mut out, &t, true);
    assert_eq!(out, "type Foo {\n}\n");
}

#[test]
fn union_with_no_members_keeps_bare_equals() {
    let t = Type {
        name: "Foo".to_string(),
        description: None,
        def: TypeDef::Union { possible_types: vec![] },
    };
    let mut out = String::new();
    write_type(&mut out, &t, true);
    assert_eq!(out, "union Foo = \n");
}

#[test]
fn union_members_are_pipe_separated() {
    let t = Type {
        name: "Pet".to_string(),
        description: None,
        def: TypeDef::Union { possible_types: vec!["Cat".to_string(), "Dog".to_string()] },
    };
    let mut out = String::new();
    write_type(&mut out, &t, true);
    assert_eq!(out, "union Pet = Cat | Dog\n");
}

#[test]
fn directive_with_two_locations() {
    let d = Directive {
        name: "d".to_string(),
        description: None,
        locations: vec!["LOC_A".to_string(), "LOC_B".to_string()],
        args: vec![],
    };
    let mut out = String::new();
    write_derective(&mut out, &d, true);
    assert_eq!(out, "directive @d() on LOC_A | LOC_B\n\n");
}

#[test]
fn directive_with_no_locations() {
    let d = Directive {
        name: "d".to_string(),
        description: None,
        locations: vec![],
        args: vec![],
    };
    let mut out = String::new();
    write_derective(&mut out, &d, true);
    assert_eq!(out, "directive @d() on \n\n");
}

#[test]
fn directive_description_and_args() {
    let d = Directive {
        name: "skip".to_string(),
        description: Some("Skips a field".to_string()),
        locations: vec!["FIELD".to_string()],
        args: vec![InputValue {
            name: "if".to_string(),
            description: None,
            ty: TypeRef::NonNull { of: Box::new(named("Boolean")) },
            default_value: None,
        }],
    };
    let mut out = String::new();
    write_derective(&mut out, &d, true);
    assert_eq!(out, "description: Skips a field\ndirective @skip(if: Boolean!) on FIELD\n\n");
    let mut quiet = String::new();
    write_derective(&mut quiet, &d, false);
    assert_eq!(quiet, "directive @skip(if: Boolean!) on FIELD\n\n");
}

#[test]
fn enum_type_lists_value_names() {
    let t = Type {
        name: "Color".to_string(),
        description: None,
        def: TypeDef::Enum {
            values: vec![
                EnumValue {
                    name: "RED".to_string(),
                    description: None,
                    is_deprecated: false,
                    deprecation_reason: None,
                },
                EnumValue {
                    name: "BLUE".to_string(),
                    description: Some("the cold one".to_string()),
                    is_deprecated: true,
                    deprecation_reason: Some("faded".to_string()),
                },
            ],
        },
    };
    let mut out = String::new();
    write_type(&mut out, &t, true);
    assert_eq!(out, "enum Color {\n  RED\n  BLUE\n}\n");
}

#[test]
fn input_object_renders_defaults() {
    let t = Type {
        name: "Point".to_string(),
        description: None,
        def: TypeDef::InputObject {
            input_fields: vec![
                InputValue {
                    name: "x".to_string(),
                    description: None,
                    ty: named("Int"),
                    default_value: Some("3".to_string()),
                },
                InputValue {
                    name: "y".to_string(),
                    description: None,
                    ty: named("Int"),
                    default_value: None,
                },
            ],
        },
    };
    let mut out = String::new();
    write_type(&mut out, &t, true);
    assert_eq!(out, "input Point {\n  x: Int = 3\n  y: Int\n}\n");
}

#[test]
fn field_with_args_parenthesised() {
    let f = Field {
        name: "user".to_string(),
        description: None,
        args: vec![
            InputValue {
                name: "id".to_string(),
                description: None,
                ty: TypeRef::NonNull { of: Box::new(named("ID")) },
                default_value: None,
            },
            InputValue {
                name: "verbose".to_string(),
                description: None,
                ty: named("Boolean"),
                default_value: Some("false".to_string()),
            },
        ],
        ty: named("User"),
        is_deprecated: false,
        deprecation_reason: None,
    };
    let mut out = String::new();
    write_field(&mut out, &f, true);
    assert_eq!(out, "  user(id: ID!, verbose: Boolean = false): User\n");
}

#[test]
fn field_without_args_has_no_parens() {
    let f = Field {
        name: "name".to_string(),
        description: Some("who it is".to_string()),
        args: vec![],
        ty: named("String"),
        is_deprecated: false,
        deprecation_reason: None,
    };
    let mut out = String::new();
    write_field(&mut out, &f, true);
    assert_eq!(out, "  \"\"\"who it is\"\"\"\n  name: String\n");
    let mut quiet = String::new();
    write_field(&mut quiet, &f, false);
    assert_eq!(quiet, "  name: String\n");
}

#[test]
fn render_is_deterministic() {
    let schema = Schema {
        directives: vec![Directive {
            name: "x".to_string(),
            description: Some("d".to_string()),
            locations: vec!["FIELD".to_string()],
            args: vec![],
        }],
        types: vec![Type {
            name: "S".to_string(),
            description: Some("a scalar".to_string()),
            def: TypeDef::Scalar,
        }],
    };
    assert_eq!(render(&schema, true), render(&schema, true));
    assert_eq!(render(&schema, false), render(&schema, false));
}

#[test]
fn disabled_comments_leave_no_blocks() {
    let schema = Schema {
        directives: vec![Directive {
            name: "noted".to_string(),
            description: Some("a description".to_string()),
            locations: vec!["FIELD".to_string()],
            args: vec![],
        }],
        types: vec![
            Type {
                name: "S".to_string(),
                description: Some("scalar description".to_string()),
                def: TypeDef::Scalar,
            },
            Type {
                name: "Q".to_string(),
                description: Some("object description".to_string()),
                def: TypeDef::Object {
                    fields: vec![Field {
                        name: "f".to_string(),
                        description: Some("field description".to_string()),
                        args: vec![],
                        ty: named("S"),
                        is_deprecated: false,
                        deprecation_reason: None,
                    }],
                },
            },
        ],
    };
    let out = render(&schema, false);
    assert!(!out.contains("\"\"\""));
    assert_eq!(
        out,
        "directive @noted() on FIELD\n\nscalar S\ntype Q {\n  f: S\n}\n"
    );
}

#[test]
fn input_value_arg_and_input_field_renderers_agree() {
    let v = InputValue {
        name: "limit".to_string(),
        description: None,
        ty: named("Int"),
        default_value: Some("10".to_string()),
    };
    let mut as_value = String::new();
    write_input_value(&mut as_value, &v);
    assert_eq!(as_value, "limit: Int = 10");
    let mut as_arg = String::new();
    write_arg(&mut as_arg, &v);
    assert_eq!(as_arg, "limit: Int = 10");
    let mut as_input_field = String::new();
    write_input_field(&mut as_input_field, &v);
    assert_eq!(as_input_field, "limit: Int = 10\n");
}

#[test]
fn write_schema_appends_directives_then_types() {
    let schema = Schema {
        directives: vec![Directive {
            name: "only".to_string(),
            description: None,
            locations: vec!["QUERY".to_string()],
            args: vec![],
        }],
        types: vec![Type { name: "S".to_string(), description: None, def: TypeDef::Scalar }],
    };
    let mut out = String::from("before|");
    write_schema(&mut out, &schema, true);
    assert_eq!(out, "before|directive @only() on QUERY\n\nscalar S\n");
}

#[test]
fn list_writers_keep_document_order() {
    let directives = vec![
        Directive {
            name: "a".to_string(),
            description: None,
            locations: vec![],
            args: vec![],
        },
        Directive {
            name: "b".to_string(),
            description: None,
            locations: vec![],
            args: vec![],
        },
    ];
    let mut out = String::new();
    write_derectives(&mut out, &directives, true);
    assert_eq!(out, "directive @a() on \n\ndirective @b() on \n\n");

    let types = vec![
        Type { name: "Z".to_string(), description: None, def: TypeDef::Scalar },
        Type { name: "A".to_string(), description: None, def: TypeDef::Scalar },
    ];
    let mut out = String::new();
    write_types(&mut out, &types, true);
    assert_eq!(out, "scalar Z\nscalar A\n");
}

#[test]
fn scalar_description_appears_only_with_comments() {
    let t = Type {
        name: "Time".to_string(),
        description: Some("a moment".to_string()),
        def: TypeDef::Scalar,
    };
    let mut with = String::new();
    write_type(&mut with, &t, true);
    assert_eq!(with, "\"\"\"a moment\"\"\"\nscalar Time\n");
    let mut without = String::new();
    write_type(&mut without, &t, false);
    assert_eq!(without, "scalar Time\n");
}
