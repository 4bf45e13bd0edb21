//! The decoder: from a JSON tree to the schema model.
//!
//! Every `parse_*` spec function is the meaning of decoding one piece of the
//! document; each `decode_*` executable function returns exactly what its
//! spec function says, error for error.  A structural mismatch is a
//! [`SchemaError::Decode`] naming the offending key or kind; a well-formed
//! document whose types break the model invariant (a top-level `LIST` or
//! `NON_NULL` type, or a wrap chain that does not end in a named reference)
//! is a [`SchemaError::ModelInvariant`].

use vstd::prelude::*;
use vstd::string::StringExecFns;

use crate::json::JsonValue;
use crate::json::jlookup;
use crate::json::jsize;
use crate::json::jfield;
use crate::json::lemma_jlookup_size;
use crate::json::str_eq;
use crate::model::DirectiveV;
use crate::model::EnumValueV;
use crate::model::FieldV;
use crate::model::InputValueV;
use crate::model::NamedKind;
use crate::model::Directive;
use crate::model::EnumValue;
use crate::model::Field;
use crate::model::InputValue;
use crate::model::Schema;
use crate::model::SchemaV;
use crate::model::Type;
use crate::model::TypeDef;
use crate::model::TypeDefV;
use crate::model::TypeRef;
use crate::model::TypeRefV;
use crate::model::TypeV;
use crate::model::directive_view;
use crate::model::directives_view;
use crate::model::enum_value_view;
use crate::model::enum_values_view;
use crate::model::field_view;
use crate::model::fields_view;
use crate::model::input_value_view;
use crate::model::input_values_view;
use crate::model::opt_str_view;
use crate::model::schema_view;
use crate::model::strings_view;
use crate::model::type_ref_view;
use crate::model::type_view;
use crate::model::types_view;

verus! {

/// Why a conversion failed.  `Decode` names the key or kind enumerant where
/// the document's shape did not match the introspection form;
/// `ModelInvariant` names the type (or the `ofType` key) where a well-shaped
/// document still breaks the model's invariant.
#[derive(Debug)]
pub enum SchemaError {
    Decode(String),
    ModelInvariant(String),
}

/// Ghost counterpart of [`SchemaError`].
pub enum SchemaErrorV {
    Decode(Seq<char>),
    ModelInvariant(Seq<char>),
}

pub open spec fn err_view(e: SchemaError) -> SchemaErrorV {
    match e {
        SchemaError::Decode(c) => SchemaErrorV::Decode(c@),
        SchemaError::ModelInvariant(c) => SchemaErrorV::ModelInvariant(c@),
    }
}

/// The diagnostic line for an error.
pub open spec fn err_message(e: SchemaErrorV) -> Seq<char> {
    match e {
        SchemaErrorV::Decode(c) => "failed to decode the introspection document at: "@ + c,
        SchemaErrorV::ModelInvariant(c) => "the introspection document breaks a model invariant at: "@
            + c,
    }
}

impl SchemaError {
    /// The diagnostic line for this error.
    pub fn message(&self) -> (r: String)
        ensures
            r@ == err_message(err_view(*self)),
    {
        match self {
            SchemaError::Decode(c) => {
                let mut s = String::new();
                s.append("failed to decode the introspection document at: ");
                s.append(c.as_str());
                proof {
                    assert(s@ =~= err_message(err_view(*self)));
                }
                s
            },
            SchemaError::ModelInvariant(c) => {
                let mut s = String::new();
                s.append("the introspection document breaks a model invariant at: ");
                s.append(c.as_str());
                proof {
                    assert(s@ =~= err_message(err_view(*self)));
                }
                s
            },
        }
    }
}

/// An optional string member: absent or `null` is "absent", anything else
/// must be a string.
pub open spec fn parse_opt_str(j: JsonValue, key: Seq<char>) -> Result<
    Option<Seq<char>>,
    SchemaErrorV,
> {
    match jlookup(j, key) {
        Option::None => Ok(Option::None),
        Option::Some(JsonValue::Null) => Ok(Option::None),
        Option::Some(JsonValue::Str(s)) => Ok(Option::Some(s@)),
        Option::Some(_) => Err(SchemaErrorV::Decode(key)),
    }
}

/// A required string member.
pub open spec fn parse_req_str(j: JsonValue, key: Seq<char>) -> Result<Seq<char>, SchemaErrorV> {
    match jlookup(j, key) {
        Option::Some(JsonValue::Str(s)) => Ok(s@),
        _ => Err(SchemaErrorV::Decode(key)),
    }
}

/// A required boolean member.
pub open spec fn parse_req_bool(j: JsonValue, key: Seq<char>) -> Result<bool, SchemaErrorV> {
    match jlookup(j, key) {
        Option::Some(JsonValue::Bool(b)) => Ok(b),
        _ => Err(SchemaErrorV::Decode(key)),
    }
}

/// An optional array member: absent or `null` is an empty sequence, anything
/// else must be an array.
pub open spec fn parse_opt_arr(j: JsonValue, key: Seq<char>) -> Result<
    Seq<JsonValue>,
    SchemaErrorV,
> {
    match jlookup(j, key) {
        Option::None => Ok(Seq::empty()),
        Option::Some(JsonValue::Null) => Ok(Seq::empty()),
        Option::Some(JsonValue::Arr(items)) => Ok(items@),
        Option::Some(_) => Err(SchemaErrorV::Decode(key)),
    }
}

/// A required array member.
pub open spec fn parse_req_arr(j: JsonValue, key: Seq<char>) -> Result<
    Seq<JsonValue>,
    SchemaErrorV,
> {
    match jlookup(j, key) {
        Option::Some(JsonValue::Arr(items)) => Ok(items@),
        _ => Err(SchemaErrorV::Decode(key)),
    }
}

/// The named kind a `kind` enumerant denotes, if any.
pub open spec fn named_kind_of(kind: Seq<char>) -> Option<NamedKind> {
    if kind == "SCALAR"@ {
        Option::Some(NamedKind::Scalar)
    } else if kind == "OBJECT"@ {
        Option::Some(NamedKind::Object)
    } else if kind == "INTERFACE"@ {
        Option::Some(NamedKind::Interface)
    } else if kind == "UNION"@ {
        Option::Some(NamedKind::Union)
    } else if kind == "ENUM"@ {
        Option::Some(NamedKind::Enum)
    } else if kind == "INPUT_OBJECT"@ {
        Option::Some(NamedKind::InputObject)
    } else {
        Option::None
    }
}

/// One type reference: a named kind carries its required `name`; `LIST` and
/// `NON_NULL` wrap the reference under `ofType`, to any depth the document
/// holds.  A wrapper whose `ofType` is absent or `null` is a chain that does
/// not end in a named reference: a model-invariant error.
pub open spec fn parse_type_ref(j: JsonValue) -> Result<TypeRefV, SchemaErrorV>
    decreases jsize(j),
{
    match parse_req_str(j, "kind"@) {
        Err(e) => Err(e),
        Ok(kind) => {
            if kind == "LIST"@ || kind == "NON_NULL"@ {
                match jlookup(j, "ofType"@) {
                    Option::None => Err(SchemaErrorV::ModelInvariant("ofType"@)),
                    Option::Some(inner) => {
                        if inner is Null {
                            Err(SchemaErrorV::ModelInvariant("ofType"@))
                        } else {
                            proof {
                                lemma_jlookup_size(j, "ofType"@);
                            }
                            match parse_type_ref(inner) {
                                Err(e) => Err(e),
                                Ok(t) => Ok(
                                    if kind == "LIST"@ {
                                        TypeRefV::List { of: Box::new(t) }
                                    } else {
                                        TypeRefV::NonNull { of: Box::new(t) }
                                    },
                                ),
                            }
                        }
                    },
                }
            } else {
                match named_kind_of(kind) {
                    Option::Some(k) => match parse_req_str(j, "name"@) {
                        Err(e) => Err(e),
                        Ok(name) => Ok(TypeRefV::Named { kind: k, name }),
                    },
                    Option::None => Err(SchemaErrorV::Decode(kind)),
                }
            }
        },
    }
}

/// One argument, input field or directive argument.
pub open spec fn parse_input_value(j: JsonValue) -> Result<InputValueV, SchemaErrorV> {
    match parse_req_str(j, "name"@) {
        Err(e) => Err(e),
        Ok(name) => match parse_opt_str(j, "description"@) {
            Err(e) => Err(e),
            Ok(description) => match jlookup(j, "type"@) {
                Option::None => Err(SchemaErrorV::Decode("type"@)),
                Option::Some(tj) => match parse_type_ref(tj) {
                    Err(e) => Err(e),
                    Ok(ty) => match parse_opt_str(j, "defaultValue"@) {
                        Err(e) => Err(e),
                        Ok(default_value) => Ok(
                            InputValueV { name, description, ty, default_value },
                        ),
                    },
                },
            },
        },
    }
}

/// The input values from position `i` on.
pub open spec fn parse_input_values_from(items: Seq<JsonValue>, i: int) -> Result<
    Seq<InputValueV>,
    SchemaErrorV,
>
    decreases items.len() - i,
{
    if i >= items.len() {
        Ok(Seq::empty())
    } else {
        match parse_input_value(items[i]) {
            Err(e) => Err(e),
            Ok(v) => match parse_input_values_from(items, i + 1) {
                Err(e) => Err(e),
                Ok(rest) => Ok(seq![v] + rest),
            },
        }
    }
}

/// One field of an object or interface.
pub open spec fn parse_field(j: JsonValue) -> Result<FieldV, SchemaErrorV> {
    match parse_req_str(j, "name"@) {
        Err(e) => Err(e),
        Ok(name) => match parse_opt_str(j, "description"@) {
            Err(e) => Err(e),
            Ok(description) => match parse_opt_arr(j, "args"@) {
                Err(e) => Err(e),
                Ok(arg_items) => match parse_input_values_from(arg_items, 0) {
                    Err(e) => Err(e),
                    Ok(args) => match jlookup(j, "type"@) {
                        Option::None => Err(SchemaErrorV::Decode("type"@)),
                        Option::Some(tj) => match parse_type_ref(tj) {
                            Err(e) => Err(e),
                            Ok(ty) => match parse_req_bool(j, "isDeprecated"@) {
                                Err(e) => Err(e),
                                Ok(is_deprecated) => match parse_opt_str(
                                    j,
                                    "deprecationReason"@,
                                ) {
                                    Err(e) => Err(e),
                                    Ok(deprecation_reason) => Ok(
                                        FieldV {
                                            name,
                                            description,
                                            args,
                                            ty,
                                            is_deprecated,
                                            deprecation_reason,
                                        },
                                    ),
                                },
                            },
                        },
                    },
                },
            },
        },
    }
}

/// The fields from position `i` on.
pub open spec fn parse_fields_from(items: Seq<JsonValue>, i: int) -> Result<
    Seq<FieldV>,
    SchemaErrorV,
>
    decreases items.len() - i,
{
    if i >= items.len() {
        Ok(Seq::empty())
    } else {
        match parse_field(items[i]) {
            Err(e) => Err(e),
            Ok(f) => match parse_fields_from(items, i + 1) {
                Err(e) => Err(e),
                Ok(rest) => Ok(seq![f] + rest),
            },
        }
    }
}

/// One enum value.
pub open spec fn parse_enum_value(j: JsonValue) -> Result<EnumValueV, SchemaErrorV> {
    match parse_req_str(j, "name"@) {
        Err(e) => Err(e),
        Ok(name) => match parse_opt_str(j, "description"@) {
            Err(e) => Err(e),
            Ok(description) => match parse_req_bool(j, "isDeprecated"@) {
                Err(e) => Err(e),
                Ok(is_deprecated) => match parse_opt_str(j, "deprecationReason"@) {
                    Err(e) => Err(e),
                    Ok(deprecation_reason) => Ok(
                        EnumValueV { name, description, is_deprecated, deprecation_reason },
                    ),
                },
            },
        },
    }
}

/// The enum values from position `i` on.
pub open spec fn parse_enum_values_from(items: Seq<JsonValue>, i: int) -> Result<
    Seq<EnumValueV>,
    SchemaErrorV,
>
    decreases items.len() - i,
{
    if i >= items.len() {
        Ok(Seq::empty())
    } else {
        match parse_enum_value(items[i]) {
            Err(e) => Err(e),
            Ok(v) => match parse_enum_values_from(items, i + 1) {
                Err(e) => Err(e),
                Ok(rest) => Ok(seq![v] + rest),
            },
        }
    }
}

/// The union member names from position `i` on: each entry is an object whose
/// required `name` member names the possible type.
pub open spec fn parse_possible_types_from(items: Seq<JsonValue>, i: int) -> Result<
    Seq<Seq<char>>,
    SchemaErrorV,
>
    decreases items.len() - i,
{
    if i >= items.len() {
        Ok(Seq::empty())
    } else {
        match parse_req_str(items[i], "name"@) {
            Err(e) => Err(e),
            Ok(name) => match parse_possible_types_from(items, i + 1) {
                Err(e) => Err(e),
                Ok(rest) => Ok(seq![name] + rest),
            },
        }
    }
}

/// The directive locations from position `i` on: each entry must be a string.
pub open spec fn parse_locations_from(items: Seq<JsonValue>, i: int) -> Result<
    Seq<Seq<char>>,
    SchemaErrorV,
>
    decreases items.len() - i,
{
    if i >= items.len() {
        Ok(Seq::empty())
    } else {
        match items[i] {
            JsonValue::Str(s) => match parse_locations_from(items, i + 1) {
                Err(e) => Err(e),
                Ok(rest) => Ok(seq![s@] + rest),
            },
            _ => Err(SchemaErrorV::Decode("locations"@)),
        }
    }
}

/// One top-level type declaration.  A `LIST` or `NON_NULL` kind here breaks
/// the model invariant: wrappers exist only inside type references.
pub open spec fn parse_type(j: JsonValue) -> Result<TypeV, SchemaErrorV> {
    match parse_req_str(j, "name"@) {
        Err(e) => Err(e),
        Ok(name) => match parse_opt_str(j, "description"@) {
            Err(e) => Err(e),
            Ok(description) => match parse_req_str(j, "kind"@) {
                Err(e) => Err(e),
                Ok(kind) => {
                    if kind == "LIST"@ || kind == "NON_NULL"@ {
                        Err(SchemaErrorV::ModelInvariant(name))
                    } else if kind == "SCALAR"@ {
                        Ok(TypeV { name, description, def: TypeDefV::Scalar })
                    } else if kind == "OBJECT"@ {
                        match parse_opt_arr(j, "fields"@) {
                            Err(e) => Err(e),
                            Ok(items) => match parse_fields_from(items, 0) {
                                Err(e) => Err(e),
                                Ok(fields) => Ok(
                                    TypeV { name, description, def: TypeDefV::Object { fields } },
                                ),
                            },
                        }
                    } else if kind == "INTERFACE"@ {
                        match parse_opt_arr(j, "fields"@) {
                            Err(e) => Err(e),
                            Ok(items) => match parse_fields_from(items, 0) {
                                Err(e) => Err(e),
                                Ok(fields) => Ok(
                                    TypeV {
                                        name,
                                        description,
                                        def: TypeDefV::Interface { fields },
                                    },
                                ),
                            },
                        }
                    } else if kind == "UNION"@ {
                        match parse_opt_arr(j, "possibleTypes"@) {
                            Err(e) => Err(e),
                            Ok(items) => match parse_possible_types_from(items, 0) {
                                Err(e) => Err(e),
                                Ok(possible_types) => Ok(
                                    TypeV {
                                        name,
                                        description,
                                        def: TypeDefV::Union { possible_types },
                                    },
                                ),
                            },
                        }
                    } else if kind == "ENUM"@ {
                        match parse_opt_arr(j, "enumValues"@) {
                            Err(e) => Err(e),
                            Ok(items) => match parse_enum_values_from(items, 0) {
                                Err(e) => Err(e),
                                Ok(values) => Ok(
                                    TypeV { name, description, def: TypeDefV::Enum { values } },
                                ),
                            },
                        }
                    } else if kind == "INPUT_OBJECT"@ {
                        match parse_opt_arr(j, "inputFields"@) {
                            Err(e) => Err(e),
                            Ok(items) => match parse_input_values_from(items, 0) {
                                Err(e) => Err(e),
                                Ok(input_fields) => Ok(
                                    TypeV {
                                        name,
                                        description,
                                        def: TypeDefV::InputObject { input_fields },
                                    },
                                ),
                            },
                        }
                    } else {
                        Err(SchemaErrorV::Decode(kind))
                    }
                },
            },
        },
    }
}

/// The types from position `i` on.
pub open spec fn parse_types_from(items: Seq<JsonValue>, i: int) -> Result<
    Seq<TypeV>,
    SchemaErrorV,
>
    decreases items.len() - i,
{
    if i >= items.len() {
        Ok(Seq::empty())
    } else {
        match parse_type(items[i]) {
            Err(e) => Err(e),
            Ok(t) => match parse_types_from(items, i + 1) {
                Err(e) => Err(e),
                Ok(rest) => Ok(seq![t] + rest),
            },
        }
    }
}

/// One directive declaration.
pub open spec fn parse_directive(j: JsonValue) -> Result<DirectiveV, SchemaErrorV> {
    match parse_req_str(j, "name"@) {
        Err(e) => Err(e),
        Ok(name) => match parse_opt_str(j, "description"@) {
            Err(e) => Err(e),
            Ok(description) => match parse_req_arr(j, "locations"@) {
                Err(e) => Err(e),
                Ok(loc_items) => match parse_locations_from(loc_items, 0) {
                    Err(e) => Err(e),
                    Ok(locations) => match parse_req_arr(j, "args"@) {
                        Err(e) => Err(e),
                        Ok(arg_items) => match parse_input_values_from(arg_items, 0) {
                            Err(e) => Err(e),
                            Ok(args) => Ok(DirectiveV { name, description, locations, args }),
                        },
                    },
                },
            },
        },
    }
}

/// The directives from position `i` on.
pub open spec fn parse_directives_from(items: Seq<JsonValue>, i: int) -> Result<
    Seq<DirectiveV>,
    SchemaErrorV,
>
    decreases items.len() - i,
{
    if i >= items.len() {
        Ok(Seq::empty())
    } else {
        match parse_directive(items[i]) {
            Err(e) => Err(e),
            Ok(d) => match parse_directives_from(items, i + 1) {
                Err(e) => Err(e),
                Ok(rest) => Ok(seq![d] + rest),
            },
        }
    }
}

/// The `__schema` object: a required `types` array, and a `directives` array
/// that may be missing altogether (not every server reports it) but must be
/// an array when present.
pub open spec fn parse_schema(j: JsonValue) -> Result<SchemaV, SchemaErrorV> {
    match parse_req_arr(j, "types"@) {
        Err(e) => Err(e),
        Ok(type_items) => match parse_types_from(type_items, 0) {
            Err(e) => Err(e),
            Ok(types) => {
                let dir_items = match jlookup(j, "directives"@) {
                    Option::None => Ok(Seq::<JsonValue>::empty()),
                    Option::Some(JsonValue::Arr(items)) => Ok(items@),
                    Option::Some(_) => Err(SchemaErrorV::Decode("directives"@)),
                };
                match dir_items {
                    Err(e) => Err(e),
                    Ok(items) => match parse_directives_from(items, 0) {
                        Err(e) => Err(e),
                        Ok(directives) => Ok(SchemaV { directives, types }),
                    },
                }
            },
        },
    }
}

/// The whole introspection response: `{"data": {"__schema": {...}}}`.
pub open spec fn parse_document(j: JsonValue) -> Result<SchemaV, SchemaErrorV> {
    match jlookup(j, "data"@) {
        Option::None => Err(SchemaErrorV::Decode("data"@)),
        Option::Some(d) => match jlookup(d, "__schema"@) {
            Option::None => Err(SchemaErrorV::Decode("__schema"@)),
            Option::Some(s) => parse_schema(s),
        },
    }
}

/// Finds the first binding of `key` when `j` is an object, as [`jlookup`].
fn jget<'a>(j: &'a JsonValue, key: &str) -> (r: Option<&'a JsonValue>)
    ensures
        match r {
            Option::Some(v) => jlookup(*j, key@) == Option::Some(*v),
            Option::None => jlookup(*j, key@) is None,
        },
{
    match j {
        JsonValue::Obj(fields) => {
            proof {
                assert(fields@.subrange(0, fields@.len() as int) =~= fields@);
            }
            let n: usize = fields.len();
            let mut i: usize = 0;
            while i < n
                invariant
                    n == fields@.len(),
                    i <= n,
                    *j == JsonValue::Obj(*fields),
                    jfield(fields@, key@) == jfield(
                        fields@.subrange(i as int, fields@.len() as int),
                        key@,
                    ),
                decreases n - i,
            {
                let pair = &fields[i];
                if str_eq(pair.0.as_str(), key) {
                    proof {
                        let tail = fields@.subrange(i as int, fields@.len() as int);
                        assert(tail[0] == fields@[i as int]);
                        assert(jfield(tail, key@) == Option::Some(tail[0].1));
                    }
                    return Option::Some(&pair.1);
                }
                proof {
                    let tail = fields@.subrange(i as int, fields@.len() as int);
                    assert(tail[0] == fields@[i as int]);
                    assert(tail.subrange(1, tail.len() as int) =~= fields@.subrange(
                        i as int + 1,
                        fields@.len() as int,
                    ));
                }
                i = i + 1;
            }
            Option::None
        },
        _ => Option::None,
    }
}

/// An optional string member, owned, as [`parse_opt_str`].
fn get_opt_str(j: &JsonValue, key: &str) -> (r: Result<Option<String>, SchemaError>)
    ensures
        match r {
            Ok(s) => parse_opt_str(*j, key@) == Ok::<_, SchemaErrorV>(opt_str_view(s)),
            Err(e) => parse_opt_str(*j, key@) == Err::<Option<Seq<char>>, _>(err_view(e)),
        },
{
    match jget(j, key) {
        Option::None => Ok(Option::None),
        Option::Some(JsonValue::Null) => Ok(Option::None),
        Option::Some(JsonValue::Str(s)) => Ok(Option::Some(s.clone())),
        Option::Some(_) => Err(SchemaError::Decode(key.to_owned())),
    }
}

/// A required string member, owned, as [`parse_req_str`].
fn get_req_str(j: &JsonValue, key: &str) -> (r: Result<String, SchemaError>)
    ensures
        match r {
            Ok(s) => parse_req_str(*j, key@) == Ok::<_, SchemaErrorV>(s@),
            Err(e) => parse_req_str(*j, key@) == Err::<Seq<char>, _>(err_view(e)),
        },
{
    match jget(j, key) {
        Option::Some(JsonValue::Str(s)) => Ok(s.clone()),
        _ => Err(SchemaError::Decode(key.to_owned())),
    }
}

/// A required boolean member, as [`parse_req_bool`].
fn get_req_bool(j: &JsonValue, key: &str) -> (r: Result<bool, SchemaError>)
    ensures
        match r {
            Ok(b) => parse_req_bool(*j, key@) == Ok::<_, SchemaErrorV>(b),
            Err(e) => parse_req_bool(*j, key@) == Err::<bool, _>(err_view(e)),
        },
{
    match jget(j, key) {
        Option::Some(JsonValue::Bool(b)) => Ok(*b),
        _ => Err(SchemaError::Decode(key.to_owned())),
    }
}

/// An optional array member, as [`parse_opt_arr`]: `None` stands for the
/// empty sequence that an absent or `null` member denotes.
fn get_opt_arr<'a>(j: &'a JsonValue, key: &str) -> (r: Result<
    Option<&'a Vec<JsonValue>>,
    SchemaError,
>)
    ensures
        match r {
            Ok(Option::Some(items)) => parse_opt_arr(*j, key@) == Ok::<_, SchemaErrorV>(items@),
            Ok(Option::None) => parse_opt_arr(*j, key@) == Ok::<_, SchemaErrorV>(
                Seq::<JsonValue>::empty(),
            ),
            Err(e) => parse_opt_arr(*j, key@) == Err::<Seq<JsonValue>, _>(err_view(e)),
        },
{
    match jget(j, key) {
        Option::None => Ok(Option::None),
        Option::Some(JsonValue::Null) => Ok(Option::None),
        Option::Some(JsonValue::Arr(items)) => Ok(Option::Some(items)),
        Option::Some(_) => Err(SchemaError::Decode(key.to_owned())),
    }
}

/// A required array member, as [`parse_req_arr`].
fn get_req_arr<'a>(j: &'a JsonValue, key: &str) -> (r: Result<&'a Vec<JsonValue>, SchemaError>)
    ensures
        match r {
            Ok(items) => parse_req_arr(*j, key@) == Ok::<_, SchemaErrorV>(items@),
            Err(e) => parse_req_arr(*j, key@) == Err::<Seq<JsonValue>, _>(err_view(e)),
        },
{
    match jget(j, key) {
        Option::Some(JsonValue::Arr(items)) => Ok(items),
        _ => Err(SchemaError::Decode(key.to_owned())),
    }
}

/// The named kind a `kind` enumerant denotes, as [`named_kind_of`].
fn kind_from(kind: &str) -> (r: Option<NamedKind>)
    ensures
        r == named_kind_of(kind@),
{
    if str_eq(kind, "SCALAR") {
        Option::Some(NamedKind::Scalar)
    } else if str_eq(kind, "OBJECT") {
        Option::Some(NamedKind::Object)
    } else if str_eq(kind, "INTERFACE") {
        Option::Some(NamedKind::Interface)
    } else if str_eq(kind, "UNION") {
        Option::Some(NamedKind::Union)
    } else if str_eq(kind, "ENUM") {
        Option::Some(NamedKind::Enum)
    } else if str_eq(kind, "INPUT_OBJECT") {
        Option::Some(NamedKind::InputObject)
    } else {
        Option::None
    }
}

/// Decodes a type reference, as [`parse_type_ref`].
fn decode_type_ref(j: &JsonValue) -> (r: Result<TypeRef, SchemaError>)
    ensures
        match r {
            Ok(t) => parse_type_ref(*j) == Ok::<_, SchemaErrorV>(type_ref_view(t)),
            Err(e) => parse_type_ref(*j) == Err::<TypeRefV, _>(err_view(e)),
        },
    decreases jsize(*j),
{
    let kind = match get_req_str(j, "kind") {
        Ok(k) => k,
        Err(e) => {
            return Err(e);
        },
    };
    let is_list = str_eq(kind.as_str(), "LIST");
    let is_non_null = str_eq(kind.as_str(), "NON_NULL");
    if is_list || is_non_null {
        match jget(j, "ofType") {
            Option::None => Err(SchemaError::ModelInvariant("ofType".to_owned())),
            Option::Some(inner) => {
                if let JsonValue::Null = inner {
                    return Err(SchemaError::ModelInvariant("ofType".to_owned()));
                }
                proof {
                    lemma_jlookup_size(*j, "ofType"@);
                }
                match decode_type_ref(inner) {
                    Err(e) => Err(e),
                    Ok(t) => {
                        if is_list {
                            Ok(TypeRef::List { of: Box::new(t) })
                        } else {
                            Ok(TypeRef::NonNull { of: Box::new(t) })
                        }
                    },
                }
            },
        }
    } else {
        match kind_from(kind.as_str()) {
            Option::Some(k) => match get_req_str(j, "name") {
                Ok(name) => Ok(TypeRef::Named { kind: k, name }),
                Err(e) => Err(e),
            },
            Option::None => Err(SchemaError::Decode(kind)),
        }
    }
}

/// Prefixing a decoded list with what came before it.
pub open spec fn combine<T>(prefix: Seq<T>, r: Result<Seq<T>, SchemaErrorV>) -> Result<
    Seq<T>,
    SchemaErrorV,
> {
    match r {
        Ok(rest) => Ok(prefix + rest),
        Err(e) => Err(e),
    }
}

/// Decodes one input value, as [`parse_input_value`].
fn decode_input_value(j: &JsonValue) -> (r: Result<InputValue, SchemaError>)
    ensures
        match r {
            Ok(v) => parse_input_value(*j) == Ok::<_, SchemaErrorV>(input_value_view(v)),
            Err(e) => parse_input_value(*j) == Err::<InputValueV, _>(err_view(e)),
        },
{
    let name = match get_req_str(j, "name") {
        Ok(s) => s,
        Err(e) => {
            return Err(e);
        },
    };
    let description = match get_opt_str(j, "description") {
        Ok(s) => s,
        Err(e) => {
            return Err(e);
        },
    };
    let tj = match jget(j, "type") {
        Option::Some(t) => t,
        Option::None => {
            return Err(SchemaError::Decode("type".to_owned()));
        },
    };
    let ty = match decode_type_ref(tj) {
        Ok(t) => t,
        Err(e) => {
            return Err(e);
        },
    };
    let default_value = match get_opt_str(j, "defaultValue") {
        Ok(s) => s,
        Err(e) => {
            return Err(e);
        },
    };
    Ok(InputValue { name, description, ty, default_value })
}

/// Decodes a whole array of input values, as [`parse_input_values_from`].
fn decode_input_values(items: &Vec<JsonValue>) -> (r: Result<Vec<InputValue>, SchemaError>)
    ensures
        match r {
            Ok(vs) => parse_input_values_from(items@, 0) == Ok::<_, SchemaErrorV>(
                input_values_view(vs@),
            ),
            Err(e) => parse_input_values_from(items@, 0) == Err::<Seq<InputValueV>, _>(
                err_view(e),
            ),
        },
{
    let mut acc: Vec<InputValue> = Vec::new();
    let n: usize = items.len();
    let mut i: usize = 0;
    proof {
        assert(input_values_view(acc@) =~= Seq::<InputValueV>::empty());
        if parse_input_values_from(items@, 0) is Ok {
            assert(Seq::<InputValueV>::empty() + parse_input_values_from(items@, 0)->Ok_0
                =~= parse_input_values_from(items@, 0)->Ok_0);
        }
    }
    while i < n
        invariant
            n == items@.len(),
            i <= n,
            parse_input_values_from(items@, 0) == combine(
                input_values_view(acc@),
                parse_input_values_from(items@, i as int),
            ),
        decreases n - i,
    {
        match decode_input_value(&items[i]) {
            Err(e) => {
                return Err(e);
            },
            Ok(v) => {
                let ghost prev = input_values_view(acc@);
                let ghost vv = input_value_view(v);
                acc.push(v);
                proof {
                    assert(input_values_view(acc@) =~= prev.push(vv));
                    let tail = parse_input_values_from(items@, i as int + 1);
                    if tail is Ok {
                        assert(prev + (seq![vv] + tail->Ok_0) =~= prev.push(vv) + tail->Ok_0);
                    }
                }
            },
        }
        i = i + 1;
    }
    proof {
        assert(input_values_view(acc@) + Seq::<InputValueV>::empty() =~= input_values_view(acc@));
    }
    Ok(acc)
}

/// Decodes one field, as [`parse_field`].
fn decode_field(j: &JsonValue) -> (r: Result<Field, SchemaError>)
    ensures
        match r {
            Ok(f) => parse_field(*j) == Ok::<_, SchemaErrorV>(field_view(f)),
            Err(e) => parse_field(*j) == Err::<FieldV, _>(err_view(e)),
        },
{
    let name = match get_req_str(j, "name") {
        Ok(s) => s,
        Err(e) => {
            return Err(e);
        },
    };
    let description = match get_opt_str(j, "description") {
        Ok(s) => s,
        Err(e) => {
            return Err(e);
        },
    };
    let args = match get_opt_arr(j, "args") {
        Err(e) => {
            return Err(e);
        },
        Ok(Option::Some(items)) => match decode_input_values(items) {
            Ok(vs) => vs,
            Err(e) => {
                return Err(e);
            },
        },
        Ok(Option::None) => {
            let empty_args: Vec<InputValue> = Vec::new();
            proof {
                assert(input_values_view(empty_args@) =~= Seq::<InputValueV>::empty());
            }
            empty_args
        },
    };
    let tj = match jget(j, "type") {
        Option::Some(t) => t,
        Option::None => {
            return Err(SchemaError::Decode("type".to_owned()));
        },
    };
    let ty = match decode_type_ref(tj) {
        Ok(t) => t,
        Err(e) => {
            return Err(e);
        },
    };
    let is_deprecated = match get_req_bool(j, "isDeprecated") {
        Ok(b) => b,
        Err(e) => {
            return Err(e);
        },
    };
    let deprecation_reason = match get_opt_str(j, "deprecationReason") {
        Ok(s) => s,
        Err(e) => {
            return Err(e);
        },
    };
    Ok(Field { name, description, args, ty, is_deprecated, deprecation_reason })
}

/// Decodes a whole array of fields, as [`parse_fields_from`].
fn decode_fields(items: &Vec<JsonValue>) -> (r: Result<Vec<Field>, SchemaError>)
    ensures
        match r {
            Ok(fs) => parse_fields_from(items@, 0) == Ok::<_, SchemaErrorV>(fields_view(fs@)),
            Err(e) => parse_fields_from(items@, 0) == Err::<Seq<FieldV>, _>(err_view(e)),
        },
{
    let mut acc: Vec<Field> = Vec::new();
    let n: usize = items.len();
    let mut i: usize = 0;
    proof {
        assert(fields_view(acc@) =~= Seq::<FieldV>::empty());
        if parse_fields_from(items@, 0) is Ok {
            assert(Seq::<FieldV>::empty() + parse_fields_from(items@, 0)->Ok_0
                =~= parse_fields_from(items@, 0)->Ok_0);
        }
    }
    while i < n
        invariant
            n == items@.len(),
            i <= n,
            parse_fields_from(items@, 0) == combine(
                fields_view(acc@),
                parse_fields_from(items@, i as int),
            ),
        decreases n - i,
    {
        match decode_field(&items[i]) {
            Err(e) => {
                return Err(e);
            },
            Ok(f) => {
                let ghost prev = fields_view(acc@);
                let ghost fv = field_view(f);
                acc.push(f);
                proof {
                    assert(fields_view(acc@) =~= prev.push(fv));
                    let tail = parse_fields_from(items@, i as int + 1);
                    if tail is Ok {
                        assert(prev + (seq![fv] + tail->Ok_0) =~= prev.push(fv) + tail->Ok_0);
                    }
                }
            },
        }
        i = i + 1;
    }
    proof {
        assert(fields_view(acc@) + Seq::<FieldV>::empty() =~= fields_view(acc@));
    }
    Ok(acc)
}

/// Decodes one enum value, as [`parse_enum_value`].
fn decode_enum_value(j: &JsonValue) -> (r: Result<EnumValue, SchemaError>)
    ensures
        match r {
            Ok(v) => parse_enum_value(*j) == Ok::<_, SchemaErrorV>(enum_value_view(v)),
            Err(e) => parse_enum_value(*j) == Err::<EnumValueV, _>(err_view(e)),
        },
{
    let name = match get_req_str(j, "name") {
        Ok(s) => s,
        Err(e) => {
            return Err(e);
        },
    };
    let description = match get_opt_str(j, "description") {
        Ok(s) => s,
        Err(e) => {
            return Err(e);
        },
    };
    let is_deprecated = match get_req_bool(j, "isDeprecated") {
        Ok(b) => b,
        Err(e) => {
            return Err(e);
        },
    };
    let deprecation_reason = match get_opt_str(j, "deprecationReason") {
        Ok(s) => s,
        Err(e) => {
            return Err(e);
        },
    };
    Ok(EnumValue { name, description, is_deprecated, deprecation_reason })
}

/// Decodes a whole array of enum values, as [`parse_enum_values_from`].
fn decode_enum_values(items: &Vec<JsonValue>) -> (r: Result<Vec<EnumValue>, SchemaError>)
    ensures
        match r {
            Ok(vs) => parse_enum_values_from(items@, 0) == Ok::<_, SchemaErrorV>(
                enum_values_view(vs@),
            ),
            Err(e) => parse_enum_values_from(items@, 0) == Err::<Seq<EnumValueV>, _>(err_view(e)),
        },
{
    let mut acc: Vec<EnumValue> = Vec::new();
    let n: usize = items.len();
    let mut i: usize = 0;
    proof {
        assert(enum_values_view(acc@) =~= Seq::<EnumValueV>::empty());
        if parse_enum_values_from(items@, 0) is Ok {
            assert(Seq::<EnumValueV>::empty() + parse_enum_values_from(items@, 0)->Ok_0
                =~= parse_enum_values_from(items@, 0)->Ok_0);
        }
    }
    while i < n
        invariant
            n == items@.len(),
            i <= n,
            parse_enum_values_from(items@, 0) == combine(
                enum_values_view(acc@),
                parse_enum_values_from(items@, i as int),
            ),
        decreases n - i,
    {
        match decode_enum_value(&items[i]) {
            Err(e) => {
                return Err(e);
            },
            Ok(v) => {
                let ghost prev = enum_values_view(acc@);
                let ghost vv = enum_value_view(v);
                acc.push(v);
                proof {
                    assert(enum_values_view(acc@) =~= prev.push(vv));
                    let tail = parse_enum_values_from(items@, i as int + 1);
                    if tail is Ok {
                        assert(prev + (seq![vv] + tail->Ok_0) =~= prev.push(vv) + tail->Ok_0);
                    }
                }
            },
        }
        i = i + 1;
    }
    proof {
        assert(enum_values_view(acc@) + Seq::<EnumValueV>::empty() =~= enum_values_view(acc@));
    }
    Ok(acc)
}

/// Decodes a union's member names, as [`parse_possible_types_from`].
fn decode_possible_types(items: &Vec<JsonValue>) -> (r: Result<Vec<String>, SchemaError>)
    ensures
        match r {
            Ok(ns) => parse_possible_types_from(items@, 0) == Ok::<_, SchemaErrorV>(
                strings_view(ns@),
            ),
            Err(e) => parse_possible_types_from(items@, 0) == Err::<Seq<Seq<char>>, _>(
                err_view(e),
            ),
        },
{
    let mut acc: Vec<String> = Vec::new();
    let n: usize = items.len();
    let mut i: usize = 0;
    proof {
        assert(strings_view(acc@) =~= Seq::<Seq<char>>::empty());
        if parse_possible_types_from(items@, 0) is Ok {
            assert(Seq::<Seq<char>>::empty() + parse_possible_types_from(items@, 0)->Ok_0
                =~= parse_possible_types_from(items@, 0)->Ok_0);
        }
    }
    while i < n
        invariant
            n == items@.len(),
            i <= n,
            parse_possible_types_from(items@, 0) == combine(
                strings_view(acc@),
                parse_possible_types_from(items@, i as int),
            ),
        decreases n - i,
    {
        match get_req_str(&items[i], "name") {
            Err(e) => {
                return Err(e);
            },
            Ok(name) => {
                let ghost prev = strings_view(acc@);
                let ghost nv = name@;
                acc.push(name);
                proof {
                    assert(strings_view(acc@) =~= prev.push(nv));
                    let tail = parse_possible_types_from(items@, i as int + 1);
                    if tail is Ok {
                        assert(prev + (seq![nv] + tail->Ok_0) =~= prev.push(nv) + tail->Ok_0);
                    }
                }
            },
        }
        i = i + 1;
    }
    proof {
        assert(strings_view(acc@) + Seq::<Seq<char>>::empty() =~= strings_view(acc@));
    }
    Ok(acc)
}

/// Decodes a directive's location names, as [`parse_locations_from`].
fn decode_locations(items: &Vec<JsonValue>) -> (r: Result<Vec<String>, SchemaError>)
    ensures
        match r {
            Ok(ns) => parse_locations_from(items@, 0) == Ok::<_, SchemaErrorV>(strings_view(ns@)),
            Err(e) => parse_locations_from(items@, 0) == Err::<Seq<Seq<char>>, _>(err_view(e)),
        },
{
    let mut acc: Vec<String> = Vec::new();
    let n: usize = items.len();
    let mut i: usize = 0;
    proof {
        assert(strings_view(acc@) =~= Seq::<Seq<char>>::empty());
        if parse_locations_from(items@, 0) is Ok {
            assert(Seq::<Seq<char>>::empty() + parse_locations_from(items@, 0)->Ok_0
                =~= parse_locations_from(items@, 0)->Ok_0);
        }
    }
    while i < n
        invariant
            n == items@.len(),
            i <= n,
            parse_locations_from(items@, 0) == combine(
                strings_view(acc@),
                parse_locations_from(items@, i as int),
            ),
        decreases n - i,
    {
        match &items[i] {
            JsonValue::Str(s) => {
                let name = s.clone();
                let ghost prev = strings_view(acc@);
                let ghost nv = name@;
                acc.push(name);
                proof {
                    assert(strings_view(acc@) =~= prev.push(nv));
                    let tail = parse_locations_from(items@, i as int + 1);
                    if tail is Ok {
                        assert(prev + (seq![nv] + tail->Ok_0) =~= prev.push(nv) + tail->Ok_0);
                    }
                }
            },
            _ => {
                return Err(SchemaError::Decode("locations".to_owned()));
            },
        }
        i = i + 1;
    }
    proof {
        assert(strings_view(acc@) + Seq::<Seq<char>>::empty() =~= strings_view(acc@));
    }
    Ok(acc)
}

/// Decodes one top-level type declaration, as [`parse_type`].
#[verifier::rlimit(50)]
fn decode_type(j: &JsonValue) -> (r: Result<Type, SchemaError>)
    ensures
        match r {
            Ok(t) => parse_type(*j) == Ok::<_, SchemaErrorV>(type_view(t)),
            Err(e) => parse_type(*j) == Err::<TypeV, _>(err_view(e)),
        },
{
    let name = match get_req_str(j, "name") {
        Ok(s) => s,
        Err(e) => {
            return Err(e);
        },
    };
    let description = match get_opt_str(j, "description") {
        Ok(s) => s,
        Err(e) => {
            return Err(e);
        },
    };
    let kind = match get_req_str(j, "kind") {
        Ok(s) => s,
        Err(e) => {
            return Err(e);
        },
    };
    if str_eq(kind.as_str(), "LIST") || str_eq(kind.as_str(), "NON_NULL") {
        Err(SchemaError::ModelInvariant(name))
    } else if str_eq(kind.as_str(), "SCALAR") {
        Ok(Type { name, description, def: TypeDef::Scalar })
    } else if str_eq(kind.as_str(), "OBJECT") {
        match get_opt_arr(j, "fields") {
            Err(e) => Err(e),
            Ok(Option::Some(items)) => match decode_fields(items) {
                Err(e) => Err(e),
                Ok(fields) => Ok(Type { name, description, def: TypeDef::Object { fields } }),
            },
            Ok(Option::None) => {
                let fields: Vec<Field> = Vec::new();
                proof {
                    assert(fields_view(fields@) =~= Seq::<FieldV>::empty());
                }
                Ok(Type { name, description, def: TypeDef::Object { fields } })
            },
        }
    } else if str_eq(kind.as_str(), "INTERFACE") {
        match get_opt_arr(j, "fields") {
            Err(e) => Err(e),
            Ok(Option::Some(items)) => match decode_fields(items) {
                Err(e) => Err(e),
                Ok(fields) => Ok(Type { name, description, def: TypeDef::Interface { fields } }),
            },
            Ok(Option::None) => {
                let fields: Vec<Field> = Vec::new();
                proof {
                    assert(fields_view(fields@) =~= Seq::<FieldV>::empty());
                }
                Ok(Type { name, description, def: TypeDef::Interface { fields } })
            },
        }
    } else if str_eq(kind.as_str(), "UNION") {
        match get_opt_arr(j, "possibleTypes") {
            Err(e) => Err(e),
            Ok(Option::Some(items)) => match decode_possible_types(items) {
                Err(e) => Err(e),
                Ok(possible_types) => Ok(
                    Type { name, description, def: TypeDef::Union { possible_types } },
                ),
            },
            Ok(Option::None) => {
                let possible_types: Vec<String> = Vec::new();
                proof {
                    assert(strings_view(possible_types@) =~= Seq::<Seq<char>>::empty());
                }
                Ok(Type { name, description, def: TypeDef::Union { possible_types } })
            },
        }
    } else if str_eq(kind.as_str(), "ENUM") {
        match get_opt_arr(j, "enumValues") {
            Err(e) => Err(e),
            Ok(Option::Some(items)) => match decode_enum_values(items) {
                Err(e) => Err(e),
                Ok(values) => Ok(Type { name, description, def: TypeDef::Enum { values } }),
            },
            Ok(Option::None) => {
                let values: Vec<EnumValue> = Vec::new();
                proof {
                    assert(enum_values_view(values@) =~= Seq::<EnumValueV>::empty());
                }
                Ok(Type { name, description, def: TypeDef::Enum { values } })
            },
        }
    } else if str_eq(kind.as_str(), "INPUT_OBJECT") {
        match get_opt_arr(j, "inputFields") {
            Err(e) => Err(e),
            Ok(Option::Some(items)) => match decode_input_values(items) {
                Err(e) => Err(e),
                Ok(input_fields) => Ok(
                    Type { name, description, def: TypeDef::InputObject { input_fields } },
                ),
            },
            Ok(Option::None) => {
                let input_fields: Vec<InputValue> = Vec::new();
                proof {
                    assert(input_values_view(input_fields@) =~= Seq::<InputValueV>::empty());
                }
                Ok(Type { name, description, def: TypeDef::InputObject { input_fields } })
            },
        }
    } else {
        Err(SchemaError::Decode(kind))
    }
}

/// Decodes a whole array of type declarations, as [`parse_types_from`].
fn decode_types(items: &Vec<JsonValue>) -> (r: Result<Vec<Type>, SchemaError>)
    ensures
        match r {
            Ok(ts) => parse_types_from(items@, 0) == Ok::<_, SchemaErrorV>(types_view(ts@)),
            Err(e) => parse_types_from(items@, 0) == Err::<Seq<TypeV>, _>(err_view(e)),
        },
{
    let mut acc: Vec<Type> = Vec::new();
    let n: usize = items.len();
    let mut i: usize = 0;
    proof {
        assert(types_view(acc@) =~= Seq::<TypeV>::empty());
        if parse_types_from(items@, 0) is Ok {
            assert(Seq::<TypeV>::empty() + parse_types_from(items@, 0)->Ok_0
                =~= parse_types_from(items@, 0)->Ok_0);
        }
    }
    while i < n
        invariant
            n == items@.len(),
            i <= n,
            parse_types_from(items@, 0) == combine(
                types_view(acc@),
                parse_types_from(items@, i as int),
            ),
        decreases n - i,
    {
        match decode_type(&items[i]) {
            Err(e) => {
                return Err(e);
            },
            Ok(t) => {
                let ghost prev = types_view(acc@);
                let ghost tv = type_view(t);
                acc.push(t);
                proof {
                    assert(types_view(acc@) =~= prev.push(tv));
                    let tail = parse_types_from(items@, i as int + 1);
                    if tail is Ok {
                        assert(prev + (seq![tv] + tail->Ok_0) =~= prev.push(tv) + tail->Ok_0);
                    }
                }
            },
        }
        i = i + 1;
    }
    proof {
        assert(types_view(acc@) + Seq::<TypeV>::empty() =~= types_view(acc@));
    }
    Ok(acc)
}

/// Decodes one directive declaration, as [`parse_directive`].
fn decode_directive(j: &JsonValue) -> (r: Result<Directive, SchemaError>)
    ensures
        match r {
            Ok(d) => parse_directive(*j) == Ok::<_, SchemaErrorV>(directive_view(d)),
            Err(e) => parse_directive(*j) == Err::<DirectiveV, _>(err_view(e)),
        },
{
    let name = match get_req_str(j, "name") {
        Ok(s) => s,
        Err(e) => {
            return Err(e);
        },
    };
    let description = match get_opt_str(j, "description") {
        Ok(s) => s,
        Err(e) => {
            return Err(e);
        },
    };
    let loc_items = match get_req_arr(j, "locations") {
        Ok(x) => x,
        Err(e) => {
            return Err(e);
        },
    };
    let locations = match decode_locations(loc_items) {
        Ok(x) => x,
        Err(e) => {
            return Err(e);
        },
    };
    let arg_items = match get_req_arr(j, "args") {
        Ok(x) => x,
        Err(e) => {
            return Err(e);
        },
    };
    let args = match decode_input_values(arg_items) {
        Ok(x) => x,
        Err(e) => {
            return Err(e);
        },
    };
    Ok(Directive { name, description, locations, args })
}

/// Decodes a whole array of directives, as [`parse_directives_from`].
fn decode_directives(items: &Vec<JsonValue>) -> (r: Result<Vec<Directive>, SchemaError>)
    ensures
        match r {
            Ok(ds) => parse_directives_from(items@, 0) == Ok::<_, SchemaErrorV>(
                directives_view(ds@),
            ),
            Err(e) => parse_directives_from(items@, 0) == Err::<Seq<DirectiveV>, _>(err_view(e)),
        },
{
    let mut acc: Vec<Directive> = Vec::new();
    let n: usize = items.len();
    let mut i: usize = 0;
    proof {
        assert(directives_view(acc@) =~= Seq::<DirectiveV>::empty());
        if parse_directives_from(items@, 0) is Ok {
            assert(Seq::<DirectiveV>::empty() + parse_directives_from(items@, 0)->Ok_0
                =~= parse_directives_from(items@, 0)->Ok_0);
        }
    }
    while i < n
        invariant
            n == items@.len(),
            i <= n,
            parse_directives_from(items@, 0) == combine(
                directives_view(acc@),
                parse_directives_from(items@, i as int),
            ),
        decreases n - i,
    {
        match decode_directive(&items[i]) {
            Err(e) => {
                return Err(e);
            },
            Ok(d) => {
                let ghost prev = directives_view(acc@);
                let ghost dv = directive_view(d);
                acc.push(d);
                proof {
                    assert(directives_view(acc@) =~= prev.push(dv));
                    let tail = parse_directives_from(items@, i as int + 1);
                    if tail is Ok {
                        assert(prev + (seq![dv] + tail->Ok_0) =~= prev.push(dv) + tail->Ok_0);
                    }
                }
            },
        }
        i = i + 1;
    }
    proof {
        assert(directives_view(acc@) + Seq::<DirectiveV>::empty() =~= directives_view(acc@));
    }
    Ok(acc)
}

/// Decodes the `__schema` object, as [`parse_schema`].
fn decode_schema(j: &JsonValue) -> (r: Result<Schema, SchemaError>)
    ensures
        match r {
            Ok(s) => parse_schema(*j) == Ok::<_, SchemaErrorV>(schema_view(s)),
            Err(e) => parse_schema(*j) == Err::<SchemaV, _>(err_view(e)),
        },
{
    let type_items = match get_req_arr(j, "types") {
        Ok(x) => x,
        Err(e) => {
            return Err(e);
        },
    };
    let types = match decode_types(type_items) {
        Ok(x) => x,
        Err(e) => {
            return Err(e);
        },
    };
    let directives = match jget(j, "directives") {
        Option::None => {
            let ds: Vec<Directive> = Vec::new();
            proof {
                assert(directives_view(ds@) =~= Seq::<DirectiveV>::empty());
            }
            ds
        },
        Option::Some(JsonValue::Arr(items)) => match decode_directives(items) {
            Ok(x) => x,
            Err(e) => {
                return Err(e);
            },
        },
        Option::Some(_) => {
            return Err(SchemaError::Decode("directives".to_owned()));
        },
    };
    Ok(Schema { directives, types })
}

/// Decodes the whole introspection response, as [`parse_document`].
pub fn decode_document(j: &JsonValue) -> (r: Result<Schema, SchemaError>)
    ensures
        match r {
            Ok(s) => parse_document(*j) == Ok::<_, SchemaErrorV>(schema_view(s)),
            Err(e) => parse_document(*j) == Err::<SchemaV, _>(err_view(e)),
        },
{
    let d = match jget(j, "data") {
        Option::Some(d) => d,
        Option::None => {
            return Err(SchemaError::Decode("data".to_owned()));
        },
    };
    let s = match jget(d, "__schema") {
        Option::Some(s) => s,
        Option::None => {
            return Err(SchemaError::Decode("__schema".to_owned()));
        },
    };
    decode_schema(s)
}

} // verus!
