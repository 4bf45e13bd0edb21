//! The schema model: the decoded form of a GraphQL introspection document.
//!
//! A `Schema` holds directives and types in document order.  Named kinds and
//! wrapping kinds are kept apart by construction: a top-level `Type` can only
//! be one of the six named kinds, while `List` and `NonNull` exist only as
//! `TypeRef` wrappers, so the invariant "no top-level wrapper type" cannot be
//! violated by a value of these types.
//!
//! Each executable type has a ghost counterpart (`TypeV`, `FieldV`, ...) over
//! `Seq<char>`, with a view function mapping one to the other; contracts are
//! stated over the ghost side.

use vstd::prelude::*;

verus! {

/// The six kinds a named GraphQL type can have.
#[derive(Clone, Copy, Debug, PartialEq, Eq, Structural)]
pub enum NamedKind {
    Scalar,
    Object,
    Interface,
    Union,
    Enum,
    InputObject,
}

/// A possibly wrapped reference to a named type, as used in field, argument
/// and input-field type positions.  Wrapping is genuinely recursive: any
/// wrap depth the document contains is representable.
pub enum TypeRef {
    Named { kind: NamedKind, name: String },
    List { of: Box<TypeRef> },
    NonNull { of: Box<TypeRef> },
}

/// Ghost counterpart of [`TypeRef`].
pub enum TypeRefV {
    Named { kind: NamedKind, name: Seq<char> },
    List { of: Box<TypeRefV> },
    NonNull { of: Box<TypeRefV> },
}

/// An argument declaration, an input field, or a directive argument: they all
/// share one shape (name, optional description, type, optional pre-rendered
/// default value).
pub struct InputValue {
    pub name: String,
    pub description: Option<String>,
    pub ty: TypeRef,
    pub default_value: Option<String>,
}

/// Ghost counterpart of [`InputValue`].
pub struct InputValueV {
    pub name: Seq<char>,
    pub description: Option<Seq<char>>,
    pub ty: TypeRefV,
    pub default_value: Option<Seq<char>>,
}

/// A field of an object or interface type.  Deprecation data is decoded and
/// retained, but deliberately never rendered: whether to surface it as a
/// `@deprecated` directive is left open.
pub struct Field {
    pub name: String,
    pub description: Option<String>,
    pub args: Vec<InputValue>,
    pub ty: TypeRef,
    pub is_deprecated: bool,
    pub deprecation_reason: Option<String>,
}

/// Ghost counterpart of [`Field`].
pub struct FieldV {
    pub name: Seq<char>,
    pub description: Option<Seq<char>>,
    pub args: Seq<InputValueV>,
    pub ty: TypeRefV,
    pub is_deprecated: bool,
    pub deprecation_reason: Option<Seq<char>>,
}

/// One value of an enum type.
pub struct EnumValue {
    pub name: String,
    pub description: Option<String>,
    pub is_deprecated: bool,
    pub deprecation_reason: Option<String>,
}

/// Ghost counterpart of [`EnumValue`].
pub struct EnumValueV {
    pub name: Seq<char>,
    pub description: Option<Seq<char>>,
    pub is_deprecated: bool,
    pub deprecation_reason: Option<Seq<char>>,
}

/// The kind-specific payload of a top-level type.  Only the six named kinds
/// exist here; `List` and `NonNull` live in [`TypeRef`] alone.
pub enum TypeDef {
    Scalar,
    Object { fields: Vec<Field> },
    Interface { fields: Vec<Field> },
    Union { possible_types: Vec<String> },
    Enum { values: Vec<EnumValue> },
    InputObject { input_fields: Vec<InputValue> },
}

/// Ghost counterpart of [`TypeDef`].
pub enum TypeDefV {
    Scalar,
    Object { fields: Seq<FieldV> },
    Interface { fields: Seq<FieldV> },
    Union { possible_types: Seq<Seq<char>> },
    Enum { values: Seq<EnumValueV> },
    InputObject { input_fields: Seq<InputValueV> },
}

/// A top-level type declaration.
pub struct Type {
    pub name: String,
    pub description: Option<String>,
    pub def: TypeDef,
}

/// Ghost counterpart of [`Type`].
pub struct TypeV {
    pub name: Seq<char>,
    pub description: Option<Seq<char>>,
    pub def: TypeDefV,
}

/// A directive declaration.
pub struct Directive {
    pub name: String,
    pub description: Option<String>,
    pub locations: Vec<String>,
    pub args: Vec<InputValue>,
}

/// Ghost counterpart of [`Directive`].
pub struct DirectiveV {
    pub name: Seq<char>,
    pub description: Option<Seq<char>>,
    pub locations: Seq<Seq<char>>,
    pub args: Seq<InputValueV>,
}

/// The whole decoded document: directives then types, each in the order the
/// document gave them.
pub struct Schema {
    pub directives: Vec<Directive>,
    pub types: Vec<Type>,
}

/// Ghost counterpart of [`Schema`].
pub struct SchemaV {
    pub directives: Seq<DirectiveV>,
    pub types: Seq<TypeV>,
}

pub open spec fn opt_str_view(o: Option<String>) -> Option<Seq<char>> {
    match o {
        Option::Some(s) => Option::Some(s@),
        Option::None => Option::None,
    }
}

pub open spec fn type_ref_view(t: TypeRef) -> TypeRefV
    decreases t,
{
    match t {
        TypeRef::Named { kind, name } => TypeRefV::Named { kind, name: name@ },
        TypeRef::List { of } => TypeRefV::List { of: Box::new(type_ref_view(*of)) },
        TypeRef::NonNull { of } => TypeRefV::NonNull { of: Box::new(type_ref_view(*of)) },
    }
}

pub open spec fn input_value_view(v: InputValue) -> InputValueV {
    InputValueV {
        name: v.name@,
        description: opt_str_view(v.description),
        ty: type_ref_view(v.ty),
        default_value: opt_str_view(v.default_value),
    }
}

pub open spec fn input_values_view(vs: Seq<InputValue>) -> Seq<InputValueV> {
    Seq::new(vs.len(), |i: int| input_value_view(vs[i]))
}

pub open spec fn field_view(f: Field) -> FieldV {
    FieldV {
        name: f.name@,
        description: opt_str_view(f.description),
        args: input_values_view(f.args@),
        ty: type_ref_view(f.ty),
        is_deprecated: f.is_deprecated,
        deprecation_reason: opt_str_view(f.deprecation_reason),
    }
}

pub open spec fn fields_view(fs: Seq<Field>) -> Seq<FieldV> {
    Seq::new(fs.len(), |i: int| field_view(fs[i]))
}

pub open spec fn enum_value_view(v: EnumValue) -> EnumValueV {
    EnumValueV {
        name: v.name@,
        description: opt_str_view(v.description),
        is_deprecated: v.is_deprecated,
        deprecation_reason: opt_str_view(v.deprecation_reason),
    }
}

pub open spec fn enum_values_view(vs: Seq<EnumValue>) -> Seq<EnumValueV> {
    Seq::new(vs.len(), |i: int| enum_value_view(vs[i]))
}

pub open spec fn strings_view(ss: Seq<String>) -> Seq<Seq<char>> {
    Seq::new(ss.len(), |i: int| ss[i]@)
}

pub open spec fn type_def_view(d: TypeDef) -> TypeDefV {
    match d {
        TypeDef::Scalar => TypeDefV::Scalar,
        TypeDef::Object { fields } => TypeDefV::Object { fields: fields_view(fields@) },
        TypeDef::Interface { fields } => TypeDefV::Interface { fields: fields_view(fields@) },
        TypeDef::Union { possible_types } => TypeDefV::Union {
            possible_types: strings_view(possible_types@),
        },
        TypeDef::Enum { values } => TypeDefV::Enum { values: enum_values_view(values@) },
        TypeDef::InputObject { input_fields } => TypeDefV::InputObject {
            input_fields: input_values_view(input_fields@),
        },
    }
}

pub open spec fn type_view(t: Type) -> TypeV {
    TypeV { name: t.name@, description: opt_str_view(t.description), def: type_def_view(t.def) }
}

pub open spec fn types_view(ts: Seq<Type>) -> Seq<TypeV> {
    Seq::new(ts.len(), |i: int| type_view(ts[i]))
}

pub open spec fn directive_view(d: Directive) -> DirectiveV {
    DirectiveV {
        name: d.name@,
        description: opt_str_view(d.description),
        locations: strings_view(d.locations@),
        args: input_values_view(d.args@),
    }
}

pub open spec fn directives_view(ds: Seq<Directive>) -> Seq<DirectiveV> {
    Seq::new(ds.len(), |i: int| directive_view(ds[i]))
}

pub open spec fn schema_view(s: Schema) -> SchemaV {
    SchemaV { directives: directives_view(s.directives@), types: types_view(s.types@) }
}

} // verus!
