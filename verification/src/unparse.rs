//! The unparser: a deterministic, recursive printer from the schema model to
//! GraphQL SDL text.
//!
//! Every rendering function appends to a `String` buffer, and its contract
//! says exactly which character sequence it appends: the `*_sdl` spec
//! functions are the rendering, stated mathematically, and [`write_schema`]
//! produces `schema_sdl` of its input, character for character.  The
//! comment-visibility switch is an explicit argument everywhere, never shared
//! state, so concurrent renderings cannot interfere.

use vstd::prelude::*;
use vstd::string::StrSliceExecFns;
use vstd::string::StringExecFns;

use crate::model::Directive;
use crate::model::DirectiveV;
use crate::model::EnumValue;
use crate::model::EnumValueV;
use crate::model::Field;
use crate::model::FieldV;
use crate::model::InputValue;
use crate::model::InputValueV;
use crate::model::Schema;
use crate::model::SchemaV;
use crate::model::Type;
use crate::model::TypeDef;
use crate::model::TypeDefV;
use crate::model::TypeRef;
use crate::model::TypeRefV;
use crate::model::TypeV;
use crate::model::directive_view;
use crate::model::directives_view;
use crate::model::enum_value_view;
use crate::model::enum_values_view;
use crate::model::field_view;
use crate::model::fields_view;
use crate::model::input_value_view;
use crate::model::input_values_view;
use crate::model::schema_view;
use crate::model::strings_view;
use crate::model::type_ref_view;
use crate::model::type_view;
use crate::model::types_view;

verus! {

/// The comment block for a description: the text between triple-quote
/// delimiters, with one space before the closing delimiter when the text ends
/// in a double quote, so that no four-quote run can arise.  Nothing at all
/// when comments are disabled.
pub open spec fn comment_sdl(text: Seq<char>, with_comments: bool) -> Seq<char> {
    if !with_comments {
        Seq::empty()
    } else {
        "\"\"\""@ + text + (if text.len() > 0 && text[text.len() - 1] == '"' {
            " "@
        } else {
            Seq::empty()
        }) + "\"\"\""@ + "\n"@
    }
}

/// A type reference: named kinds print the bare name, `List` brackets its
/// wrapped reference, `NonNull` suffixes it with `!`, to any depth.
pub open spec fn type_ref_sdl(t: TypeRefV) -> Seq<char>
    decreases t,
{
    match t {
        TypeRefV::Named { kind, name } => name,
        TypeRefV::List { of } => "["@ + type_ref_sdl(*of) + "]"@,
        TypeRefV::NonNull { of } => type_ref_sdl(*of) + "!"@,
    }
}

/// `name: Type`, with ` = default` when a default value is present.
pub open spec fn input_value_sdl(v: InputValueV) -> Seq<char> {
    v.name + ": "@ + type_ref_sdl(v.ty) + (match v.default_value {
        Option::Some(d) => " = "@ + d,
        Option::None => Seq::empty(),
    })
}

/// The first `i` input values, comma-separated.
pub open spec fn args_sdl_to(args: Seq<InputValueV>, i: int) -> Seq<char>
    decreases i,
{
    if i <= 0 {
        Seq::empty()
    } else {
        args_sdl_to(args, i - 1) + input_value_sdl(args[i - 1]) + (if i < args.len() {
            ", "@
        } else {
            Seq::empty()
        })
    }
}

pub open spec fn args_sdl(args: Seq<InputValueV>) -> Seq<char> {
    args_sdl_to(args, args.len() as int)
}

/// The first `i` names, pipe-separated (directive locations, union members).
pub open spec fn pipes_sdl_to(items: Seq<Seq<char>>, i: int) -> Seq<char>
    decreases i,
{
    if i <= 0 {
        Seq::empty()
    } else {
        pipes_sdl_to(items, i - 1) + items[i - 1] + (if i < items.len() {
            " | "@
        } else {
            Seq::empty()
        })
    }
}

pub open spec fn pipes_sdl(items: Seq<Seq<char>>) -> Seq<char> {
    pipes_sdl_to(items, items.len() as int)
}

/// One directive declaration, ended by a blank line.  Its description is a
/// `description: <text>` line, emitted only when comments are enabled.
pub open spec fn directive_sdl(d: DirectiveV, with_comments: bool) -> Seq<char> {
    (if with_comments {
        match d.description {
            Option::Some(text) => "description: "@ + text + "\n"@,
            Option::None => Seq::empty(),
        }
    } else {
        Seq::empty()
    }) + "directive @"@ + d.name + "("@ + args_sdl(d.args) + ") on "@ + pipes_sdl(d.locations)
        + "\n\n"@
}

pub open spec fn directives_sdl_to(ds: Seq<DirectiveV>, with_comments: bool, i: int) -> Seq<char>
    decreases i,
{
    if i <= 0 {
        Seq::empty()
    } else {
        directives_sdl_to(ds, with_comments, i - 1) + directive_sdl(ds[i - 1], with_comments)
    }
}

pub open spec fn directives_sdl(ds: Seq<DirectiveV>, with_comments: bool) -> Seq<char> {
    directives_sdl_to(ds, with_comments, ds.len() as int)
}

/// One field line: indented comment block when present and enabled, then the
/// indented name, a parenthesised argument list only when there are
/// arguments, and the field type.
pub open spec fn field_sdl(f: FieldV, with_comments: bool) -> Seq<char> {
    (if with_comments {
        match f.description {
            Option::Some(text) => "  "@ + comment_sdl(text, true),
            Option::None => Seq::empty(),
        }
    } else {
        Seq::empty()
    }) + "  "@ + f.name + (if f.args.len() > 0 {
        "("@ + args_sdl(f.args) + ")"@
    } else {
        Seq::empty()
    }) + ": "@ + type_ref_sdl(f.ty) + "\n"@
}

pub open spec fn fields_sdl_to(fs: Seq<FieldV>, with_comments: bool, i: int) -> Seq<char>
    decreases i,
{
    if i <= 0 {
        Seq::empty()
    } else {
        fields_sdl_to(fs, with_comments, i - 1) + field_sdl(fs[i - 1], with_comments)
    }
}

pub open spec fn fields_sdl(fs: Seq<FieldV>, with_comments: bool) -> Seq<char> {
    fields_sdl_to(fs, with_comments, fs.len() as int)
}

/// One enum value line: just the indented name.
pub open spec fn enum_values_sdl_to(vs: Seq<EnumValueV>, i: int) -> Seq<char>
    decreases i,
{
    if i <= 0 {
        Seq::empty()
    } else {
        enum_values_sdl_to(vs, i - 1) + "  "@ + vs[i - 1].name + "\n"@
    }
}

pub open spec fn enum_values_sdl(vs: Seq<EnumValueV>) -> Seq<char> {
    enum_values_sdl_to(vs, vs.len() as int)
}

/// One input field line: indented `name: Type[ = default]`.
pub open spec fn input_fields_sdl_to(fs: Seq<InputValueV>, i: int) -> Seq<char>
    decreases i,
{
    if i <= 0 {
        Seq::empty()
    } else {
        input_fields_sdl_to(fs, i - 1) + "  "@ + input_value_sdl(fs[i - 1]) + "\n"@
    }
}

pub open spec fn input_fields_sdl(fs: Seq<InputValueV>) -> Seq<char> {
    input_fields_sdl_to(fs, fs.len() as int)
}

/// The keyword form of a type declaration's kind: everything after the
/// description comment.  An object or interface with no fields keeps its
/// empty braced body, and a union with no members ends after the `=`.
pub open spec fn type_keyword_sdl(t: TypeV, with_comments: bool) -> Seq<char> {
    match t.def {
        TypeDefV::Scalar => "scalar "@ + t.name + "\n"@,
        TypeDefV::Object { fields } => "type "@ + t.name + " {\n"@ + fields_sdl(
            fields,
            with_comments,
        ) + "}\n"@,
        TypeDefV::Interface { fields } => "interface "@ + t.name + " {\n"@ + fields_sdl(
            fields,
            with_comments,
        ) + "}\n"@,
        TypeDefV::Union { possible_types } => "union "@ + t.name + " = "@ + pipes_sdl(
            possible_types,
        ) + "\n"@,
        TypeDefV::Enum { values } => "enum "@ + t.name + " {\n"@ + enum_values_sdl(values)
            + "}\n"@,
        TypeDefV::InputObject { input_fields } => "input "@ + t.name + " {\n"@ + input_fields_sdl(
            input_fields,
        ) + "}\n"@,
    }
}

/// One type declaration: the description comment block when enabled, then the
/// keyword form of its kind.
pub open spec fn type_sdl(t: TypeV, with_comments: bool) -> Seq<char> {
    (match t.description {
        Option::Some(text) => comment_sdl(text, with_comments),
        Option::None => Seq::empty(),
    }) + type_keyword_sdl(t, with_comments)
}

pub open spec fn types_sdl_to(ts: Seq<TypeV>, with_comments: bool, i: int) -> Seq<char>
    decreases i,
{
    if i <= 0 {
        Seq::empty()
    } else {
        types_sdl_to(ts, with_comments, i - 1) + type_sdl(ts[i - 1], with_comments)
    }
}

pub open spec fn types_sdl(ts: Seq<TypeV>, with_comments: bool) -> Seq<char> {
    types_sdl_to(ts, with_comments, ts.len() as int)
}

/// The whole document: directives, then types, each in document order.
pub open spec fn schema_sdl(s: SchemaV, with_comments: bool) -> Seq<char> {
    directives_sdl(s.directives, with_comments) + types_sdl(s.types, with_comments)
}

/// Appends the comment block of [`comment_sdl`].
pub fn write_comment(writer: &mut String, comment: &str, with_comments: bool)
    ensures
        final(writer)@ == old(writer)@ + comment_sdl(comment@, with_comments),
{
    if !with_comments {
        proof {
            assert(writer@ =~= writer@ + comment_sdl(comment@, false));
        }
        return ;
    }
    writer.append("\"\"\"");
    writer.append(comment);
    let n = comment.unicode_len();
    if n > 0 && comment.get_char(n - 1) == '"' {
        writer.append(" ");
    }
    writer.append("\"\"\"");
    writer.append("\n");
    proof {
        assert(writer@ =~= old(writer)@ + comment_sdl(comment@, true));
    }
}

/// Appends `name: Type[ = default]` as [`input_value_sdl`].
pub fn write_input_value(writer: &mut String, input_value: &InputValue)
    ensures
        final(writer)@ == old(writer)@ + input_value_sdl(input_value_view(*input_value)),
{
    writer.append(input_value.name.as_str());
    writer.append(": ");
    write_type_ref(writer, &input_value.ty);
    if let Option::Some(default_value) = &input_value.default_value {
        writer.append(" = ");
        writer.append(default_value.as_str());
    }
    proof {
        assert(writer@ =~= old(writer)@ + input_value_sdl(input_value_view(*input_value)));
    }
}

/// Appends a field argument; an argument renders as any other input value.
pub fn write_arg(writer: &mut String, arg: &InputValue)
    ensures
        final(writer)@ == old(writer)@ + input_value_sdl(input_value_view(*arg)),
{
    write_input_value(writer, arg);
}

/// Appends an input-object field: an input value on a line of its own.
pub fn write_input_field(writer: &mut String, input_field: &InputValue)
    ensures
        final(writer)@ == old(writer)@ + input_value_sdl(input_value_view(*input_field)) + "\n"@,
{
    write_input_value(writer, input_field);
    writer.append("\n");
}

/// Appends a type reference as [`type_ref_sdl`], recursing to whatever wrap
/// depth the reference has.
pub fn write_type_ref(writer: &mut String, type_ref: &TypeRef)
    ensures
        final(writer)@ == old(writer)@ + type_ref_sdl(type_ref_view(*type_ref)),
    decreases *type_ref,
{
    match type_ref {
        TypeRef::Named { kind, name } => {
            writer.append(name.as_str());
        },
        TypeRef::List { of } => {
            writer.append("[");
            write_type_ref(writer, of);
            writer.append("]");
        },
        TypeRef::NonNull { of } => {
            write_type_ref(writer, of);
            writer.append("!");
        },
    }
    proof {
        assert(writer@ =~= old(writer)@ + type_ref_sdl(type_ref_view(*type_ref)));
    }
}

/// Appends one directive declaration as [`directive_sdl`].
pub fn write_derective(writer: &mut String, derective: &Directive, with_comments: bool)
    ensures
        final(writer)@ == old(writer)@ + directive_sdl(directive_view(*derective), with_comments),
{
    let ghost dv = directive_view(*derective);
    if with_comments {
        if let Option::Some(description) = &derective.description {
            writer.append("description: ");
            writer.append(description.as_str());
            writer.append("\n");
        }
    }
    writer.append("directive @");
    writer.append(derective.name.as_str());
    writer.append("(");
    let ghost pre = writer@;
    let n = derective.args.len();
    let mut i: usize = 0;
    while i < n
        invariant
            n == derective.args@.len(),
            i <= n,
            dv == directive_view(*derective),
            writer@ == pre + args_sdl_to(dv.args, i as int),
        decreases n - i,
    {
        write_input_value(writer, &derective.args[i]);
        if i + 1 < n {
            writer.append(", ");
        }
        proof {
            assert(dv.args[i as int] == input_value_view(derective.args@[i as int]));
            assert(writer@ =~= pre + args_sdl_to(dv.args, i as int + 1));
        }
        i = i + 1;
    }
    writer.append(") on ");
    let ghost pre2 = writer@;
    let m = derective.locations.len();
    let mut k: usize = 0;
    while k < m
        invariant
            m == derective.locations@.len(),
            k <= m,
            dv == directive_view(*derective),
            writer@ == pre2 + pipes_sdl_to(dv.locations, k as int),
        decreases m - k,
    {
        writer.append(derective.locations[k].as_str());
        if k + 1 < m {
            writer.append(" | ");
        }
        proof {
            assert(dv.locations[k as int] == derective.locations@[k as int]@);
            assert(writer@ =~= pre2 + pipes_sdl_to(dv.locations, k as int + 1));
        }
        k = k + 1;
    }
    writer.append("\n\n");
    proof {
        assert(writer@ =~= old(writer)@ + directive_sdl(dv, with_comments));
    }
}

/// Appends every directive, in document order.
pub fn write_derectives(writer: &mut String, derectives: &Vec<Directive>, with_comments: bool)
    ensures
        final(writer)@ == old(writer)@ + directives_sdl(directives_view(derectives@), with_comments),
{
    let ghost dsv = directives_view(derectives@);
    let ghost pre = writer@;
    let n = derectives.len();
    let mut i: usize = 0;
    while i < n
        invariant
            n == derectives@.len(),
            i <= n,
            dsv == directives_view(derectives@),
            writer@ == pre + directives_sdl_to(dsv, with_comments, i as int),
        decreases n - i,
    {
        write_derective(writer, &derectives[i], with_comments);
        proof {
            assert(dsv[i as int] == directive_view(derectives@[i as int]));
            assert(writer@ =~= pre + directives_sdl_to(dsv, with_comments, i as int + 1));
        }
        i = i + 1;
    }
}

/// Appends one field line as [`field_sdl`].
pub fn write_field(writer: &mut String, field: &Field, with_comments: bool)
    ensures
        final(writer)@ == old(writer)@ + field_sdl(field_view(*field), with_comments),
{
    let ghost fv = field_view(*field);
    if with_comments {
        if let Option::Some(description) = &field.description {
            writer.append("  ");
            write_comment(writer, description.as_str(), true);
        }
    }
    writer.append("  ");
    writer.append(field.name.as_str());
    if field.args.len() > 0 {
        writer.append("(");
        let ghost pre = writer@;
        let n = field.args.len();
        let mut i: usize = 0;
        while i < n
            invariant
                n == field.args@.len(),
                i <= n,
                fv == field_view(*field),
                writer@ == pre + args_sdl_to(fv.args, i as int),
            decreases n - i,
        {
            write_arg(writer, &field.args[i]);
            if i + 1 < n {
                writer.append(", ");
            }
            proof {
                assert(fv.args[i as int] == input_value_view(field.args@[i as int]));
                assert(writer@ =~= pre + args_sdl_to(fv.args, i as int + 1));
            }
            i = i + 1;
        }
        writer.append(")");
    }
    writer.append(": ");
    write_type_ref(writer, &field.ty);
    writer.append("\n");
    proof {
        assert(writer@ =~= old(writer)@ + field_sdl(fv, with_comments));
    }
}

/// Appends every field of an object or interface body.
fn write_fields(writer: &mut String, fields: &Vec<Field>, with_comments: bool)
    ensures
        final(writer)@ == old(writer)@ + fields_sdl(fields_view(fields@), with_comments),
{
    let ghost fsv = fields_view(fields@);
    let ghost pre = writer@;
    let n = fields.len();
    let mut i: usize = 0;
    while i < n
        invariant
            n == fields@.len(),
            i <= n,
            fsv == fields_view(fields@),
            writer@ == pre + fields_sdl_to(fsv, with_comments, i as int),
        decreases n - i,
    {
        write_field(writer, &fields[i], with_comments);
        proof {
            assert(fsv[i as int] == field_view(fields@[i as int]));
            assert(writer@ =~= pre + fields_sdl_to(fsv, with_comments, i as int + 1));
        }
        i = i + 1;
    }
}

/// Appends a union's member names, pipe-separated.
fn write_union_members(writer: &mut String, possible_types: &Vec<String>)
    ensures
        final(writer)@ == old(writer)@ + pipes_sdl(strings_view(possible_types@)),
{
    let ghost ms = strings_view(possible_types@);
    let ghost pre = writer@;
    let n = possible_types.len();
    let mut i: usize = 0;
    while i < n
        invariant
            n == possible_types@.len(),
            i <= n,
            ms == strings_view(possible_types@),
            writer@ == pre + pipes_sdl_to(ms, i as int),
        decreases n - i,
    {
        writer.append(possible_types[i].as_str());
        if i + 1 < n {
            writer.append(" | ");
        }
        proof {
            assert(ms[i as int] == possible_types@[i as int]@);
            assert(writer@ =~= pre + pipes_sdl_to(ms, i as int + 1));
        }
        i = i + 1;
    }
}

/// Appends an enum's value lines.
fn write_enum_values(writer: &mut String, values: &Vec<EnumValue>)
    ensures
        final(writer)@ == old(writer)@ + enum_values_sdl(enum_values_view(values@)),
{
    let ghost vs = enum_values_view(values@);
    let ghost pre = writer@;
    let n = values.len();
    let mut i: usize = 0;
    while i < n
        invariant
            n == values@.len(),
            i <= n,
            vs == enum_values_view(values@),
            writer@ == pre + enum_values_sdl_to(vs, i as int),
        decreases n - i,
    {
        writer.append("  ");
        writer.append(values[i].name.as_str());
        writer.append("\n");
        proof {
            assert(vs[i as int] == enum_value_view(values@[i as int]));
            assert(writer@ =~= pre + enum_values_sdl_to(vs, i as int + 1));
        }
        i = i + 1;
    }
}

/// Appends an input object's field lines.
fn write_input_fields(writer: &mut String, input_fields: &Vec<InputValue>)
    ensures
        final(writer)@ == old(writer)@ + input_fields_sdl(input_values_view(input_fields@)),
{
    let ghost fs = input_values_view(input_fields@);
    let ghost pre = writer@;
    let n = input_fields.len();
    let mut i: usize = 0;
    while i < n
        invariant
            n == input_fields@.len(),
            i <= n,
            fs == input_values_view(input_fields@),
            writer@ == pre + input_fields_sdl_to(fs, i as int),
        decreases n - i,
    {
        writer.append("  ");
        write_input_field(writer, &input_fields[i]);
        proof {
            assert(fs[i as int] == input_value_view(input_fields@[i as int]));
            assert(writer@ =~= pre + input_fields_sdl_to(fs, i as int + 1));
        }
        i = i + 1;
    }
}

/// Appends the body of a type declaration — everything after the description
/// comment — for the kind at hand.
fn write_type_keyword(writer: &mut String, type_: &Type, with_comments: bool)
    ensures
        final(writer)@ == old(writer)@ + type_keyword_sdl(type_view(*type_), with_comments),
{
    let ghost tv = type_view(*type_);
    match &type_.def {
        TypeDef::Scalar => {
            writer.append("scalar ");
            writer.append(type_.name.as_str());
            writer.append("\n");
            proof {
                assert(writer@ =~= old(writer)@ + type_keyword_sdl(tv, with_comments));
            }
        },
        TypeDef::Object { fields } => {
            writer.append("type ");
            writer.append(type_.name.as_str());
            writer.append(" {\n");
            write_fields(writer, fields, with_comments);
            writer.append("}\n");
            proof {
                assert(writer@ =~= old(writer)@ + type_keyword_sdl(tv, with_comments));
            }
        },
        TypeDef::Interface { fields } => {
            writer.append("interface ");
            writer.append(type_.name.as_str());
            writer.append(" {\n");
            write_fields(writer, fields, with_comments);
            writer.append("}\n");
            proof {
                assert(writer@ =~= old(writer)@ + type_keyword_sdl(tv, with_comments));
            }
        },
        TypeDef::Union { possible_types } => {
            writer.append("union ");
            writer.append(type_.name.as_str());
            writer.append(" = ");
            write_union_members(writer, possible_types);
            writer.append("\n");
            proof {
                assert(writer@ =~= old(writer)@ + type_keyword_sdl(tv, with_comments));
            }
        },
        TypeDef::Enum { values } => {
            writer.append("enum ");
            writer.append(type_.name.as_str());
            writer.append(" {\n");
            write_enum_values(writer, values);
            writer.append("}\n");
            proof {
                assert(writer@ =~= old(writer)@ + type_keyword_sdl(tv, with_comments));
            }
        },
        TypeDef::InputObject { input_fields } => {
            writer.append("input ");
            writer.append(type_.name.as_str());
            writer.append(" {\n");
            write_input_fields(writer, input_fields);
            writer.append("}\n");
            proof {
                assert(writer@ =~= old(writer)@ + type_keyword_sdl(tv, with_comments));
            }
        },
    }
}

/// Appends one type declaration as [`type_sdl`].
pub fn write_type(writer: &mut String, type_: &Type, with_comments: bool)
    ensures
        final(writer)@ == old(writer)@ + type_sdl(type_view(*type_), with_comments),
{
    let ghost tv = type_view(*type_);
    if let Option::Some(description) = &type_.description {
        write_comment(writer, description.as_str(), with_comments);
    }
    write_type_keyword(writer, type_, with_comments);
    proof {
        assert(writer@ =~= old(writer)@ + type_sdl(tv, with_comments));
    }
}

/// Appends every type declaration, in document order.
pub fn write_types(writer: &mut String, types: &Vec<Type>, with_comments: bool)
    ensures
        final(writer)@ == old(writer)@ + types_sdl(types_view(types@), with_comments),
{
    let ghost tsv = types_view(types@);
    let ghost pre = writer@;
    let n = types.len();
    let mut i: usize = 0;
    while i < n
        invariant
            n == types@.len(),
            i <= n,
            tsv == types_view(types@),
            writer@ == pre + types_sdl_to(tsv, with_comments, i as int),
        decreases n - i,
    {
        write_type(writer, &types[i], with_comments);
        proof {
            assert(tsv[i as int] == type_view(types@[i as int]));
            assert(writer@ =~= pre + types_sdl_to(tsv, with_comments, i as int + 1));
        }
        i = i + 1;
    }
}

/// Appends the whole document as [`schema_sdl`]: directives, then types.
pub fn write_schema(writer: &mut String, schema: &Schema, with_comments: bool)
    ensures
        final(writer)@ == old(writer)@ + schema_sdl(schema_view(*schema), with_comments),
{
    write_derectives(writer, &schema.directives, with_comments);
    write_types(writer, &schema.types, with_comments);
    proof {
        assert(writer@ =~= old(writer)@ + schema_sdl(schema_view(*schema), with_comments));
    }
}

/// Renders a schema as SDL text: a pure function of the schema and the
/// comment flag, so two calls on equal inputs give byte-identical output.
pub fn render(schema: &Schema, emit_comments: bool) -> (r: String)
    ensures
        r@ == schema_sdl(schema_view(*schema), emit_comments),
{
    let mut out = String::new();
    write_schema(&mut out, schema, emit_comments);
    proof {
        assert(out@ =~= schema_sdl(schema_view(*schema), emit_comments));
    }
    out
}

} // verus!
