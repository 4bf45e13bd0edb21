//! Proved statements about the pipeline as a whole: determinism of the
//! renderer, independence from the JSON text's irrelevant form, the
//! trailing-quote escape, the silence of disabled comments, and the rejection
//! of top-level wrapper kinds.

use vstd::prelude::*;

use crate::decode::SchemaErrorV;
use crate::decode::parse_opt_str;
use crate::decode::parse_req_str;
use crate::decode::parse_type;
use crate::decode::parse_types_from;
use crate::json::JsonValue;
use crate::json::json_of;
use crate::model::DirectiveV;
use crate::model::EnumValueV;
use crate::model::FieldV;
use crate::model::InputValueV;
use crate::model::SchemaV;
use crate::model::TypeDefV;
use crate::model::TypeRefV;
use crate::model::TypeV;
use crate::sdl_of_json;
use crate::unparse::args_sdl_to;
use crate::unparse::comment_sdl;
use crate::unparse::directive_sdl;
use crate::unparse::directives_sdl_to;
use crate::unparse::enum_values_sdl_to;
use crate::unparse::field_sdl;
use crate::unparse::fields_sdl_to;
use crate::unparse::input_fields_sdl_to;
use crate::unparse::input_value_sdl;
use crate::unparse::pipes_sdl_to;
use crate::unparse::schema_sdl;
use crate::unparse::type_ref_sdl;
use crate::unparse::type_sdl;
use crate::unparse::types_sdl_to;

verus! {

/// Rendering is a pure function: equal schemas and equal comment flags give
/// the same output text.  Together with `render`'s own contract, two calls of
/// `render` on equal inputs return byte-identical strings.
pub proof fn lemma_render_deterministic(s1: SchemaV, s2: SchemaV, c1: bool, c2: bool)
    requires
        s1 == s2,
        c1 == c2,
    ensures
        schema_sdl(s1, c1) == schema_sdl(s2, c2),
{
}

/// The output depends on the parsed document alone: two input texts that
/// parse to the same JSON value — texts differing only in whitespace between
/// JSON tokens do — convert to the same result.
pub proof fn lemma_output_depends_on_document_alone(
    text1: Seq<char>,
    text2: Seq<char>,
    with_comments: bool,
)
    requires
        json_of(text1) == json_of(text2),
    ensures
        sdl_of_json(text1, with_comments) == sdl_of_json(text2, with_comments),
{
}

/// A description's comment block ends in ` """` — space before the closing
/// delimiter — exactly when the description ends in a double quote, so four
/// consecutive quote characters never arise; otherwise the delimiter follows
/// the text directly.
pub proof fn lemma_comment_trailing_quote_escaped(text: Seq<char>)
    ensures
        text.len() > 0 && text[text.len() - 1] == '"' ==> comment_sdl(text, true) == "\"\"\""@
            + text + " "@ + "\"\"\""@ + "\n"@,
        !(text.len() > 0 && text[text.len() - 1] == '"') ==> comment_sdl(text, true) == "\"\"\""@
            + text + "\"\"\""@ + "\n"@,
{
}

/// A top-level type whose `kind` is `LIST` or `NON_NULL` decodes to a
/// model-invariant error naming the type — never to a type that could be
/// rendered.
pub proof fn lemma_top_level_wrapper_rejected(j: JsonValue, name: Seq<char>, kind: Seq<char>)
    requires
        parse_req_str(j, "name"@) == Ok::<_, SchemaErrorV>(name),
        parse_opt_str(j, "description"@) is Ok,
        parse_req_str(j, "kind"@) == Ok::<_, SchemaErrorV>(kind),
        kind == "LIST"@ || kind == "NON_NULL"@,
    ensures
        parse_type(j) == Err::<TypeV, SchemaErrorV>(SchemaErrorV::ModelInvariant(name)),
{
}

proof fn lemma_first_type_error_propagates(items: Seq<JsonValue>, i: int, j: int)
    requires
        0 <= j <= i < items.len(),
        forall|k: int| j <= k < i ==> parse_type(#[trigger] items[k]) is Ok,
        parse_type(items[i]) is Err,
    ensures
        parse_types_from(items, j) == Err::<Seq<TypeV>, SchemaErrorV>(
            parse_type(items[i])->Err_0,
        ),
    decreases i - j,
{
    if j < i {
        lemma_first_type_error_propagates(items, i, j + 1);
    }
}

/// An entry of the types array that decodes to an error — a top-level `LIST`
/// or `NON_NULL` among them — fails the whole conversion with that error,
/// provided the entries before it are well-formed: no partial output exists
/// for such a document.
pub proof fn lemma_bad_type_entry_fails_whole_decode(items: Seq<JsonValue>, i: int)
    requires
        0 <= i < items.len(),
        forall|k: int| 0 <= k < i ==> parse_type(#[trigger] items[k]) is Ok,
        parse_type(items[i]) is Err,
    ensures
        parse_types_from(items, 0) == Err::<Seq<TypeV>, SchemaErrorV>(
            parse_type(items[i])->Err_0,
        ),
{
    lemma_first_type_error_propagates(items, i, 0);
}

/// No double-quote character anywhere in the text.
pub open spec fn quote_free(s: Seq<char>) -> bool {
    forall|i: int| 0 <= i < s.len() ==> s[i] != '"'
}

pub proof fn lemma_quote_free_concat(a: Seq<char>, b: Seq<char>)
    requires
        quote_free(a),
        quote_free(b),
    ensures
        quote_free(a + b),
{
    assert forall|i: int| 0 <= i < (a + b).len() implies (a + b)[i] != '"' by {
        if i < a.len() {
            assert((a + b)[i] == a[i]);
        } else {
            assert((a + b)[i] == b[i - a.len()]);
        }
    }
}

pub open spec fn type_ref_quote_free(t: TypeRefV) -> bool
    decreases t,
{
    match t {
        TypeRefV::Named { kind, name } => quote_free(name),
        TypeRefV::List { of } => type_ref_quote_free(*of),
        TypeRefV::NonNull { of } => type_ref_quote_free(*of),
    }
}

pub open spec fn input_value_quote_free(v: InputValueV) -> bool {
    &&& quote_free(v.name)
    &&& type_ref_quote_free(v.ty)
    &&& match v.default_value {
        Option::Some(d) => quote_free(d),
        Option::None => true,
    }
}

pub open spec fn field_quote_free(f: FieldV) -> bool {
    &&& quote_free(f.name)
    &&& type_ref_quote_free(f.ty)
    &&& forall|k: int| 0 <= k < f.args.len() ==> input_value_quote_free(#[trigger] f.args[k])
}

/// Every name, member, location and default value that rendering a type emits
/// besides its descriptions is free of double quotes.
pub open spec fn type_quote_free(t: TypeV) -> bool {
    &&& quote_free(t.name)
    &&& match t.def {
        TypeDefV::Scalar => true,
        TypeDefV::Object { fields } => forall|k: int|
            0 <= k < fields.len() ==> field_quote_free(#[trigger] fields[k]),
        TypeDefV::Interface { fields } => forall|k: int|
            0 <= k < fields.len() ==> field_quote_free(#[trigger] fields[k]),
        TypeDefV::Union { possible_types } => forall|k: int|
            0 <= k < possible_types.len() ==> quote_free(#[trigger] possible_types[k]),
        TypeDefV::Enum { values } => forall|k: int|
            0 <= k < values.len() ==> quote_free(#[trigger] values[k].name),
        TypeDefV::InputObject { input_fields } => forall|k: int|
            0 <= k < input_fields.len() ==> input_value_quote_free(#[trigger] input_fields[k]),
    }
}

pub open spec fn directive_quote_free(d: DirectiveV) -> bool {
    &&& quote_free(d.name)
    &&& forall|k: int| 0 <= k < d.locations.len() ==> quote_free(#[trigger] d.locations[k])
    &&& forall|k: int| 0 <= k < d.args.len() ==> input_value_quote_free(#[trigger] d.args[k])
}

pub open spec fn schema_quote_free(s: SchemaV) -> bool {
    &&& forall|k: int|
        0 <= k < s.directives.len() ==> directive_quote_free(#[trigger] s.directives[k])
    &&& forall|k: int| 0 <= k < s.types.len() ==> type_quote_free(#[trigger] s.types[k])
}

proof fn lemma_literals_quote_free()
    ensures
        quote_free(Seq::<char>::empty()),
        quote_free("directive @"@),
        quote_free("("@),
        quote_free(")"@),
        quote_free(") on "@),
        quote_free(", "@),
        quote_free(" | "@),
        quote_free("\n\n"@),
        quote_free(": "@),
        quote_free(" = "@),
        quote_free("["@),
        quote_free("]"@),
        quote_free("!"@),
        quote_free("scalar "@),
        quote_free("type "@),
        quote_free("interface "@),
        quote_free("union "@),
        quote_free("enum "@),
        quote_free("input "@),
        quote_free(" {\n"@),
        quote_free("}\n"@),
        quote_free("\n"@),
        quote_free("  "@),
{
    reveal_strlit("directive @");
    reveal_strlit("(");
    reveal_strlit(")");
    reveal_strlit(") on ");
    reveal_strlit(", ");
    reveal_strlit(" | ");
    reveal_strlit("\n\n");
    reveal_strlit(": ");
    reveal_strlit(" = ");
    reveal_strlit("[");
    reveal_strlit("]");
    reveal_strlit("!");
    reveal_strlit("scalar ");
    reveal_strlit("type ");
    reveal_strlit("interface ");
    reveal_strlit("union ");
    reveal_strlit("enum ");
    reveal_strlit("input ");
    reveal_strlit(" {\n");
    reveal_strlit("}\n");
    reveal_strlit("\n");
    reveal_strlit("  ");
}

proof fn lemma_type_ref_sdl_quote_free(t: TypeRefV)
    requires
        type_ref_quote_free(t),
    ensures
        quote_free(type_ref_sdl(t)),
    decreases t,
{
    lemma_literals_quote_free();
    match t {
        TypeRefV::Named { kind, name } => {},
        TypeRefV::List { of } => {
            lemma_type_ref_sdl_quote_free(*of);
            lemma_quote_free_concat("["@, type_ref_sdl(*of));
            lemma_quote_free_concat("["@ + type_ref_sdl(*of), "]"@);
        },
        TypeRefV::NonNull { of } => {
            lemma_type_ref_sdl_quote_free(*of);
            lemma_quote_free_concat(type_ref_sdl(*of), "!"@);
        },
    }
}

proof fn lemma_input_value_sdl_quote_free(v: InputValueV)
    requires
        input_value_quote_free(v),
    ensures
        quote_free(input_value_sdl(v)),
{
    lemma_literals_quote_free();
    lemma_type_ref_sdl_quote_free(v.ty);
    lemma_quote_free_concat(v.name, ": "@);
    lemma_quote_free_concat(v.name + ": "@, type_ref_sdl(v.ty));
    match v.default_value {
        Option::Some(d) => {
            lemma_quote_free_concat(" = "@, d);
            lemma_quote_free_concat(v.name + ": "@ + type_ref_sdl(v.ty), " = "@ + d);
        },
        Option::None => {
            lemma_quote_free_concat(v.name + ": "@ + type_ref_sdl(v.ty), Seq::empty());
        },
    }
}

proof fn lemma_args_sdl_to_quote_free(args: Seq<InputValueV>, i: int)
    requires
        i <= args.len(),
        forall|k: int| 0 <= k < args.len() ==> input_value_quote_free(#[trigger] args[k]),
    ensures
        quote_free(args_sdl_to(args, i)),
    decreases i,
{
    lemma_literals_quote_free();
    if i > 0 {
        lemma_args_sdl_to_quote_free(args, i - 1);
        lemma_input_value_sdl_quote_free(args[i - 1]);
        lemma_quote_free_concat(args_sdl_to(args, i - 1), input_value_sdl(args[i - 1]));
        lemma_quote_free_concat(
            args_sdl_to(args, i - 1) + input_value_sdl(args[i - 1]),
            if i < args.len() {
                ", "@
            } else {
                Seq::empty()
            },
        );
    }
}

proof fn lemma_pipes_sdl_to_quote_free(items: Seq<Seq<char>>, i: int)
    requires
        i <= items.len(),
        forall|k: int| 0 <= k < items.len() ==> quote_free(#[trigger] items[k]),
    ensures
        quote_free(pipes_sdl_to(items, i)),
    decreases i,
{
    lemma_literals_quote_free();
    if i > 0 {
        lemma_pipes_sdl_to_quote_free(items, i - 1);
        lemma_quote_free_concat(pipes_sdl_to(items, i - 1), items[i - 1]);
        lemma_quote_free_concat(
            pipes_sdl_to(items, i - 1) + items[i - 1],
            if i < items.len() {
                " | "@
            } else {
                Seq::empty()
            },
        );
    }
}

proof fn lemma_field_sdl_quote_free(f: FieldV)
    requires
        field_quote_free(f),
    ensures
        quote_free(field_sdl(f, false)),
{
    lemma_literals_quote_free();
    lemma_type_ref_sdl_quote_free(f.ty);
    lemma_quote_free_concat(Seq::empty(), "  "@);
    lemma_quote_free_concat(Seq::empty() + "  "@, f.name);
    let head = Seq::empty() + "  "@ + f.name;
    let arg_part = if f.args.len() > 0 {
        "("@ + args_sdl_to(f.args, f.args.len() as int) + ")"@
    } else {
        Seq::<char>::empty()
    };
    if f.args.len() > 0 {
        lemma_args_sdl_to_quote_free(f.args, f.args.len() as int);
        lemma_quote_free_concat("("@, args_sdl_to(f.args, f.args.len() as int));
        lemma_quote_free_concat("("@ + args_sdl_to(f.args, f.args.len() as int), ")"@);
    }
    lemma_quote_free_concat(head, arg_part);
    lemma_quote_free_concat(head + arg_part, ": "@);
    lemma_quote_free_concat(head + arg_part + ": "@, type_ref_sdl(f.ty));
    lemma_quote_free_concat(head + arg_part + ": "@ + type_ref_sdl(f.ty), "\n"@);
}

proof fn lemma_fields_sdl_to_quote_free(fs: Seq<FieldV>, i: int)
    requires
        i <= fs.len(),
        forall|k: int| 0 <= k < fs.len() ==> field_quote_free(#[trigger] fs[k]),
    ensures
        quote_free(fields_sdl_to(fs, false, i)),
    decreases i,
{
    lemma_literals_quote_free();
    if i > 0 {
        lemma_fields_sdl_to_quote_free(fs, i - 1);
        lemma_field_sdl_quote_free(fs[i - 1]);
        lemma_quote_free_concat(fields_sdl_to(fs, false, i - 1), field_sdl(fs[i - 1], false));
    }
}

proof fn lemma_enum_values_sdl_to_quote_free(vs: Seq<EnumValueV>, i: int)
    requires
        i <= vs.len(),
        forall|k: int| 0 <= k < vs.len() ==> quote_free(#[trigger] vs[k].name),
    ensures
        quote_free(enum_values_sdl_to(vs, i)),
    decreases i,
{
    lemma_literals_quote_free();
    if i > 0 {
        lemma_enum_values_sdl_to_quote_free(vs, i - 1);
        lemma_quote_free_concat(enum_values_sdl_to(vs, i - 1), "  "@);
        lemma_quote_free_concat(enum_values_sdl_to(vs, i - 1) + "  "@, vs[i - 1].name);
        lemma_quote_free_concat(enum_values_sdl_to(vs, i - 1) + "  "@ + vs[i - 1].name, "\n"@);
    }
}

proof fn lemma_input_fields_sdl_to_quote_free(fs: Seq<InputValueV>, i: int)
    requires
        i <= fs.len(),
        forall|k: int| 0 <= k < fs.len() ==> input_value_quote_free(#[trigger] fs[k]),
    ensures
        quote_free(input_fields_sdl_to(fs, i)),
    decreases i,
{
    lemma_literals_quote_free();
    if i > 0 {
        lemma_input_fields_sdl_to_quote_free(fs, i - 1);
        lemma_input_value_sdl_quote_free(fs[i - 1]);
        lemma_quote_free_concat(input_fields_sdl_to(fs, i - 1), "  "@);
        lemma_quote_free_concat(input_fields_sdl_to(fs, i - 1) + "  "@, input_value_sdl(fs[i - 1]));
        lemma_quote_free_concat(
            input_fields_sdl_to(fs, i - 1) + "  "@ + input_value_sdl(fs[i - 1]),
            "\n"@,
        );
    }
}

proof fn lemma_type_sdl_quote_free(t: TypeV)
    requires
        type_quote_free(t),
    ensures
        quote_free(type_sdl(t, false)),
{
    lemma_literals_quote_free();
    let desc = match t.description {
        Option::Some(text) => comment_sdl(text, false),
        Option::None => Seq::<char>::empty(),
    };
    assert(quote_free(desc));
    match t.def {
        TypeDefV::Scalar => {
            lemma_quote_free_concat("scalar "@, t.name);
            lemma_quote_free_concat("scalar "@ + t.name, "\n"@);
            lemma_quote_free_concat(desc, "scalar "@ + t.name + "\n"@);
        },
        TypeDefV::Object { fields } => {
            lemma_fields_sdl_to_quote_free(fields, fields.len() as int);
            lemma_quote_free_concat("type "@, t.name);
            lemma_quote_free_concat("type "@ + t.name, " {\n"@);
            lemma_quote_free_concat(
                "type "@ + t.name + " {\n"@,
                fields_sdl_to(fields, false, fields.len() as int),
            );
            lemma_quote_free_concat(
                "type "@ + t.name + " {\n"@ + fields_sdl_to(fields, false, fields.len() as int),
                "}\n"@,
            );
            lemma_quote_free_concat(
                desc,
                "type "@ + t.name + " {\n"@ + fields_sdl_to(fields, false, fields.len() as int)
                    + "}\n"@,
            );
        },
        TypeDefV::Interface { fields } => {
            lemma_fields_sdl_to_quote_free(fields, fields.len() as int);
            lemma_quote_free_concat("interface "@, t.name);
            lemma_quote_free_concat("interface "@ + t.name, " {\n"@);
            lemma_quote_free_concat(
                "interface "@ + t.name + " {\n"@,
                fields_sdl_to(fields, false, fields.len() as int),
            );
            lemma_quote_free_concat(
                "interface "@ + t.name + " {\n"@ + fields_sdl_to(
                    fields,
                    false,
                    fields.len() as int,
                ),
                "}\n"@,
            );
            lemma_quote_free_concat(
                desc,
                "interface "@ + t.name + " {\n"@ + fields_sdl_to(
                    fields,
                    false,
                    fields.len() as int,
                ) + "}\n"@,
            );
        },
        TypeDefV::Union { possible_types } => {
            lemma_pipes_sdl_to_quote_free(possible_types, possible_types.len() as int);
            lemma_quote_free_concat("union "@, t.name);
            lemma_quote_free_concat("union "@ + t.name, " = "@);
            lemma_quote_free_concat(
                "union "@ + t.name + " = "@,
                pipes_sdl_to(possible_types, possible_types.len() as int),
            );
            lemma_quote_free_concat(
                "union "@ + t.name + " = "@ + pipes_sdl_to(
                    possible_types,
                    possible_types.len() as int,
                ),
                "\n"@,
            );
            lemma_quote_free_concat(
                desc,
                "union "@ + t.name + " = "@ + pipes_sdl_to(
                    possible_types,
                    possible_types.len() as int,
                ) + "\n"@,
            );
        },
        TypeDefV::Enum { values } => {
            lemma_enum_values_sdl_to_quote_free(values, values.len() as int);
            lemma_quote_free_concat("enum "@, t.name);
            lemma_quote_free_concat("enum "@ + t.name, " {\n"@);
            lemma_quote_free_concat(
                "enum "@ + t.name + " {\n"@,
                enum_values_sdl_to(values, values.len() as int),
            );
            lemma_quote_free_concat(
                "enum "@ + t.name + " {\n"@ + enum_values_sdl_to(values, values.len() as int),
                "}\n"@,
            );
            lemma_quote_free_concat(
                desc,
                "enum "@ + t.name + " {\n"@ + enum_values_sdl_to(values, values.len() as int)
                    + "}\n"@,
            );
        },
        TypeDefV::InputObject { input_fields } => {
            lemma_input_fields_sdl_to_quote_free(input_fields, input_fields.len() as int);
            lemma_quote_free_concat("input "@, t.name);
            lemma_quote_free_concat("input "@ + t.name, " {\n"@);
            lemma_quote_free_concat(
                "input "@ + t.name + " {\n"@,
                input_fields_sdl_to(input_fields, input_fields.len() as int),
            );
            lemma_quote_free_concat(
                "input "@ + t.name + " {\n"@ + input_fields_sdl_to(
                    input_fields,
                    input_fields.len() as int,
                ),
                "}\n"@,
            );
            lemma_quote_free_concat(
                desc,
                "input "@ + t.name + " {\n"@ + input_fields_sdl_to(
                    input_fields,
                    input_fields.len() as int,
                ) + "}\n"@,
            );
        },
    }
}

proof fn lemma_directive_sdl_quote_free(d: DirectiveV)
    requires
        directive_quote_free(d),
    ensures
        quote_free(directive_sdl(d, false)),
{
    lemma_literals_quote_free();
    lemma_args_sdl_to_quote_free(d.args, d.args.len() as int);
    lemma_pipes_sdl_to_quote_free(d.locations, d.locations.len() as int);
    let args = args_sdl_to(d.args, d.args.len() as int);
    let locs = pipes_sdl_to(d.locations, d.locations.len() as int);
    lemma_quote_free_concat(Seq::empty(), "directive @"@);
    lemma_quote_free_concat(Seq::empty() + "directive @"@, d.name);
    lemma_quote_free_concat(Seq::empty() + "directive @"@ + d.name, "("@);
    lemma_quote_free_concat(Seq::empty() + "directive @"@ + d.name + "("@, args);
    lemma_quote_free_concat(Seq::empty() + "directive @"@ + d.name + "("@ + args, ") on "@);
    lemma_quote_free_concat(
        Seq::empty() + "directive @"@ + d.name + "("@ + args + ") on "@,
        locs,
    );
    lemma_quote_free_concat(
        Seq::empty() + "directive @"@ + d.name + "("@ + args + ") on "@ + locs,
        "\n\n"@,
    );
}

proof fn lemma_types_sdl_to_quote_free(ts: Seq<TypeV>, i: int)
    requires
        i <= ts.len(),
        forall|k: int| 0 <= k < ts.len() ==> type_quote_free(#[trigger] ts[k]),
    ensures
        quote_free(types_sdl_to(ts, false, i)),
    decreases i,
{
    lemma_literals_quote_free();
    if i > 0 {
        lemma_types_sdl_to_quote_free(ts, i - 1);
        lemma_type_sdl_quote_free(ts[i - 1]);
        lemma_quote_free_concat(types_sdl_to(ts, false, i - 1), type_sdl(ts[i - 1], false));
    }
}

proof fn lemma_directives_sdl_to_quote_free(ds: Seq<DirectiveV>, i: int)
    requires
        i <= ds.len(),
        forall|k: int| 0 <= k < ds.len() ==> directive_quote_free(#[trigger] ds[k]),
    ensures
        quote_free(directives_sdl_to(ds, false, i)),
    decreases i,
{
    lemma_literals_quote_free();
    if i > 0 {
        lemma_directives_sdl_to_quote_free(ds, i - 1);
        lemma_directive_sdl_quote_free(ds[i - 1]);
        lemma_quote_free_concat(
            directives_sdl_to(ds, false, i - 1),
            directive_sdl(ds[i - 1], false),
        );
    }
}

/// With the comment flag off, the rendered text of a schema whose names,
/// members, locations and default values carry no double quote contains no
/// double quote at all — so no `"""`-delimited block appears, however many
/// descriptions the document carries.
pub proof fn lemma_no_comment_blocks_when_disabled(s: SchemaV)
    requires
        schema_quote_free(s),
    ensures
        quote_free(schema_sdl(s, false)),
{
    lemma_directives_sdl_to_quote_free(s.directives, s.directives.len() as int);
    lemma_types_sdl_to_quote_free(s.types, s.types.len() as int);
    lemma_quote_free_concat(
        directives_sdl_to(s.directives, false, s.directives.len() as int),
        types_sdl_to(s.types, false, s.types.len() as int),
    );
}

} // verus!
