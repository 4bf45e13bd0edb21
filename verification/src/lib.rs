//! An introspection-to-SDL schema compiler: the JSON response to a GraphQL
//! server's `__schema` introspection query is decoded into a schema model and
//! rendered, deterministically, as GraphQL Schema Definition Language text.
//!
//! [`json_to_schema`] is the whole pipeline; [`decode`] and [`unparse`] hold
//! its two halves, [`model`] the schema model between them, and [`laws`] the
//! proved statements about the pipeline as a whole.

use vstd::prelude::*;

pub mod decode;
pub mod json;
pub mod laws;
pub mod model;
pub mod unparse;

verus! {

use crate::decode::SchemaError;
use crate::decode::SchemaErrorV;
use crate::decode::decode_document;
use crate::decode::err_view;
use crate::decode::parse_document;
use crate::json::json_of;
use crate::json::parse_json;
use crate::unparse::render;
use crate::unparse::schema_sdl;

/// What converting a given text comes to: a decode error when the text is not
/// a JSON document, whatever error the decoder gives on the parsed value, and
/// otherwise the rendered SDL of the decoded schema.
pub open spec fn sdl_of_json(text: Seq<char>, with_comments: bool) -> Result<
    Seq<char>,
    SchemaErrorV,
> {
    match json_of(text) {
        Option::None => Err(SchemaErrorV::Decode("json"@)),
        Option::Some(j) => match parse_document(j) {
            Err(e) => Err(e),
            Ok(s) => Ok(schema_sdl(s, with_comments)),
        },
    }
}

/// Converts a raw introspection response to SDL text, as [`sdl_of_json`]:
/// parse the JSON, decode the schema model, render it.  Descriptions appear
/// as comment blocks only when `with_comments` is set.  Every failure is a
/// typed error; no partial output is produced.
pub fn json_to_schema(json: &str, with_comments: bool) -> (r: Result<String, SchemaError>)
    ensures
        match r {
            Ok(s) => sdl_of_json(json@, with_comments) == Ok::<_, SchemaErrorV>(s@),
            Err(e) => sdl_of_json(json@, with_comments) == Err::<Seq<char>, _>(err_view(e)),
        },
{
    let parsed = match parse_json(json) {
        Option::Some(v) => v,
        Option::None => {
            return Err(SchemaError::Decode("json".to_owned()));
        },
    };
    let schema = match decode_document(&parsed) {
        Ok(s) => s,
        Err(e) => {
            return Err(e);
        },
    };
    Ok(render(&schema, with_comments))
}

} // verus!
