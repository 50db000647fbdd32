//! A source-to-source generator: given the text of a record declaration with
//! named fields, it synthesizes an implementation of the [`HelloMacro`]
//! contract for that type, with one announcement per field. A per-field
//! greeting may be configured through an annotation addressed to this
//! generator (`hello_macro(greeting = "...")`); anything else falls back to a
//! computed default.

pub mod laws;
pub mod model;
pub mod parse;
pub mod resolve;
pub mod synth;

use vstd::prelude::*;

use crate::model::{GenError, ShapeKind};
use crate::parse::{decl_of, parse_declaration};
use crate::resolve::{field_greetings, resolve_fields};
use crate::synth::{config_greetings, synthesize, synthesized};

verus! {

/// The behavioral contract that synthesized code implements for the annotated
/// type: announce the type, then announce every field in declaration order.
/// Hosts that compile the generated text supply the implementations.
pub trait HelloMacro {
    fn hello_macro();
}

/// What generation returns for each declaration source: the synthesized
/// implementation text when the declaration is a record with named fields,
/// and the offending shape otherwise.
pub open spec fn generate_spec(src: Seq<char>) -> Result<Seq<char>, ShapeKind> {
    match decl_of(src) {
        Result::Ok(d) => Result::Ok(synthesized(d)),
        Result::Err(k) => Result::Err(k),
    }
}

/// The view of what [`generate`] hands back.
pub open spec fn generate_result_view(r: Result<String, GenError>) -> Result<
    Seq<char>,
    ShapeKind,
> {
    match r {
        Result::Ok(t) => Result::Ok(t@),
        Result::Err(GenError::UnsupportedShape(k)) => Result::Err(k),
    }
}

/// The sole externally invoked operation: parses one declaration, resolves
/// every field's greeting and synthesizes the implementation text, or
/// surfaces the unsupported shape. A pure function of the source text.
pub fn generate(src: &str) -> (r: Result<String, GenError>)
    ensures
        generate_result_view(r) == generate_spec(src@),
{
    match parse_declaration(src) {
        Result::Ok(decl) => {
            let configs = resolve_fields(&decl.fields);
            proof {
                assert forall|i: int| 0 <= i < configs@.len() implies config_greetings(configs@)[i]
                    == field_greetings(decl@.fields)[i] by {
                    assert(decl@.fields[i] == decl.fields@[i]@);
                }
                assert(config_greetings(configs@) =~= field_greetings(decl@.fields));
            }
            Result::Ok(synthesize(&decl, &configs))
        },
        Result::Err(k) => Result::Err(GenError::UnsupportedShape(k)),
    }
}

} // verus!
