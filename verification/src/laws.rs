//! The properties the generator guarantees, stated and proved once over the
//! specification functions the executable contracts use. The lines a
//! synthesized implementation announces are modeled by [`announced_lines`];
//! each field-level statement embeds its greeting as an escaped string
//! literal, and [`crate::synth::lemma_escape_roundtrip`] shows that the
//! literal denotes the greeting exactly.

use vstd::prelude::*;

use crate::generate_spec;
use crate::model::{AssignView, DeclView, EntryView, FieldView, ShapeKind};
use crate::parse::{assign_of, decl_of};
use crate::resolve::{
    default_greeting, extracted_entry, field_greeting, reserved_key, resolved_greeting_spec,
};

verus! {

/// The line the synthesized implementation announces for the type itself.
pub open spec fn type_line(name: Seq<char>) -> Seq<char> {
    "Hello, Macro! My name is "@ + name + "!"@
}

/// The line the synthesized implementation announces for one field.
pub open spec fn field_line(name: Seq<char>, greeting: Seq<char>) -> Seq<char> {
    "Field "@ + name + ": "@ + greeting
}

/// Every line the synthesized implementation announces, in order: one for
/// the type, then one per field in declaration order.
pub open spec fn announced_lines(d: DeclView) -> Seq<Seq<char>> {
    seq![type_line(d.name)] + d.fields.map_values(
        |f: FieldView| field_line(f.name, field_greeting(f)),
    )
}

/// For every declaration, the field-level announcements are one per field,
/// in declaration order.
pub proof fn lemma_one_line_per_field(d: DeclView)
    ensures
        announced_lines(d).len() == 1 + d.fields.len(),
        forall|i: int|
            0 <= i < d.fields.len() ==> announced_lines(d)[i + 1] == field_line(
                d.fields[i].name,
                field_greeting(d.fields[i]),
            ),
{
}

/// A field whose first matching annotation assigns the string `x` to the
/// reserved key is announced with exactly `x`, whatever characters `x`
/// holds.
pub proof fn lemma_configured_greeting_wins(f: FieldView, e: EntryView, x: Seq<char>)
    requires
        extracted_entry(f.metadata) == Option::Some(e),
        assign_of(e.content) == Option::Some(
            AssignView { key: reserved_key(), str_value: Option::Some(x) },
        ),
    ensures
        field_greeting(f) == x,
{
}

/// Round trip at line level: a field whose first matching annotation
/// assigns `greeting = x` is announced with the line `Field <name>: x`.
pub proof fn lemma_greeting_roundtrip(d: DeclView, i: int, e: EntryView, x: Seq<char>)
    requires
        0 <= i < d.fields.len(),
        extracted_entry(d.fields[i].metadata) == Option::Some(e),
        assign_of(e.content) == Option::Some(
            AssignView { key: reserved_key(), str_value: Option::Some(x) },
        ),
    ensures
        announced_lines(d)[i + 1] == field_line(d.fields[i].name, x),
{
    lemma_configured_greeting_wins(d.fields[i], e, x);
    lemma_one_line_per_field(d);
}

/// A field with no annotation addressed to this generator, or whose first
/// such annotation does not parse as an assignment, misses the reserved key,
/// or binds it to something other than a string literal, is announced with
/// the computed default greeting.
pub proof fn lemma_fallback_to_default(f: FieldView)
    requires
        match extracted_entry(f.metadata) {
            Option::None => true,
            Option::Some(e) => match assign_of(e.content) {
                Option::None => true,
                Option::Some(a) => a.key != reserved_key() || a.str_value is None,
            },
        },
    ensures
        field_greeting(f) == default_greeting(f.name),
{
}

/// Generation is deterministic: two runs over identical declaration text
/// agree byte for byte, on success and on failure alike.
pub proof fn lemma_generation_deterministic(
    src: Seq<char>,
    r1: Result<Seq<char>, ShapeKind>,
    r2: Result<Seq<char>, ShapeKind>,
)
    requires
        r1 == generate_spec(src),
        r2 == generate_spec(src),
    ensures
        r1 == r2,
{
}

/// A declaration that is not a record with named fields yields the
/// unsupported-shape error and no synthesized text.
pub proof fn lemma_unsupported_shape_no_output(src: Seq<char>, k: ShapeKind)
    requires
        decl_of(src) == Result::<DeclView, ShapeKind>::Err(k),
    ensures
        generate_spec(src) == Result::<Seq<char>, ShapeKind>::Err(k),
{
}

} // verus!
