//! Per-field configuration: find the first annotation addressed to this
//! generator, read its `greeting = "..."` assignment, and fall back to the
//! computed default greeting when no valid configuration is present.

use vstd::prelude::*;
use vstd::string::StringExecFns;

use crate::model::{
    entries_view, opt_assign_view, opt_string_view, AssignView, Assignment, EntryView,
    FieldConfig, FieldDecl, FieldView, MetadataEntry,
};
use crate::parse::{assign_of, parse_assignment};

verus! {

/// The reserved name by which an annotation addresses this generator.
pub open spec fn reserved_target() -> Seq<char> {
    "hello_macro"@
}

/// The one configuration key this generator recognizes.
pub open spec fn reserved_key() -> Seq<char> {
    "greeting"@
}

/// The first metadata entry addressed to this generator, in attachment
/// order, regardless of what its content holds.
pub open spec fn extracted_entry(metadata: Seq<EntryView>) -> Option<EntryView>
    decreases metadata.len(),
{
    if metadata.len() == 0 {
        Option::None
    } else if metadata.first().target == reserved_target() {
        Option::Some(metadata.first())
    } else {
        extracted_entry(metadata.drop_first())
    }
}

/// Scans a field's attached metadata in attachment order and hands back the
/// first entry that targets this generator, without validating its content.
pub fn extract_entry(metadata: &Vec<MetadataEntry>) -> (r: Option<&MetadataEntry>)
    ensures
        match r {
            Option::Some(e) => extracted_entry(entries_view(metadata@)) == Option::Some(e@),
            Option::None => extracted_entry(entries_view(metadata@)) is None,
        },
{
    let reserved: String = "hello_macro".to_owned();
    let ghost s = entries_view(metadata@);
    proof {
        assert(s.skip(0) =~= s);
    }
    let mut i: usize = 0;
    while i < metadata.len()
        invariant
            i <= metadata.len(),
            reserved@ == reserved_target(),
            s == entries_view(metadata@),
            s.len() == metadata@.len(),
            extracted_entry(s) == extracted_entry(s.skip(i as int)),
        decreases metadata.len() - i,
    {
        proof {
            assert(s[i as int] == metadata@[i as int]@);
            assert(s.skip(i as int).first() == s[i as int]);
        }
        if metadata[i].target == reserved {
            return Some(&metadata[i]);
        }
        proof {
            assert(s.skip(i as int).drop_first() =~= s.skip(i as int + 1));
        }
        i = i + 1;
    }
    proof {
        assert(s.skip(metadata@.len() as int) =~= Seq::<EntryView>::empty());
    }
    None
}

/// The greeting an assignment configures: present exactly when the content
/// parsed as one assignment whose key is the reserved one and whose value is
/// a string literal. Everything else is treated as absent, never as an error.
pub open spec fn resolved_greeting_spec(parsed: Option<AssignView>) -> Option<Seq<char>> {
    match parsed {
        Option::Some(a) => {
            if a.key == reserved_key() && a.str_value is Some {
                a.str_value
            } else {
                Option::None
            }
        },
        Option::None => Option::None,
    }
}

/// Accepts a parsed assignment only when its key is the reserved `greeting`
/// key and its value is a string literal; yields the literal's text then.
pub fn resolve_assignment(parsed: Option<Assignment>) -> (r: Option<String>)
    ensures
        opt_string_view(r) == resolved_greeting_spec(opt_assign_view(parsed)),
{
    match parsed {
        Option::Some(a) => {
            if a.key == "greeting".to_owned() {
                match a.str_value {
                    Option::Some(v) => Option::Some(v),
                    Option::None => Option::None,
                }
            } else {
                Option::None
            }
        },
        Option::None => Option::None,
    }
}

/// Reads one annotation's raw content: the configured greeting if and only
/// if the content is a single `greeting = "..."` assignment.
pub fn resolve_content(content: &str) -> (r: Option<String>)
    ensures
        opt_string_view(r) == resolved_greeting_spec(assign_of(content@)),
{
    resolve_assignment(parse_assignment(content))
}

/// The default greeting computed for a field that carries no valid
/// configuration.
pub open spec fn default_greeting(name: Seq<char>) -> Seq<char> {
    "Hello, field "@ + name + "!"@
}

/// Builds the default greeting for the named field.
pub fn default_for(name: &String) -> (r: String)
    ensures
        r@ == default_greeting(name@),
{
    let mut r: String = "Hello, field ".to_owned();
    r.append(name.as_str());
    r.append("!");
    proof {
        assert(r@ =~= default_greeting(name@));
    }
    r
}

/// The greeting a field's generated statement announces: the configured one
/// when the first entry addressed to this generator carries a valid
/// assignment, and the computed default otherwise.
pub open spec fn field_greeting(f: FieldView) -> Seq<char> {
    match extracted_entry(f.metadata) {
        Option::Some(e) => match resolved_greeting_spec(assign_of(e.content)) {
            Option::Some(g) => g,
            Option::None => default_greeting(f.name),
        },
        Option::None => default_greeting(f.name),
    }
}

/// Resolves the effective configuration of one field.
pub fn resolve_field(field: &FieldDecl) -> (r: FieldConfig)
    ensures
        r.greeting@ == field_greeting(field@),
{
    match extract_entry(&field.metadata) {
        Option::Some(e) => match resolve_content(e.content.as_str()) {
            Option::Some(g) => FieldConfig { greeting: g },
            Option::None => FieldConfig { greeting: default_for(&field.name) },
        },
        Option::None => FieldConfig { greeting: default_for(&field.name) },
    }
}

/// The greetings of all fields, in declaration order.
pub open spec fn field_greetings(fields: Seq<FieldView>) -> Seq<Seq<char>> {
    fields.map_values(|f: FieldView| field_greeting(f))
}

/// Resolves one configuration per field, in the same order as the fields.
pub fn resolve_fields(fields: &Vec<FieldDecl>) -> (r: Vec<FieldConfig>)
    ensures
        r@.len() == fields@.len(),
        forall|i: int| 0 <= i < fields@.len() ==> r@[i].greeting@ == field_greeting(fields@[i]@),
{
    let mut r: Vec<FieldConfig> = Vec::new();
    let mut i: usize = 0;
    while i < fields.len()
        invariant
            i <= fields.len(),
            r@.len() == i,
            forall|j: int| 0 <= j < i ==> r@[j].greeting@ == field_greeting(fields@[j]@),
        decreases fields.len() - i,
    {
        let c = resolve_field(&fields[i]);
        r.push(c);
        i = i + 1;
    }
    r
}

} // verus!
