//! Source-text synthesis: given the parsed declaration and one resolved
//! configuration per field, emit the text of an implementation of the
//! contract — a type-level announcement followed by one field-level
//! announcement per field, in declaration order. Greetings are embedded as
//! string literals, so their characters are escaped; escaping is proved
//! lossless.

use vstd::prelude::*;
use vstd::string::{StrSliceExecFns, StringExecFns};

use crate::model::{DeclView, FieldConfig, FieldView, TypeDecl};
use crate::resolve::field_greetings;

verus! {

/// How one character is written inside a generated string literal.
pub open spec fn escape_char(c: char) -> Seq<char> {
    if c == '"' {
        seq!['\\', '"']
    } else if c == '\\' {
        seq!['\\', '\\']
    } else if c == '\n' {
        seq!['\\', 'n']
    } else if c == '\r' {
        seq!['\\', 'r']
    } else if c == '\t' {
        seq!['\\', 't']
    } else {
        seq![c]
    }
}

/// How a whole string is written inside a generated string literal.
pub open spec fn escape(s: Seq<char>) -> Seq<char>
    decreases s.len(),
{
    if s.len() == 0 {
        Seq::empty()
    } else {
        escape_char(s.first()) + escape(s.drop_first())
    }
}

/// The character a two-character escape sequence denotes.
pub open spec fn unescape_pair(c: char) -> char {
    if c == 'n' {
        '\n'
    } else if c == 'r' {
        '\r'
    } else if c == 't' {
        '\t'
    } else {
        c
    }
}

/// The characters a string-literal body denotes: each `\` pairs with the
/// character after it, every other character stands for itself.
pub open spec fn unescape(s: Seq<char>) -> Seq<char>
    decreases s.len(),
{
    if s.len() == 0 {
        Seq::empty()
    } else if s.first() == '\\' && s.len() >= 2 {
        seq![unescape_pair(s[1])] + unescape(s.skip(2))
    } else {
        seq![s.first()] + unescape(s.drop_first())
    }
}

/// Escaping is lossless: a generated string literal denotes exactly the
/// characters that were escaped into it, for every string, including empty
/// ones and ones holding quotes or escape characters.
pub proof fn lemma_escape_roundtrip(s: Seq<char>)
    ensures
        unescape(escape(s)) == s,
    decreases s.len(),
{
    if s.len() == 0 {
        assert(unescape(escape(s)) =~= s);
    } else {
        let c = s.first();
        lemma_escape_roundtrip(s.drop_first());
        let e = escape(s);
        if c == '"' || c == '\\' || c == '\n' || c == '\r' || c == '\t' {
            assert(e[0] == '\\');
            assert(unescape_pair(e[1]) == c);
            assert(e.skip(2) =~= escape(s.drop_first()));
            assert(unescape(e) =~= s);
        } else {
            assert(e[0] == c);
            assert(e.drop_first() =~= escape(s.drop_first()));
            assert(unescape(e) =~= s);
        }
    }
}

proof fn lemma_escape_snoc(s: Seq<char>, c: char)
    ensures
        escape(s.push(c)) == escape(s) + escape_char(c),
    decreases s.len(),
{
    if s.len() == 0 {
        assert(s.push(c).first() == c);
        assert(s.push(c).drop_first() =~= s);
        assert(escape(s.push(c)) == escape_char(c) + escape(s));
        assert(escape(s) == Seq::<char>::empty());
        assert(escape(s.push(c)) =~= escape(s) + escape_char(c));
    } else {
        assert(s.push(c).first() == s.first());
        assert(s.push(c).drop_first() =~= s.drop_first().push(c));
        lemma_escape_snoc(s.drop_first(), c);
        assert(escape(s.push(c)) =~= escape(s) + escape_char(c));
    }
}

/// Relies on `String::push`: appends exactly the one character at the end.
#[verifier::external_body]
fn push_char(s: &mut String, c: char)
    ensures
        final(s)@ == old(s)@ + seq![c],
{
    s.push(c);
}

/// Escapes a string for embedding in a generated string literal.
pub fn escape_str(s: &str) -> (r: String)
    ensures
        r@ == escape(s@),
{
    let n: usize = s.unicode_len();
    let mut r: String = String::new();
    proof {
        assert(s@.take(0) =~= Seq::<char>::empty());
    }
    let mut i: usize = 0;
    while i < n
        invariant
            i <= n,
            n == s@.len(),
            r@ == escape(s@.take(i as int)),
        decreases n - i,
    {
        let c = s.get_char(i);
        if c == '"' {
            r.append("\\\"");
            proof {
                reveal_strlit("\\\"");
                assert("\\\""@ =~= escape_char(c));
            }
        } else if c == '\\' {
            r.append("\\\\");
            proof {
                reveal_strlit("\\\\");
                assert("\\\\"@ =~= escape_char(c));
            }
        } else if c == '\n' {
            r.append("\\n");
            proof {
                reveal_strlit("\\n");
                assert("\\n"@ =~= escape_char(c));
            }
        } else if c == '\r' {
            r.append("\\r");
            proof {
                reveal_strlit("\\r");
                assert("\\r"@ =~= escape_char(c));
            }
        } else if c == '\t' {
            r.append("\\t");
            proof {
                reveal_strlit("\\t");
                assert("\\t"@ =~= escape_char(c));
            }
        } else {
            push_char(&mut r, c);
        }
        proof {
            lemma_escape_snoc(s@.take(i as int), s@[i as int]);
            assert(s@.take(i as int + 1) =~= s@.take(i as int).push(s@[i as int]));
        }
        i = i + 1;
    }
    proof {
        assert(s@.take(n as int) =~= s@);
    }
    r
}

/// The opening of the synthesized implementation, through the type-level
/// announcement.
pub open spec fn header_text(name: Seq<char>) -> Seq<char> {
    "impl HelloMacro for "@ + name
        + " {\n    fn hello_macro() {\n        println!(\"Hello, Macro! My name is "@ + name
        + "!\");\n"@
}

/// The closing braces of the synthesized implementation.
pub open spec fn footer_text() -> Seq<char> {
    "    }\n}\n"@
}

/// One synthesized field-level statement: it announces the field's name and
/// its resolved greeting, the greeting embedded as an escaped string literal.
pub open spec fn field_stmt(name: Seq<char>, greeting: Seq<char>) -> Seq<char> {
    "        println!(\"Field {}: {}\", \""@ + name + "\", \""@ + escape(greeting) + "\");\n"@
}

/// The field-level statements for paired field names and greetings, in
/// order.
pub open spec fn stmts_of(names: Seq<Seq<char>>, greetings: Seq<Seq<char>>) -> Seq<char>
    recommends
        names.len() == greetings.len(),
    decreases names.len(),
{
    if names.len() == 0 || greetings.len() == 0 {
        Seq::empty()
    } else {
        field_stmt(names.first(), greetings.first()) + stmts_of(
            names.drop_first(),
            greetings.drop_first(),
        )
    }
}

proof fn lemma_stmts_of_snoc(names: Seq<Seq<char>>, greetings: Seq<Seq<char>>, n: Seq<char>, g: Seq<char>)
    requires
        names.len() == greetings.len(),
    ensures
        stmts_of(names.push(n), greetings.push(g)) == stmts_of(names, greetings) + field_stmt(n, g),
    decreases names.len(),
{
    if names.len() == 0 {
        assert(names.push(n).first() == n);
        assert(greetings.push(g).first() == g);
        assert(names.push(n).drop_first() =~= names);
        assert(greetings.push(g).drop_first() =~= greetings);
        assert(stmts_of(names.push(n), greetings.push(g)) == field_stmt(n, g) + stmts_of(
            names,
            greetings,
        ));
        assert(stmts_of(names, greetings) == Seq::<char>::empty());
        assert(stmts_of(names.push(n), greetings.push(g)) =~= stmts_of(names, greetings)
            + field_stmt(n, g));
    } else {
        assert(names.push(n).first() == names.first());
        assert(greetings.push(g).first() == greetings.first());
        assert(names.push(n).drop_first() =~= names.drop_first().push(n));
        assert(greetings.push(g).drop_first() =~= greetings.drop_first().push(g));
        lemma_stmts_of_snoc(names.drop_first(), greetings.drop_first(), n, g);
        assert(stmts_of(names.push(n), greetings.push(g)) =~= stmts_of(names, greetings)
            + field_stmt(n, g));
    }
}

/// The names of a declaration's fields, in order.
pub open spec fn field_names(fields: Seq<FieldView>) -> Seq<Seq<char>> {
    fields.map_values(|f: FieldView| f.name)
}

/// The greetings a sequence of resolved configurations carries, in order.
pub open spec fn config_greetings(configs: Seq<FieldConfig>) -> Seq<Seq<char>> {
    configs.map_values(|c: FieldConfig| c.greeting@)
}

/// The full text synthesized for a declaration once every field's greeting
/// is resolved.
pub open spec fn synthesized(d: DeclView) -> Seq<char> {
    header_text(d.name) + stmts_of(field_names(d.fields), field_greetings(d.fields))
        + footer_text()
}

fn append_field_stmt(out: &mut String, name: &String, greeting: &String)
    ensures
        final(out)@ == old(out)@ + field_stmt(name@, greeting@),
{
    out.append("        println!(\"Field {}: {}\", \"");
    out.append(name.as_str());
    out.append("\", \"");
    let e = escape_str(greeting.as_str());
    out.append(e.as_str());
    out.append("\");\n");
    proof {
        assert(out@ =~= old(out)@ + field_stmt(name@, greeting@));
    }
}

/// Emits the implementation text for the declaration, one field-level
/// statement per configuration, in order. The configurations must pair up
/// with the fields; which greeting each one carries is the caller's
/// business.
pub fn synthesize(decl: &TypeDecl, configs: &Vec<FieldConfig>) -> (r: String)
    requires
        decl.fields@.len() == configs@.len(),
    ensures
        r@ == header_text(decl.name@) + stmts_of(
            field_names(decl@.fields),
            config_greetings(configs@),
        ) + footer_text(),
{
    let ghost names = field_names(decl@.fields);
    let ghost gs = config_greetings(configs@);
    let mut out: String = "impl HelloMacro for ".to_owned();
    out.append(decl.name.as_str());
    out.append(" {\n    fn hello_macro() {\n        println!(\"Hello, Macro! My name is ");
    out.append(decl.name.as_str());
    out.append("!\");\n");
    proof {
        assert(out@ =~= header_text(decl.name@));
        assert(names.take(0) =~= Seq::<Seq<char>>::empty());
        assert(gs.take(0) =~= Seq::<Seq<char>>::empty());
    }
    let mut i: usize = 0;
    while i < decl.fields.len()
        invariant
            i <= decl.fields.len(),
            decl.fields@.len() == configs@.len(),
            names == field_names(decl@.fields),
            gs == config_greetings(configs@),
            names.len() == decl.fields@.len(),
            gs.len() == configs@.len(),
            out@ == header_text(decl.name@) + stmts_of(names.take(i as int), gs.take(i as int)),
        decreases decl.fields.len() - i,
    {
        proof {
            assert(decl@.fields[i as int] == decl.fields@[i as int]@);
            assert(names[i as int] == decl.fields@[i as int]@.name);
            assert(gs[i as int] == configs@[i as int].greeting@);
        }
        append_field_stmt(&mut out, &decl.fields[i].name, &configs[i].greeting);
        proof {
            lemma_stmts_of_snoc(names.take(i as int), gs.take(i as int), names[i as int], gs[i as int]);
            assert(names.take(i as int + 1) =~= names.take(i as int).push(names[i as int]));
            assert(gs.take(i as int + 1) =~= gs.take(i as int).push(gs[i as int]));
            assert(out@ =~= header_text(decl.name@) + stmts_of(
                names.take(i as int + 1),
                gs.take(i as int + 1),
            ));
        }
        i = i + 1;
    }
    out.append("    }\n}\n");
    proof {
        assert(names.take(names.len() as int) =~= names);
        assert(gs.take(gs.len() as int) =~= gs);
        assert(out@ =~= header_text(decl.name@) + stmts_of(names, gs) + footer_text());
    }
    out
}

} // verus!
