//! Adapters over the `syn` parsing library. Parsing Rust declaration text is
//! the one job this crate delegates; everything downstream of these adapters
//! works on the plain data of [`crate::model`] and is verified.

use vstd::prelude::*;

use crate::model::{Assignment, DeclView, FieldDecl, MetadataEntry, ShapeKind, TypeDecl};

verus! {

#[verifier::external_type_specification]
#[verifier::external_body]
pub struct ExField(syn::Field);

/// What `syn` reads out of one declaration source text: the declared type's
/// name, fields and per-field annotations when the text is a record with
/// named fields, or the offending shape otherwise. Parsing is a pure function
/// of the text, so the result carries a name rather than a transcription of
/// the grammar.
pub uninterp spec fn decl_of(src: Seq<char>) -> Result<DeclView, ShapeKind>;

/// The view of what [`parse_declaration`] hands back.
pub open spec fn parse_result_view(r: Result<TypeDecl, ShapeKind>) -> Result<DeclView, ShapeKind> {
    match r {
        Result::Ok(d) => Result::Ok(d@),
        Result::Err(k) => Result::Err(k),
    }
}

/// Relies on `syn::parse_str::<syn::DeriveInput>`: parses one type
/// declaration deterministically, telling records with named fields apart
/// from enums, unions, tuple-style and unit records.
#[verifier::external_body]
pub(crate) fn parse_declaration(src: &str) -> (r: Result<TypeDecl, ShapeKind>)
    ensures
        parse_result_view(r) == decl_of(src@),
{
    let ast: syn::DeriveInput = match syn::parse_str(src) {
        Ok(a) => a,
        Err(_) => return Err(ShapeKind::NotADeclaration),
    };
    let named = match ast.data {
        syn::Data::Struct(s) => match s.fields {
            syn::Fields::Named(f) => f.named,
            syn::Fields::Unnamed(_) => return Err(ShapeKind::TupleRecord),
            syn::Fields::Unit => return Err(ShapeKind::UnitRecord),
        },
        syn::Data::Enum(_) => return Err(ShapeKind::Enum),
        syn::Data::Union(_) => return Err(ShapeKind::Union),
    };
    let fields = named.into_iter().map(field_of).collect();
    Ok(TypeDecl { name: ast.ident.to_string(), fields })
}

/// Relies on `syn::Field`: moves the field's name and its attributes into
/// plain values. The attribute's target is its path when that is a single
/// plain identifier; its content is the token text between its parentheses,
/// present only in the list form `#[name(...)]`.
#[verifier::external_body]
fn field_of(f: syn::Field) -> (r: FieldDecl) {
    let metadata = f.attrs.into_iter().map(|a| MetadataEntry {
        target: a.path().get_ident().map(|i| i.to_string()).unwrap_or_default(),
        content: match a.meta {
            syn::Meta::List(l) => l.tokens.to_string(),
            _ => String::new(),
        },
    }).collect();
    FieldDecl {
        name: f.ident.map(|i| i.to_string()).unwrap_or_default(),
        metadata,
    }
}

/// What `syn` reads out of one annotation's content: the assignment's key and
/// string-literal value when the content is exactly one `key = value`
/// assignment with a plain identifier on the left, and nothing otherwise.
/// Parsing is a pure function of the content text.
pub uninterp spec fn assign_of(content: Seq<char>) -> Option<crate::model::AssignView>;

/// Relies on `syn::parse_str::<syn::Expr>`: parses annotation content as one
/// expression, deterministically, and on `syn::LitStr::value`, which yields
/// the characters a string literal denotes.
#[verifier::external_body]
pub(crate) fn parse_assignment(content: &str) -> (r: Option<Assignment>)
    ensures
        crate::model::opt_assign_view(r) == assign_of(content@),
{
    let expr: syn::Expr = match syn::parse_str(content) { Ok(e) => e, Err(_) => return None };
    let assign = match expr { syn::Expr::Assign(a) => a, _ => return None };
    let key = match *assign.left {
        syn::Expr::Path(p) => match p.path.get_ident() { Some(i) => i.to_string(), None => return None },
        _ => return None,
    };
    let str_value = match *assign.right {
        syn::Expr::Lit(syn::ExprLit { lit: syn::Lit::Str(s), .. }) => Some(s.value()),
        _ => None,
    };
    Some(Assignment { key, str_value })
}

} // verus!
