use vstd::prelude::*;

verus! {

/// One annotation attached to a field: the name of the generator it targets
/// and the raw token text found between its parentheses (empty when the
/// annotation carries no parenthesized content).
pub struct MetadataEntry {
    pub target: String,
    pub content: String,
}

/// Mathematical image of a [`MetadataEntry`].
pub struct EntryView {
    pub target: Seq<char>,
    pub content: Seq<char>,
}

impl View for MetadataEntry {
    type V = EntryView;

    open spec fn view(&self) -> EntryView {
        EntryView { target: self.target@, content: self.content@ }
    }
}

/// One named field of a record declaration, with the annotations attached to
/// it, in attachment order. The declared type of the field plays no role in
/// generation and is not modeled.
pub struct FieldDecl {
    pub name: String,
    pub metadata: Vec<MetadataEntry>,
}

/// Mathematical image of a [`FieldDecl`].
pub struct FieldView {
    pub name: Seq<char>,
    pub metadata: Seq<EntryView>,
}

/// The views of a sequence of metadata entries, in order.
pub open spec fn entries_view(metadata: Seq<MetadataEntry>) -> Seq<EntryView> {
    metadata.map_values(|e: MetadataEntry| e@)
}

impl View for FieldDecl {
    type V = FieldView;

    open spec fn view(&self) -> FieldView {
        FieldView { name: self.name@, metadata: entries_view(self.metadata@) }
    }
}

/// A record declaration with named fields: the type's name and its fields in
/// declaration order.
pub struct TypeDecl {
    pub name: String,
    pub fields: Vec<FieldDecl>,
}

/// Mathematical image of a [`TypeDecl`].
pub struct DeclView {
    pub name: Seq<char>,
    pub fields: Seq<FieldView>,
}

/// The views of a sequence of field declarations, in order.
pub open spec fn fields_view(fields: Seq<FieldDecl>) -> Seq<FieldView> {
    fields.map_values(|f: FieldDecl| f@)
}

impl View for TypeDecl {
    type V = DeclView;

    open spec fn view(&self) -> DeclView {
        DeclView { name: self.name@, fields: fields_view(self.fields@) }
    }
}

/// The `key = literal` assignment read out of one annotation's content.
/// `str_value` is the literal's text when the right-hand side is a string
/// literal, and `None` when it is any other kind of expression.
pub struct Assignment {
    pub key: String,
    pub str_value: Option<String>,
}

/// Mathematical image of an [`Assignment`].
pub struct AssignView {
    pub key: Seq<char>,
    pub str_value: Option<Seq<char>>,
}

impl View for Assignment {
    type V = AssignView;

    open spec fn view(&self) -> AssignView {
        AssignView {
            key: self.key@,
            str_value: match self.str_value {
                Option::Some(ref v) => Option::Some(v@),
                Option::None => Option::None,
            },
        }
    }
}

/// The view of an optionally present assignment.
pub open spec fn opt_assign_view(r: Option<Assignment>) -> Option<AssignView> {
    match r {
        Option::Some(a) => Option::Some(a@),
        Option::None => Option::None,
    }
}

/// The view of an optionally present string.
pub open spec fn opt_string_view(r: Option<String>) -> Option<Seq<char>> {
    match r {
        Option::Some(s) => Option::Some(s@),
        Option::None => Option::None,
    }
}

/// The effective configuration resolved for one field: the greeting its
/// generated statement announces.
pub struct FieldConfig {
    pub greeting: String,
}

/// The shape a rejected declaration turned out to have. Generation accepts
/// only records with exclusively named fields.
#[derive(Clone, Copy, PartialEq, Eq, Structural, Debug)]
pub enum ShapeKind {
    /// The declaration is an `enum`.
    Enum,
    /// The declaration is a `union`.
    Union,
    /// The declaration is a record with unnamed, tuple-style fields.
    TupleRecord,
    /// The declaration is a unit record without a field list.
    UnitRecord,
    /// The text does not parse as a type declaration at all.
    NotADeclaration,
}

/// The one error generation surfaces: the incoming declaration is not a
/// record with named fields. Malformed annotation content is never an error;
/// it degrades silently to the default greeting.
#[derive(Clone, Copy, PartialEq, Eq, Structural, Debug)]
pub enum GenError {
    UnsupportedShape(ShapeKind),
}

/// The message [`GenError::describe`] returns for each rejected shape.
pub open spec fn describe_spec(e: GenError) -> Seq<char> {
    match e {
        GenError::UnsupportedShape(k) => match k {
            ShapeKind::Enum => "unsupported shape: expected a record with named fields, got an enum"@,
            ShapeKind::Union => "unsupported shape: expected a record with named fields, got a union"@,
            ShapeKind::TupleRecord => "unsupported shape: expected a record with named fields, got a record with unnamed fields"@,
            ShapeKind::UnitRecord => "unsupported shape: expected a record with named fields, got a unit record"@,
            ShapeKind::NotADeclaration => "unsupported shape: the input does not parse as a type declaration"@,
        },
    }
}

impl GenError {
    /// A human-readable description naming the unsupported shape.
    pub fn describe(&self) -> (r: String)
        ensures
            r@ == describe_spec(*self),
    {
        match *self {
            GenError::UnsupportedShape(k) => match k {
                ShapeKind::Enum => "unsupported shape: expected a record with named fields, got an enum".to_owned(),
                ShapeKind::Union => "unsupported shape: expected a record with named fields, got a union".to_owned(),
                ShapeKind::TupleRecord => "unsupported shape: expected a record with named fields, got a record with unnamed fields".to_owned(),
                ShapeKind::UnitRecord => "unsupported shape: expected a record with named fields, got a unit record".to_owned(),
                ShapeKind::NotADeclaration => "unsupported shape: the input does not parse as a type declaration".to_owned(),
            },
        }
    }
}

} // verus!
