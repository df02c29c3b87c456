use vstd::prelude::*;

verus! {

/// One positional hint attached to a field, applied in declaration order.
#[derive(Clone, Copy, Debug, PartialEq, Eq, Structural)]
pub enum PositionHint {
    /// The field starts at this offset; the cursor is left where it was.
    StartsAt(usize),
    /// The field ends at this offset (exclusive); the cursor moves there.
    EndsAt(usize),
    /// The field is this wide; the cursor moves to its end.
    Length(usize),
}

/// How the text of a field is turned into a value.
#[derive(Clone, Copy, Debug, PartialEq, Eq, Structural)]
pub enum FieldKind {
    /// The slice of the line, kept verbatim.
    Text,
    /// A signed decimal integer that fits in 64 bits.
    Integer,
}

/// A field as declared: its name, its value kind and its position hints.
#[derive(Clone, Debug)]
pub struct FieldDecl {
    pub name: String,
    pub kind: FieldKind,
    pub hints: Vec<PositionHint>,
}

/// What stands where a variant's tag is expected.
#[derive(Clone, Debug)]
pub enum TagDecl {
    /// A string literal: the tag itself.
    Literal(String),
    /// The tag attribute, but with a value that is not a string literal.
    NonLiteral,
    /// An attribute other than the tag.
    Unexpected,
}

/// One record variant as declared.
#[derive(Clone, Debug)]
pub struct VariantDecl {
    pub name: String,
    /// Whether the declaration gives the variant an explicit discriminant.
    pub has_discriminant: bool,
    pub tag: TagDecl,
    pub fields: Vec<FieldDecl>,
}

/// A whole format as declared, in declaration order.
#[derive(Clone, Debug)]
pub struct Schema {
    pub target_name: String,
    /// Whether the declaration is a set of alternatives (an enum) rather than one shape.
    pub is_enum: bool,
    pub variants: Vec<VariantDecl>,
}

/// A defect of a schema, found before any parser is produced.
/// Variants and fields are named by their index in declaration order.
#[derive(Clone, Copy, Debug, PartialEq, Eq, Structural)]
pub enum SchemaError {
    /// The declaration is a single shape, not a set of alternatives.
    NotTaggedUnion,
    /// No usable tag: there are no variants, or the tags are empty.
    NoRecordTypes,
    /// A variant carries an explicit discriminant.
    DiscriminantSet { variant: usize },
    /// A variant carries an attribute other than its tag.
    UnexpectedAttribute { variant: usize },
    /// A variant's tag is not a string literal.
    TagNotLiteral { variant: usize },
    /// A variant's tag differs in length from the first variant's tag.
    TagLengthMismatch { variant: usize },
    /// A field ends before it starts, or its end lies past `usize::MAX`.
    FieldRangeInvalid { variant: usize, field: usize },
    /// A field resolves to zero width.
    ZeroLengthField { variant: usize, field: usize },
}

/// The text of a variant's tag when it is a literal, else the empty sequence.
pub open spec fn tag_text(t: TagDecl) -> Seq<char> {
    match t {
        TagDecl::Literal(s) => s@,
        _ => Seq::empty(),
    }
}

impl Schema {
    /// The name of the error type that the parser of this schema reports.
    pub fn error_type_name(&self) -> (r: String)
        ensures
            r@ == self.target_name@ + "ParseError"@,
    {
        let r = self.target_name.clone();
        r.concat("ParseError")
    }
}

} // verus!
