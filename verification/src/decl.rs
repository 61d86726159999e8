//! A type declaration as the generator reads it: a record with named fields or a tagged union
//! with variants, and the annotations attached to each part. Code that the generator only
//! carries through (a field's type, the arguments of an annotation) is held as text and never
//! looked into.

use vstd::prelude::*;
use vstd::string::*;
use crate::text::same_text;

verus! {

/// An annotation on a declaration, a field or a variant: `#[path]` or `#[path(arguments)]`.
#[derive(Clone, Debug, PartialEq, Eq)]
pub struct Attribute {
    /// The segments of the path, in order: `a::b` has two.
    pub path: Vec<String>,
    /// What stands between the parentheses, where the annotation has parentheses.
    pub arguments: Option<String>,
}

/// A named field of a record.
#[derive(Clone, Debug, PartialEq, Eq)]
pub struct FieldDecl {
    pub name: String,
    pub ty: String,
    pub attributes: Vec<Attribute>,
}

/// A field of a variant: named in a variant with braces, without a name in one with
/// parentheses.
#[derive(Clone, Debug, PartialEq, Eq)]
pub struct VariantField {
    pub name: Option<String>,
    pub ty: String,
}

/// A variant of a tagged union.
#[derive(Clone, Debug, PartialEq, Eq)]
pub struct VariantDecl {
    pub name: String,
    pub attributes: Vec<Attribute>,
    pub fields: Vec<VariantField>,
}

/// What a declaration declares.
#[derive(Clone, Debug, PartialEq, Eq)]
pub enum Shape {
    /// A record: named fields in the order of their declaration.
    Record(Vec<FieldDecl>),
    /// A tagged union: variants in the order of their declaration.
    TaggedUnion(Vec<VariantDecl>),
    /// Anything else, such as an untagged union or a record whose fields have no names.
    Other,
}

/// A type declaration.
#[derive(Clone, Debug, PartialEq, Eq)]
pub struct TypeDecl {
    pub name: String,
    pub attributes: Vec<Attribute>,
    pub shape: Shape,
}

/// The names of the fields, in the order of their declaration.
pub open spec fn declared_names(fields: Seq<FieldDecl>) -> Seq<Seq<char>> {
    fields.map_values(|field: FieldDecl| field.name@)
}

/// Whether the annotation's path is the single word `name`.
pub open spec fn is_called(attribute: Attribute, name: Seq<char>) -> bool {
    attribute.path@.len() == 1 && attribute.path@[0]@ == name
}

/// The first of the annotations whose path is the single word `name`.
pub open spec fn attribute_called(attributes: Seq<Attribute>, name: Seq<char>) -> Option<Attribute>
    decreases attributes.len(),
{
    if attributes.len() == 0 {
        None
    } else if is_called(attributes[0], name) {
        Some(attributes[0])
    } else {
        attribute_called(attributes.drop_first(), name)
    }
}

/// Finds the first of the annotations whose path is the single word `name`.
pub fn find_attribute<'a>(attributes: &'a Vec<Attribute>, name: &str) -> (r: Option<&'a Attribute>)
    ensures
        match r {
            Some(found) => attribute_called(attributes@, name@) == Some(*found),
            None => attribute_called(attributes@, name@) is None,
        },
{
    let mut i: usize = 0;
    assert(attributes@.skip(0) =~= attributes@);
    while i < attributes.len()
        invariant
            i <= attributes.len(),
            attribute_called(attributes@, name@) == attribute_called(
                attributes@.skip(i as int),
                name@,
            ),
        decreases attributes.len() - i,
    {
        let attribute = &attributes[i];
        if attribute.path.len() == 1 && same_text(attribute.path[0].as_str(), name) {
            return Some(attribute);
        }
        assert(attributes@.skip(i as int).drop_first() =~= attributes@.skip(i + 1));
        i += 1;
    }
    None
}

} // verus!
