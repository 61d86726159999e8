//! Why a generation request is refused. Every refusal is final: nothing is generated for
//! the declaration.

use vstd::prelude::*;
use vstd::string::*;
use crate::groups::{message_text, ParseError, ParseErrorView};

verus! {

/// Why a generation request is refused.
#[derive(Clone, Debug, PartialEq, Eq)]
pub enum GenerationError {
    /// An annotation is not of the grammar `name(group), name(group), ...`, or a group that
    /// must hold an identifier holds something else.
    MalformedAnnotation(ParseError),
    /// The annotation names a field that the record does not declare.
    UnknownField(String),
    /// The annotation claims a field twice: twice as an argument, twice with an initializer,
    /// or once as each.
    ConflictingFieldSpec(String),
    /// The annotation asks for a pattern other than `From` and `TryFrom`; the text is the
    /// pattern as it was compared, in lower case.
    UnsupportedPattern(String),
    /// The declaration is not of a shape that the request can be met for.
    UnsupportedShape,
}

/// A [`GenerationError`] as contracts see it.
pub enum GenerationErrorView {
    MalformedAnnotation(ParseErrorView),
    UnknownField(Seq<char>),
    ConflictingFieldSpec(Seq<char>),
    UnsupportedPattern(Seq<char>),
    UnsupportedShape,
}

impl View for GenerationError {
    type V = GenerationErrorView;

    open spec fn view(&self) -> GenerationErrorView {
        match self {
            GenerationError::MalformedAnnotation(error) => GenerationErrorView::MalformedAnnotation(
                error@,
            ),
            GenerationError::UnknownField(name) => GenerationErrorView::UnknownField(name@),
            GenerationError::ConflictingFieldSpec(name) => GenerationErrorView::ConflictingFieldSpec(
                name@,
            ),
            GenerationError::UnsupportedPattern(name) => GenerationErrorView::UnsupportedPattern(
                name@,
            ),
            GenerationError::UnsupportedShape => GenerationErrorView::UnsupportedShape,
        }
    }
}

/// The message of a refusal, for a person to read.
pub open spec fn refusal_text(error: GenerationErrorView) -> Seq<char> {
    match error {
        GenerationErrorView::MalformedAnnotation(inner) => message_text(inner),
        GenerationErrorView::UnknownField(name) => "The type has no field named '"@ + name + "'"@,
        GenerationErrorView::ConflictingFieldSpec(name) => "The field '"@ + name
            + "' is claimed more than once by 'fields' and 'defaults'"@,
        GenerationErrorView::UnsupportedPattern(name) =>
            "This constructor is asking for a pattern by the name of '"@ + name
            + "', the only patterns available are 'From' and 'TryFrom'"@,
        GenerationErrorView::UnsupportedShape => "This type is not of a shape that constructors can be generated for"@,
    }
}

impl GenerationError {
    /// The message for a person to read; it names the offending field, pattern or token.
    pub fn message(&self) -> (r: String)
        ensures
            r@ == refusal_text(self@),
    {
        match self {
            GenerationError::MalformedAnnotation(inner) => inner.message(),
            GenerationError::UnknownField(name) => {
                let mut out = String::from_str("The type has no field named '");
                out.append(name.as_str());
                out.append("'");
                out
            },
            GenerationError::ConflictingFieldSpec(name) => {
                let mut out = String::from_str("The field '");
                out.append(name.as_str());
                out.append("' is claimed more than once by 'fields' and 'defaults'");
                out
            },
            GenerationError::UnsupportedPattern(name) => {
                let mut out = String::from_str(
                    "This constructor is asking for a pattern by the name of '",
                );
                out.append(name.as_str());
                out.append("', the only patterns available are 'From' and 'TryFrom'");
                out
            },
            GenerationError::UnsupportedShape => String::from_str(
                "This type is not of a shape that constructors can be generated for",
            ),
        }
    }
}

} // verus!
