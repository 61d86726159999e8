//! Generates conversion constructors for records and tagged unions.
//!
//! A declaration comes in as plain values ([`TypeDecl`]), its configuration as the text of
//! an annotation or as markers on its parts, and the generated code goes out as text. In
//! between, the annotation is read by the grammar `name(group), name(group), ...`
//! ([`groups`]), the fields of a record are parted into those that a constructor takes as
//! arguments and those that it fills by itself ([`fields`]), a fallible constructor gets its
//! error enumeration ([`fallible`]), and the code is written ([`emit`]). [`generate`] holds
//! the three requests that tie these together; [`built`] and [`laws`] state what holds of
//! every outcome.

pub mod built;
pub mod decl;
pub mod emit;
pub mod error;
pub mod fallible;
pub mod fields;
pub mod generate;
pub mod groups;
pub mod laws;
pub mod naming;
pub mod text;
pub mod tokens;
pub mod variants;

pub use decl::{find_attribute, Attribute, FieldDecl, Shape, TypeDecl, VariantDecl, VariantField};
pub use emit::{
    tokens_for_from_for_enum, tokens_for_from_for_struct, tokens_for_from_for_variant,
    tokens_for_try_from_for_struct,
};
pub use error::GenerationError;
pub use fallible::TryFromInfo;
pub use fields::FieldsInfo;
pub use generate::{
    constructor, derive_from, derive_try_from, print_info, GenerationRequest, Pattern,
};
pub use groups::{
    find_group, idents_and_groups_from, parse_separated_idents, parse_token_groups, ParseError,
    ParsePhase,
};
pub use tokens::{Token, TokenKind};
pub use variants::{fields_as_const_defaults_tokens, VariantConversion};
