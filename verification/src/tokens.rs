//! The tokens of an annotation, as the Rust lexer of `proc-macro2` cuts them.

use proc_macro2::{Delimiter, TokenStream, TokenTree};
use vstd::prelude::*;

verus! {

/// What kind of token tree a token is. A group is told apart by its delimiters.
#[derive(Clone, Copy, Debug, PartialEq, Eq, Structural)]
pub enum TokenKind {
    /// A word: a name or a keyword.
    Ident,
    /// A group in `( )`.
    Parenthesized,
    /// A group in `[ ]`.
    Bracketed,
    /// A group in `{ }`.
    Braced,
    /// A group without delimiters of its own.
    Undelimited,
    /// One character of punctuation.
    Punct,
    /// A literal: a number, a string, a character.
    Literal,
}

/// One token tree of a stream. Its text is the word, the punctuation character or the
/// literal as written; for a group it is what stands between the delimiters, kept whole and
/// never looked into at this level.
#[derive(Clone, Debug, PartialEq, Eq)]
pub struct Token {
    pub kind: TokenKind,
    pub text: String,
}

/// A token as contracts see it.
pub struct TokenView {
    pub kind: TokenKind,
    pub text: Seq<char>,
}

impl View for Token {
    type V = TokenView;

    open spec fn view(&self) -> TokenView {
        TokenView { kind: self.kind, text: self.text@ }
    }
}

impl DeepView for Token {
    type V = TokenView;

    open spec fn deep_view(&self) -> TokenView {
        self@
    }
}

/// The token trees into which `proc-macro2` lexes `text`, outermost level only, or `None`
/// where the text is no sequence of Rust tokens (a delimiter left open, a literal without
/// its end).
pub uninterp spec fn lexed(text: Seq<char>) -> Option<Seq<TokenView>>;

/// Lexes with `proc_macro2::TokenStream::from_str` and hands out each token tree of the
/// outermost level as a [`Token`]: the kind from the variant (for a group, from its
/// delimiter), the text from the tree's own display (for a group, from that of its inner
/// stream). The crate is built without its `proc-macro` feature, so the lexer is always its
/// own and its answer depends on the text alone. The contract names that answer and says
/// nothing else of it.
#[verifier::external_body]
pub(crate) fn lex(text: &str) -> (r: Option<Vec<Token>>)
    ensures
        r.deep_view() == lexed(text@),
{
    let stream = text.parse::<TokenStream>().ok()?;
    Some(stream.into_iter().map(|tree| match tree {
        TokenTree::Ident(t) => Token { kind: TokenKind::Ident, text: t.to_string() },
        TokenTree::Punct(t) => Token { kind: TokenKind::Punct, text: t.as_char().to_string() },
        TokenTree::Literal(t) => Token { kind: TokenKind::Literal, text: t.to_string() },
        TokenTree::Group(t) => Token { kind: match t.delimiter() {
            Delimiter::Parenthesis => TokenKind::Parenthesized,
            Delimiter::Bracket => TokenKind::Bracketed,
            Delimiter::Brace => TokenKind::Braced,
            Delimiter::None => TokenKind::Undelimited,
        }, text: t.stream().to_string() },
    }).collect())
}

} // verus!
