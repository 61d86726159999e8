//! The annotation grammar `name(group), name(group), ...`: a stream of tokens becomes an
//! ordered list of names, each with the text of its group.

use vstd::prelude::*;
use vstd::string::*;
use crate::naming::{identifier_of, parse_identifier};
use crate::text::same_text;
use crate::tokens::{lex, lexed, Token, TokenKind, TokenView};

verus! {

/// The three positions that the grammar cycles through: a name, then its group, then a
/// separator.
#[derive(Clone, Copy, Debug, PartialEq, Eq, Structural)]
pub enum ParsePhase {
    Ident,
    Group,
    Punct,
}

impl ParsePhase {
    /// The phase that follows this one in the cycle.
    pub open spec fn next(self) -> ParsePhase {
        match self {
            ParsePhase::Ident => ParsePhase::Group,
            ParsePhase::Group => ParsePhase::Punct,
            ParsePhase::Punct => ParsePhase::Ident,
        }
    }

    /// The one kind of token that this phase admits.
    pub open spec fn admits(self) -> TokenKind {
        match self {
            ParsePhase::Ident => TokenKind::Ident,
            ParsePhase::Group => TokenKind::Parenthesized,
            ParsePhase::Punct => TokenKind::Punct,
        }
    }

    /// The phase in which the token at index `i` of a stream is met.
    pub open spec fn at(i: int) -> ParsePhase {
        if i % 3 == 0 {
            ParsePhase::Ident
        } else if i % 3 == 1 {
            ParsePhase::Group
        } else {
            ParsePhase::Punct
        }
    }

    /// Moves to the phase that admits the next token.
    pub fn advance_to_next(&mut self)
        ensures
            *final(self) == old(self).next(),
    {
        let next = match self {
            ParsePhase::Ident => ParsePhase::Group,
            ParsePhase::Group => ParsePhase::Punct,
            ParsePhase::Punct => ParsePhase::Ident,
        };
        *self = next;
    }
}

/// Why an annotation is not of the grammar. A position is the index of a token in the
/// stream; `previous` and `after` give the name that was accepted last before it.
#[derive(Clone, Debug, PartialEq, Eq)]
pub enum ParseError {
    /// The text is no sequence of tokens.
    NotTokens,
    /// The token at `position` stands where a name must stand.
    ExpectedName { position: usize, previous: Option<String> },
    /// The token at `position` stands where the group of the name `after` must stand; or the
    /// stream ends with that name, which is then the token at `position`.
    ExpectedGroup { position: usize, after: String },
    /// The token at `position` stands where a separator must follow the group of `after`.
    ExpectedSeparator { position: usize, after: String },
    /// The text is no identifier.
    NotAnIdentifier { text: String },
}

/// A [`ParseError`] as contracts see it.
pub enum ParseErrorView {
    NotTokens,
    ExpectedName { position: nat, previous: Option<Seq<char>> },
    ExpectedGroup { position: nat, after: Seq<char> },
    ExpectedSeparator { position: nat, after: Seq<char> },
    NotAnIdentifier { text: Seq<char> },
}

impl View for ParseError {
    type V = ParseErrorView;

    open spec fn view(&self) -> ParseErrorView {
        match self {
            ParseError::NotTokens => ParseErrorView::NotTokens,
            ParseError::ExpectedName { position, previous } => ParseErrorView::ExpectedName {
                position: *position as nat,
                previous: previous.deep_view(),
            },
            ParseError::ExpectedGroup { position, after } => ParseErrorView::ExpectedGroup {
                position: *position as nat,
                after: after@,
            },
            ParseError::ExpectedSeparator { position, after } => ParseErrorView::ExpectedSeparator {
                position: *position as nat,
                after: after@,
            },
            ParseError::NotAnIdentifier { text } => ParseErrorView::NotAnIdentifier { text: text@ },
        }
    }
}

/// The message of an error, for a person to read.
pub open spec fn message_text(error: ParseErrorView) -> Seq<char> {
    match error {
        ParseErrorView::NotTokens => "Expected a sequence of tokens"@,
        ParseErrorView::ExpectedName { position, previous } => match previous {
            None => "Expected a name, for example, 'group_name' in 'group_name(my group's description)'"@,
            Some(name) => "Expected a name after group named '"@ + name
                + "', for example, 'group_name' in 'group_name(my group's description)'"@,
        },
        ParseErrorView::ExpectedGroup { position, after } => "Expected a group after group named '"@
            + after
            + "', for example, '(my group's description)' in 'group_name(my group's description)'"@,
        ParseErrorView::ExpectedSeparator { position, after } =>
            "Expected a separator after group named '"@ + after
            + "', for example, the comma (',') in 'group1(desc), group2(desc)'"@,
        ParseErrorView::NotAnIdentifier { text } => "Expected an identifier, found '"@ + text + "'"@,
    }
}

impl ParseError {
    /// The message for a person to read: what was expected and, where a name had been
    /// accepted before, after which name.
    pub fn message(&self) -> (r: String)
        ensures
            r@ == message_text(self@),
    {
        match self {
            ParseError::NotTokens => String::from_str("Expected a sequence of tokens"),
            ParseError::ExpectedName { position, previous } => match previous {
                None => String::from_str(
                    "Expected a name, for example, 'group_name' in 'group_name(my group's description)'",
                ),
                Some(name) => {
                    let mut out = String::from_str("Expected a name after group named '");
                    out.append(name.as_str());
                    out.append(
                        "', for example, 'group_name' in 'group_name(my group's description)'",
                    );
                    out
                },
            },
            ParseError::ExpectedGroup { position, after } => {
                let mut out = String::from_str("Expected a group after group named '");
                out.append(after.as_str());
                out.append(
                    "', for example, '(my group's description)' in 'group_name(my group's description)'",
                );
                out
            },
            ParseError::ExpectedSeparator { position, after } => {
                let mut out = String::from_str("Expected a separator after group named '");
                out.append(after.as_str());
                out.append("', for example, the comma (',') in 'group1(desc), group2(desc)'");
                out
            },
            ParseError::NotAnIdentifier { text } => {
                let mut out = String::from_str("Expected an identifier, found '");
                out.append(text.as_str());
                out.append("'");
                out
            },
        }
    }
}

/// Whether the token at index `i` is of the kind that its place in the cycle admits.
pub open spec fn well_placed(tokens: Seq<TokenView>, i: int) -> bool {
    tokens[i].kind == ParsePhase::at(i).admits()
}

/// Whether `i` is the first index whose token is not well placed.
pub open spec fn first_misplaced(tokens: Seq<TokenView>, i: int) -> bool {
    &&& 0 <= i < tokens.len()
    &&& !well_placed(tokens, i)
    &&& forall|j: int| 0 <= j < i ==> well_placed(tokens, j)
}

/// The error for a token that is not well placed, all before it being so: what its place
/// asked for, and the name accepted last.
pub open spec fn misplacement(tokens: Seq<TokenView>, i: int) -> ParseErrorView {
    match ParsePhase::at(i) {
        ParsePhase::Ident => ParseErrorView::ExpectedName {
            position: i as nat,
            previous: if i >= 3 {
                Some(tokens[i - 3].text)
            } else {
                None
            },
        },
        ParsePhase::Group => ParseErrorView::ExpectedGroup {
            position: i as nat,
            after: tokens[i - 1].text,
        },
        ParsePhase::Punct => ParseErrorView::ExpectedSeparator {
            position: i as nat,
            after: tokens[i - 2].text,
        },
    }
}

/// What a stream of tokens says under the grammar. Where every token is well placed and no
/// name is left without its group, the names in order, each with the text of its group; a
/// separator at the very end is accepted. Else the error of the first misplaced token, or,
/// where the stream ends with a name, the want of its group.
pub open spec fn parsed_groups(tokens: Seq<TokenView>) -> Result<
    Seq<(Seq<char>, Seq<char>)>,
    ParseErrorView,
> {
    if exists|i: int| first_misplaced(tokens, i) {
        Err(misplacement(tokens, choose|i: int| first_misplaced(tokens, i)))
    } else if tokens.len() % 3 == 1 {
        Err(
            ParseErrorView::ExpectedGroup {
                position: (tokens.len() - 1) as nat,
                after: tokens.last().text,
            },
        )
    } else {
        Ok(Seq::new((tokens.len() + 1) / 3, |k: int| (tokens[3 * k].text, tokens[3 * k + 1].text)))
    }
}

/// Parses a stream of tokens under the grammar.
pub fn parse_token_groups(tokens: &Vec<Token>) -> (r: Result<Vec<(String, String)>, ParseError>)
    ensures
        match r {
            Ok(pairs) => parsed_groups(tokens.deep_view()) == Ok::<_, ParseErrorView>(
                pairs.deep_view(),
            ),
            Err(error) => parsed_groups(tokens.deep_view()) == Err::<
                Seq<(Seq<char>, Seq<char>)>,
                _,
            >(error@),
        },
{
    let ghost stream = tokens.deep_view();
    let mut parse_phase = ParsePhase::Ident;
    let mut idents: Vec<String> = Vec::new();
    let mut groups: Vec<String> = Vec::new();
    let mut i: usize = 0;
    while i < tokens.len()
        invariant
            i <= tokens.len(),
            stream == tokens.deep_view(),
            parse_phase == ParsePhase::at(i as int),
            forall|j: int| 0 <= j < i ==> well_placed(stream, j),
            idents@.len() == (i + 2) / 3,
            groups@.len() == (i + 1) / 3,
            forall|k: int| 0 <= k < idents@.len() ==> idents@[k]@ == stream[3 * k].text,
            forall|k: int| 0 <= k < groups@.len() ==> groups@[k]@ == stream[3 * k + 1].text,
        decreases tokens.len() - i,
    {
        let token = &tokens[i];
        assert(stream[i as int] == token@);
        match parse_phase {
            ParsePhase::Ident => match token.kind {
                TokenKind::Ident => idents.push(token.text.clone()),
                _ => {
                    let previous = if idents.len() > 0 {
                        Some(idents[idents.len() - 1].clone())
                    } else {
                        None
                    };
                    proof {
                        assert(first_misplaced(stream, i as int));
                    }
                    return Err(ParseError::ExpectedName { position: i, previous });
                },
            },
            ParsePhase::Group => match token.kind {
                TokenKind::Parenthesized => groups.push(token.text.clone()),
                _ => {
                    let after = idents[idents.len() - 1].clone();
                    proof {
                        assert(first_misplaced(stream, i as int));
                    }
                    return Err(ParseError::ExpectedGroup { position: i, after });
                },
            },
            ParsePhase::Punct => match token.kind {
                TokenKind::Punct => {},
                _ => {
                    let after = idents[idents.len() - 1].clone();
                    proof {
                        assert(first_misplaced(stream, i as int));
                    }
                    return Err(ParseError::ExpectedSeparator { position: i, after });
                },
            },
        }
        parse_phase.advance_to_next();
        i += 1;
    }
    assert(!exists|j: int| first_misplaced(stream, j));
    if idents.len() != groups.len() {
        let position = tokens.len() - 1;
        return Err(
            ParseError::ExpectedGroup { position, after: idents[idents.len() - 1].clone() },
        );
    }
    let mut pairs: Vec<(String, String)> = Vec::new();
    let mut k: usize = 0;
    while k < idents.len()
        invariant
            k <= idents@.len(),
            idents@.len() == groups@.len(),
            pairs@.len() == k,
            forall|m: int|
                0 <= m < k ==> pairs@[m].0@ == stream[3 * m].text && pairs@[m].1@ == stream[3 * m
                    + 1].text,
            forall|m: int| 0 <= m < idents@.len() ==> idents@[m]@ == stream[3 * m].text,
            forall|m: int| 0 <= m < groups@.len() ==> groups@[m]@ == stream[3 * m + 1].text,
        decreases idents.len() - k,
    {
        pairs.push((idents[k].clone(), groups[k].clone()));
        k += 1;
    }
    assert(pairs@.len() == (stream.len() + 1) / 3);
    assert(pairs.deep_view() =~= Seq::new(
        (stream.len() + 1) / 3,
        |k: int| (stream[3 * k].text, stream[3 * k + 1].text),
    ));
    Ok(pairs)
}

/// Whether all tokens up to index `n` are identifiers or punctuation.
pub open spec fn separated_so_far(tokens: Seq<TokenView>, n: int) -> bool {
    forall|j: int|
        0 <= j < n ==> (#[trigger] tokens[j]).kind == TokenKind::Punct || (tokens[j].kind
            == TokenKind::Ident && identifier_of(tokens[j].text) is Some)
}

/// The identifiers among the first `n` tokens, in order.
pub open spec fn identifiers_among(tokens: Seq<TokenView>, n: int) -> Seq<Seq<char>>
    decreases n,
{
    if n <= 0 {
        Seq::empty()
    } else if tokens[n - 1].kind == TokenKind::Ident {
        identifiers_among(tokens, n - 1).push(identifier_of(tokens[n - 1].text)->Some_0)
    } else {
        identifiers_among(tokens, n - 1)
    }
}

/// Whether `i` is the first index whose token is neither an identifier nor punctuation.
pub open spec fn first_stranger(tokens: Seq<TokenView>, i: int) -> bool {
    &&& 0 <= i < tokens.len()
    &&& separated_so_far(tokens, i)
    &&& !separated_so_far(tokens, i + 1)
}

/// The identifiers of a stream in which identifiers stand between punctuation of any kind:
/// all of them, in order; or the refusal of the first token that is neither, a keyword
/// being no identifier.
pub open spec fn separated_idents(tokens: Seq<TokenView>) -> Result<Seq<Seq<char>>, ParseErrorView> {
    if separated_so_far(tokens, tokens.len() as int) {
        Ok(identifiers_among(tokens, tokens.len() as int))
    } else {
        Err(
            ParseErrorView::NotAnIdentifier {
                text: tokens[choose|i: int| first_stranger(tokens, i)].text,
            },
        )
    }
}

/// Reads the identifiers of a stream in which identifiers stand between punctuation of any
/// kind.
pub fn parse_separated_idents(input: &Vec<Token>) -> (r: Result<Vec<String>, ParseError>)
    ensures
        match r {
            Ok(idents) => separated_idents(input.deep_view()) == Ok::<_, ParseErrorView>(
                idents.deep_view(),
            ),
            Err(error) => separated_idents(input.deep_view()) == Err::<Seq<Seq<char>>, _>(error@),
        },
{
    let ghost stream = input.deep_view();
    let mut idents: Vec<String> = Vec::new();
    let mut i: usize = 0;
    assert(idents.deep_view() =~= identifiers_among(stream, 0));
    while i < input.len()
        invariant
            i <= input.len(),
            stream == input.deep_view(),
            separated_so_far(stream, i as int),
            idents.deep_view() == identifiers_among(stream, i as int),
        decreases input.len() - i,
    {
        let token = &input[i];
        let ghost before = idents.deep_view();
        assert(stream[i as int] == token@);
        let accepted = match token.kind {
            TokenKind::Ident => match parse_identifier(token.text.as_str()) {
                Some(ident) => {
                    idents.push(ident);
                    assert(idents.deep_view() =~= before.push(ident@));
                    true
                },
                None => false,
            },
            TokenKind::Punct => true,
            _ => false,
        };
        if !accepted {
            proof {
                assert(!separated_so_far(stream, i + 1));
                assert(first_stranger(stream, i as int));
                let chosen = choose|k: int| first_stranger(stream, k);
                // Before the chosen index every token is accepted, and so is every token
                // before `i`: neither index can be the smaller one.
                assert(chosen == i) by {
                    if chosen < i {
                        assert(separated_so_far(stream, chosen + 1));
                    } else if chosen > i {
                        assert(separated_so_far(stream, chosen));
                        assert(separated_so_far(stream, i + 1));
                    }
                }
                assert(!separated_so_far(stream, stream.len() as int));
            }
            return Err(ParseError::NotAnIdentifier { text: token.text.clone() });
        }
        i += 1;
    }
    Ok(idents)
}

/// The group of the last entry called `name`: where a name occurs twice, the later entry
/// stands.
pub open spec fn group_named(entries: Seq<(Seq<char>, Seq<char>)>, name: Seq<char>) -> Option<
    Seq<char>,
>
    decreases entries.len(),
{
    if entries.len() == 0 {
        None
    } else if entries.last().0 == name {
        Some(entries.last().1)
    } else {
        group_named(entries.drop_last(), name)
    }
}

/// Finds the group of the last entry called `name`.
pub fn find_group(entries: &Vec<(String, String)>, name: &str) -> (r: Option<String>)
    ensures
        r.deep_view() == group_named(entries.deep_view(), name@),
{
    let ghost all = entries.deep_view();
    let mut found: Option<String> = None;
    let mut i: usize = 0;
    while i < entries.len()
        invariant
            i <= entries.len(),
            all == entries.deep_view(),
            found.deep_view() == group_named(all.take(i as int), name@),
        decreases entries.len() - i,
    {
        proof {
            assert(all.take(i + 1).drop_last() =~= all.take(i as int));
            assert(all.take(i + 1).last() == (entries@[i as int].0@, entries@[i as int].1@));
        }
        if same_text(entries[i].0.as_str(), name) {
            found = Some(entries[i].1.clone());
        }
        i += 1;
    }
    assert(all.take(entries.len() as int) =~= all);
    found
}

/// What an annotation says: its text lexed, and the tokens parsed under the grammar.
pub open spec fn groups_of(text: Seq<char>) -> Result<Seq<(Seq<char>, Seq<char>)>, ParseErrorView> {
    match lexed(text) {
        None => Err(ParseErrorView::NotTokens),
        Some(tokens) => parsed_groups(tokens),
    }
}

/// Reads an annotation of the form `name(group), name(group), ...` into its names, in order,
/// each with the text of its group.
pub fn idents_and_groups_from(token_stream: &str) -> (r: Result<Vec<(String, String)>, ParseError>)
    ensures
        match r {
            Ok(pairs) => groups_of(token_stream@) == Ok::<_, ParseErrorView>(pairs.deep_view()),
            Err(error) => groups_of(token_stream@) == Err::<Seq<(Seq<char>, Seq<char>)>, _>(
                error@,
            ),
        },
{
    match lex(token_stream) {
        None => Err(ParseError::NotTokens),
        Some(tokens) => parse_token_groups(&tokens),
    }
}

} // verus!
