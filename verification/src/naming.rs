//! Identifiers: telling whether a text is one, and making new ones from the names of fields
//! and types.

use vstd::prelude::*;
use vstd::string::*;
use crate::groups::{ParseError, ParseErrorView};
use crate::text::{trim, trimmed};

verus! {

/// The text in Pascal case, as `convert_case` writes it: cut into words at `_`, `-`, spaces
/// and changes between lower case, upper case and digits; each word capitalised; the words
/// put together with nothing between them.
pub uninterp spec fn pascal_cased(text: Seq<char>) -> Seq<char>;

/// Calls `convert_case::Casing::to_case` with `Case::Pascal`, which never fails and reads
/// nothing but the text. The contract names its result and says nothing else of it.
#[verifier::external_body]
pub(crate) fn pascal_case(text: &str) -> (r: String)
    ensures
        r@ == pascal_cased(text@),
{
    convert_case::Casing::to_case(&text, convert_case::Case::Pascal)
}

/// The identifier that `syn` reads from `text`: `Some` where the whole text is one
/// identifier that is no keyword, and then that identifier as it prints.
pub uninterp spec fn identifier_of(text: Seq<char>) -> Option<Seq<char>>;

/// Calls `syn::parse_str::<syn::Ident>`, which lexes the text, asks for exactly one token
/// that is an identifier and no keyword, and otherwise returns an error, which becomes
/// `None` here. The identifier is handed out as it prints. The contract names that outcome
/// and says nothing else of it.
#[verifier::external_body]
pub(crate) fn parse_identifier(text: &str) -> (r: Option<String>)
    ensures
        r.deep_view() == identifier_of(text@),
{
    match syn::parse_str::<syn::Ident>(text) {
        Ok(identifier) => Some(identifier.to_string()),
        Err(_) => None,
    }
}

/// The identifier in a text that is to hold one and nothing else.
pub open spec fn required_identifier(text: Seq<char>) -> Result<Seq<char>, ParseErrorView> {
    match identifier_of(text) {
        Some(identifier) => Ok(identifier),
        None => Err(ParseErrorView::NotAnIdentifier { text }),
    }
}

/// Reads the identifier in a text that is to hold one and nothing else.
pub fn require_identifier(text: &str) -> (r: Result<String, ParseError>)
    ensures
        match r {
            Ok(identifier) => required_identifier(text@) == Ok::<_, ParseErrorView>(identifier@),
            Err(error) => required_identifier(text@) == Err::<Seq<char>, _>(error@),
        },
{
    match parse_identifier(text) {
        Some(identifier) => Ok(identifier),
        None => Err(ParseError::NotAnIdentifier { text: String::from_str(text) }),
    }
}

/// The identifiers in a list of texts: all of them, in order, where each text holds one;
/// else the refusal of the first text that holds none.
pub open spec fn all_identifiers(items: Seq<Seq<char>>) -> Result<Seq<Seq<char>>, ParseErrorView>
    decreases items.len(),
{
    if items.len() == 0 {
        Ok(Seq::empty())
    } else {
        match all_identifiers(items.drop_last()) {
            Err(error) => Err(error),
            Ok(before) => match required_identifier(items.last()) {
                Ok(identifier) => Ok(before.push(identifier)),
                Err(error) => Err(error),
            },
        }
    }
}

/// Once a text of the list holds no identifier, no longer list does better: the refusal of a
/// part of the list is the refusal of the whole.
proof fn lemma_refusal_stays(items: Seq<Seq<char>>, n: int)
    requires
        0 <= n <= items.len(),
        all_identifiers(items.take(n)) is Err,
    ensures
        all_identifiers(items) == all_identifiers(items.take(n)),
    decreases items.len() - n,
{
    if n == items.len() {
        assert(items.take(n) =~= items);
    } else {
        assert(items.take(n + 1).drop_last() =~= items.take(n));
        lemma_refusal_stays(items, n + 1);
    }
}

/// Reads the identifiers in a list of texts.
pub fn require_all_identifiers(items: &Vec<String>) -> (r: Result<Vec<String>, ParseError>)
    ensures
        match r {
            Ok(identifiers) => all_identifiers(items.deep_view()) == Ok::<_, ParseErrorView>(
                identifiers.deep_view(),
            ),
            Err(error) => all_identifiers(items.deep_view()) == Err::<Seq<Seq<char>>, _>(error@),
        },
{
    let ghost all = items.deep_view();
    let mut out: Vec<String> = Vec::new();
    let mut i: usize = 0;
    assert(all_identifiers(all.take(0)) == Ok::<_, ParseErrorView>(out.deep_view())) by {
        assert(out.deep_view() =~= Seq::<Seq<char>>::empty());
    }
    while i < items.len()
        invariant
            i <= items.len(),
            all == items.deep_view(),
            all_identifiers(all.take(i as int)) == Ok::<_, ParseErrorView>(out.deep_view()),
        decreases items.len() - i,
    {
        let ghost before = out.deep_view();
        proof {
            assert(all.take(i + 1).drop_last() =~= all.take(i as int));
            assert(all.take(i + 1).last() == items@[i as int]@);
        }
        match require_identifier(items[i].as_str()) {
            Ok(identifier) => {
                out.push(identifier);
                assert(out.deep_view() =~= before.push(identifier@));
            },
            Err(error) => {
                proof {
                    lemma_refusal_stays(all, i + 1);
                }
                return Err(error);
            },
        }
        i += 1;
    }
    assert(all.take(items.len() as int) =~= all);
    Ok(out)
}

/// The identifiers in a list of texts, each trimmed of white space first.
pub open spec fn identifiers_of(items: Seq<Seq<char>>) -> Result<Seq<Seq<char>>, ParseErrorView> {
    all_identifiers(items.map_values(|item: Seq<char>| trimmed(item)))
}

/// Reads the identifiers in a list of texts, each trimmed of white space first.
pub fn require_identifiers(items: &Vec<String>) -> (r: Result<Vec<String>, ParseError>)
    ensures
        match r {
            Ok(identifiers) => identifiers_of(items.deep_view()) == Ok::<_, ParseErrorView>(
                identifiers.deep_view(),
            ),
            Err(error) => identifiers_of(items.deep_view()) == Err::<Seq<Seq<char>>, _>(error@),
        },
{
    let mut bare: Vec<String> = Vec::new();
    let mut i: usize = 0;
    while i < items.len()
        invariant
            i <= items.len(),
            bare@.len() == i,
            forall|j: int| 0 <= j < i ==> bare@[j]@ == trimmed(items@[j]@),
        decreases items.len() - i,
    {
        bare.push(trim(items[i].as_str()));
        i += 1;
    }
    assert(bare.deep_view() =~= items.deep_view().map_values(|item: Seq<char>| trimmed(item)));
    require_all_identifiers(&bare)
}

/// Each name in Pascal case with `suffix` behind it.
pub open spec fn suffixed(names: Seq<Seq<char>>, suffix: Seq<char>) -> Seq<Seq<char>> {
    names.map_values(|name: Seq<char>| pascal_cased(name) + suffix)
}

/// Writes each name in Pascal case with `suffix` behind it.
pub(crate) fn suffix_all(names: &Vec<String>, suffix: &str) -> (r: Vec<String>)
    ensures
        r.deep_view() == suffixed(names.deep_view(), suffix@),
{
    let mut out: Vec<String> = Vec::new();
    let mut i: usize = 0;
    while i < names.len()
        invariant
            i <= names.len(),
            out@.len() == i,
            forall|j: int| 0 <= j < i ==> out@[j]@ == pascal_cased(names@[j]@) + suffix@,
        decreases names.len() - i,
    {
        let mut item = pascal_case(names[i].as_str());
        item.append(suffix);
        out.push(item);
        i += 1;
    }
    assert(out.deep_view() =~= suffixed(names.deep_view(), suffix@));
    out
}

} // verus!
