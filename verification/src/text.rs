//! Text as the generator handles it: sequences of characters that are compared, split, trimmed
//! and put together again.

use vstd::prelude::*;
use vstd::string::*;

verus! {

/// Whether `c` is white space to `char::is_whitespace`.
pub uninterp spec fn white_space(c: char) -> bool;

/// Calls `char::is_whitespace`, which decides by Unicode's `White_Space` property; the
/// contract does no more than name that answer.
#[verifier::external_body]
pub(crate) fn is_whitespace(c: char) -> (r: bool)
    ensures
        r == white_space(c),
{
    c.is_whitespace()
}

/// The lowercase form that `str::to_lowercase` gives to `text`.
pub uninterp spec fn lowercased(text: Seq<char>) -> Seq<char>;

/// Calls `str::to_lowercase`, which maps each character by Unicode's `Lowercase` property; the
/// contract does no more than name the outcome.
#[verifier::external_body]
pub(crate) fn lowercase(text: &str) -> (r: String)
    ensures
        r@ == lowercased(text@),
{
    text.to_lowercase()
}

/// Whether two texts hold the same characters.
pub fn same_text(a: &str, b: &str) -> (r: bool)
    ensures
        r == (a@ == b@),
{
    let left = String::from_str(a);
    let right = String::from_str(b);
    left == right
}

/// The items one after the other, with `separator` between each two neighbours.
pub open spec fn joined(items: Seq<Seq<char>>, separator: Seq<char>) -> Seq<char>
    decreases items.len(),
{
    if items.len() == 0 {
        Seq::empty()
    } else if items.len() == 1 {
        items[0]
    } else {
        joined(items.drop_last(), separator) + separator + items.last()
    }
}

/// The items one after the other, with nothing between them.
pub open spec fn concatenated(items: Seq<Seq<char>>) -> Seq<char>
    decreases items.len(),
{
    if items.len() == 0 {
        Seq::empty()
    } else {
        concatenated(items.drop_last()) + items.last()
    }
}

/// The item at each position, set between three fixed texts:
/// `before + first[i] + between + second[i] + after`.
pub open spec fn interleaved(
    before: Seq<char>,
    first: Seq<Seq<char>>,
    between: Seq<char>,
    second: Seq<Seq<char>>,
    after: Seq<char>,
) -> Seq<Seq<char>> {
    Seq::new(first.len(), |i: int| before + first[i] + between + second[i] + after)
}

/// Each item set between two fixed texts: `before + items[i] + after`.
pub open spec fn decorated(before: Seq<char>, items: Seq<Seq<char>>, after: Seq<char>) -> Seq<
    Seq<char>,
> {
    Seq::new(items.len(), |i: int| before + items[i] + after)
}

/// Sets each item between two fixed texts.
pub fn decorate(before: &str, items: &Vec<String>, after: &str) -> (r: Vec<String>)
    ensures
        r.deep_view() == decorated(before@, items.deep_view(), after@),
        r@.len() == items@.len(),
{
    let mut out: Vec<String> = Vec::new();
    let mut i: usize = 0;
    while i < items.len()
        invariant
            i <= items.len(),
            out@.len() == i,
            forall|j: int| 0 <= j < i ==> out@[j]@ == before@ + items@[j]@ + after@,
        decreases items.len() - i,
    {
        let mut item = String::from_str(before);
        item.append(items[i].as_str());
        item.append(after);
        out.push(item);
        i += 1;
    }
    assert(out.deep_view() =~= decorated(before@, items.deep_view(), after@));
    out
}

/// Puts the items one after the other, with `separator` between each two neighbours.
pub fn join(items: &Vec<String>, separator: &str) -> (r: String)
    ensures
        r@ == joined(items.deep_view(), separator@),
{
    let mut out = String::new();
    let mut i: usize = 0;
    while i < items.len()
        invariant
            i <= items.len(),
            out@ == joined(items.deep_view().take(i as int), separator@),
        decreases items.len() - i,
    {
        if i > 0 {
            out.append(separator);
        }
        out.append(items[i].as_str());
        proof {
            let all = items.deep_view();
            assert(all.take(i + 1).drop_last() =~= all.take(i as int));
            assert(all.take(i + 1).last() == items@[i as int]@);
        }
        i += 1;
    }
    assert(items.deep_view().take(items.len() as int) =~= items.deep_view());
    out
}

/// Puts the items one after the other, with nothing between them.
pub fn concatenate(items: &Vec<String>) -> (r: String)
    ensures
        r@ == concatenated(items.deep_view()),
{
    let mut out = String::new();
    let mut i: usize = 0;
    while i < items.len()
        invariant
            i <= items.len(),
            out@ == concatenated(items.deep_view().take(i as int)),
        decreases items.len() - i,
    {
        out.append(items[i].as_str());
        proof {
            let all = items.deep_view();
            assert(all.take(i + 1).drop_last() =~= all.take(i as int));
            assert(all.take(i + 1).last() == items@[i as int]@);
        }
        i += 1;
    }
    assert(items.deep_view().take(items.len() as int) =~= items.deep_view());
    out
}

/// Sets the items of two lists of one length, position by position, between three fixed
/// texts.
pub fn interleave(
    before: &str,
    first: &Vec<String>,
    between: &str,
    second: &Vec<String>,
    after: &str,
) -> (r: Vec<String>)
    requires
        first.len() == second.len(),
    ensures
        r.deep_view() == interleaved(
            before@,
            first.deep_view(),
            between@,
            second.deep_view(),
            after@,
        ),
        r@.len() == first@.len(),
{
    let mut out: Vec<String> = Vec::new();
    let mut i: usize = 0;
    while i < first.len()
        invariant
            i <= first.len(),
            first.len() == second.len(),
            out@.len() == i,
            forall|j: int|
                0 <= j < i ==> out@[j]@ == before@ + first@[j]@ + between@ + second@[j]@ + after@,
        decreases first.len() - i,
    {
        let mut item = String::from_str(before);
        item.append(first[i].as_str());
        item.append(between);
        item.append(second[i].as_str());
        item.append(after);
        out.push(item);
        i += 1;
    }
    assert(out.deep_view() =~= interleaved(
        before@,
        first.deep_view(),
        between@,
        second.deep_view(),
        after@,
    ));
    out
}

/// The pieces into which the occurrences of `separator` cut `text`: one more piece than there
/// are occurrences, each free of the separator, empty pieces included.
pub open spec fn pieces(text: Seq<char>, separator: char) -> Seq<Seq<char>>
    decreases text.len(),
{
    if text.len() == 0 {
        seq![Seq::empty()]
    } else {
        let before = pieces(text.drop_last(), separator);
        if text.last() == separator {
            before.push(Seq::empty())
        } else {
            before.drop_last().push(before.last().push(text.last()))
        }
    }
}

/// The pieces of a text hold no separator, and put together again with the separator between
/// them they are the text.
pub proof fn lemma_pieces(text: Seq<char>, separator: char)
    ensures
        pieces(text, separator).len() >= 1,
        forall|i: int|
            0 <= i < pieces(text, separator).len() ==> !(#[trigger] pieces(
                text,
                separator,
            )[i]).contains(separator),
        joined(pieces(text, separator), seq![separator]) == text,
    decreases text.len(),
{
    if text.len() == 0 {
        assert(joined(pieces(text, separator), seq![separator]) =~= text);
    } else {
        let shorter = text.drop_last();
        let before = pieces(shorter, separator);
        lemma_pieces(shorter, separator);
        let all = pieces(text, separator);
        if text.last() == separator {
            assert(all.drop_last() =~= before);
            assert(joined(all, seq![separator]) =~= text);
        } else {
            let grown = before.last().push(text.last());
            assert(all.last() == grown);
            assert forall|k: int| 0 <= k < grown.len() implies grown[k] != separator by {
                if k < before.last().len() {
                    assert(before.last()[k] == grown[k]);
                    assert(before.last().contains(grown[k]));
                }
            }
            if before.len() == 1 {
                assert(joined(before, seq![separator]) == before[0]);
                assert(joined(all, seq![separator]) =~= text);
            } else {
                assert(all.drop_last() =~= before.drop_last());
                assert(joined(all, seq![separator]) =~= joined(before, seq![separator]).push(
                    text.last(),
                ));
                assert(joined(all, seq![separator]) =~= text);
            }
        }
    }
}

/// Cuts a text at each occurrence of `separator`.
pub fn split(text: &str, separator: char) -> (r: Vec<String>)
    ensures
        r.deep_view() == pieces(text@, separator),
{
    let n = text.unicode_len();
    let mut out: Vec<String> = Vec::new();
    let mut start: usize = 0;
    let mut i: usize = 0;
    proof {
        assert(text@.take(0) =~= Seq::<char>::empty());
        assert(pieces(text@.take(0), separator) =~= out.deep_view().push(text@.subrange(0, 0)));
    }
    while i < n
        invariant
            start <= i <= n,
            n == text@.len(),
            pieces(text@.take(i as int), separator) == out.deep_view().push(
                text@.subrange(start as int, i as int),
            ),
        decreases n - i,
    {
        let c = text.get_char(i);
        let ghost collected = out.deep_view();
        proof {
            assert(text@.take(i + 1).drop_last() =~= text@.take(i as int));
            assert(text@.take(i + 1).last() == c);
            assert(collected.push(text@.subrange(start as int, i as int)).drop_last()
                =~= collected);
        }
        if c == separator {
            let ghost piece = text@.subrange(start as int, i as int);
            out.push(String::from_str(text.substring_char(start, i)));
            start = i + 1;
            proof {
                assert(out.deep_view() =~= collected.push(piece));
                assert(text@.subrange(start as int, i + 1) =~= Seq::<char>::empty());
            }
        } else {
            proof {
                assert(text@.subrange(start as int, i as int).push(c) =~= text@.subrange(
                    start as int,
                    i + 1,
                ));
            }
        }
        i += 1;
    }
    let ghost collected = out.deep_view();
    out.push(String::from_str(text.substring_char(start, n)));
    proof {
        assert(text@.take(n as int) =~= text@);
        assert(out.deep_view() =~= collected.push(text@.subrange(start as int, n as int)));
    }
    out
}

/// How many characters at the start of `text` are white space.
pub open spec fn leading_space(text: Seq<char>) -> nat
    decreases text.len(),
{
    if text.len() > 0 && white_space(text[0]) {
        1 + leading_space(text.drop_first())
    } else {
        0
    }
}

/// How many characters at the end of `text` are white space.
pub open spec fn trailing_space(text: Seq<char>) -> nat
    decreases text.len(),
{
    if text.len() > 0 && white_space(text.last()) {
        1 + trailing_space(text.drop_last())
    } else {
        0
    }
}

/// The text without the white space at its start and at its end.
pub open spec fn trimmed(text: Seq<char>) -> Seq<char> {
    let rest = text.skip(leading_space(text) as int);
    rest.take(rest.len() - trailing_space(rest))
}

/// Takes the white space off the start and the end of a text.
pub fn trim(text: &str) -> (r: String)
    ensures
        r@ == trimmed(text@),
{
    let n = text.unicode_len();
    let mut from: usize = 0;
    assert(text@.skip(0) =~= text@);
    while from < n && is_whitespace(text.get_char(from))
        invariant
            from <= n,
            n == text@.len(),
            leading_space(text@) == from + leading_space(text@.skip(from as int)),
        decreases n - from,
    {
        proof {
            assert(text@.skip(from as int).drop_first() =~= text@.skip(from + 1));
        }
        from += 1;
    }
    let ghost rest = text@.skip(from as int);
    assert(leading_space(text@) == from);
    let mut to: usize = n;
    assert(rest.take(n - from) =~= rest);
    while to > from && is_whitespace(text.get_char(to - 1))
        invariant
            from <= to <= n,
            n == text@.len(),
            rest == text@.skip(from as int),
            trailing_space(rest) == (n - to) + trailing_space(rest.take(to - from)),
        decreases to,
    {
        proof {
            assert(rest.take(to - from).drop_last() =~= rest.take(to - from - 1));
        }
        to -= 1;
    }
    proof {
        assert(rest.take(n - from) =~= rest);
        assert(trailing_space(rest) == n - to);
        assert(rest.take(to - from) =~= text@.subrange(from as int, to as int));
    }
    String::from_str(text.substring_char(from, to))
}

/// Whether one of the items is `text`.
pub fn contains_text(items: &Vec<String>, text: &str) -> (r: bool)
    ensures
        r == items.deep_view().contains(text@),
{
    let mut i: usize = 0;
    while i < items.len()
        invariant
            i <= items.len(),
            forall|j: int| 0 <= j < i ==> items@[j]@ != text@,
        decreases items.len() - i,
    {
        if same_text(items[i].as_str(), text) {
            assert(items.deep_view()[i as int] == text@);
            return true;
        }
        i += 1;
    }
    false
}

/// The items of `first`, then those of `second`.
pub fn followed_by(first: &Vec<String>, second: &Vec<String>) -> (r: Vec<String>)
    ensures
        r.deep_view() == first.deep_view() + second.deep_view(),
{
    let mut out: Vec<String> = Vec::new();
    let mut i: usize = 0;
    while i < first.len()
        invariant
            i <= first.len(),
            out@.len() == i,
            forall|j: int| 0 <= j < i ==> out@[j]@ == first@[j]@,
        decreases first.len() - i,
    {
        out.push(first[i].clone());
        i += 1;
    }
    let mut k: usize = 0;
    while k < second.len()
        invariant
            k <= second.len(),
            out@.len() == first@.len() + k,
            forall|j: int| 0 <= j < first@.len() ==> out@[j]@ == first@[j]@,
            forall|j: int| 0 <= j < k ==> out@[first@.len() + j]@ == second@[j]@,
        decreases second.len() - k,
    {
        out.push(second[k].clone());
        k += 1;
    }
    assert(out.deep_view() =~= first.deep_view() + second.deep_view());
    out
}

/// The same text `count` times.
pub fn copies(text: &str, count: usize) -> (r: Vec<String>)
    ensures
        r.deep_view() == Seq::new(count as nat, |i: int| text@),
{
    let mut out: Vec<String> = Vec::new();
    let mut i: usize = 0;
    while i < count
        invariant
            i <= count,
            out@.len() == i,
            forall|j: int| 0 <= j < i ==> out@[j]@ == text@,
        decreases count - i,
    {
        out.push(String::from_str(text));
        i += 1;
    }
    assert(out.deep_view() =~= Seq::new(count as nat, |i: int| text@));
    out
}

/// The items in parentheses with commas between them, as a tuple type or a tuple pattern is
/// written. Around one item the parentheses only group: `(T)` is `T`.
pub open spec fn tuple_text(items: Seq<Seq<char>>) -> Seq<char> {
    "("@ + joined(items, ", "@) + ")"@
}

/// Writes the items in parentheses with commas between them.
pub fn tuple_of(items: &Vec<String>) -> (r: String)
    ensures
        r@ == tuple_text(items.deep_view()),
{
    let mut out = String::from_str("(");
    let inner = join(items, ", ");
    out.append(inner.as_str());
    out.append(")");
    out
}

/// The decimal digit for a number below ten.
pub open spec fn digit_text(d: nat) -> Seq<char> {
    if d == 0 {
        "0"@
    } else if d == 1 {
        "1"@
    } else if d == 2 {
        "2"@
    } else if d == 3 {
        "3"@
    } else if d == 4 {
        "4"@
    } else if d == 5 {
        "5"@
    } else if d == 6 {
        "6"@
    } else if d == 7 {
        "7"@
    } else if d == 8 {
        "8"@
    } else {
        "9"@
    }
}

/// A number in decimal, without leading zeros.
pub open spec fn decimal_text(n: nat) -> Seq<char>
    decreases n,
{
    if n < 10 {
        digit_text(n)
    } else {
        decimal_text(n / 10) + digit_text(n % 10)
    }
}

/// The decimal digit for a number below ten.
fn digit(d: usize) -> (r: &'static str)
    requires
        d < 10,
    ensures
        r@ == digit_text(d as nat),
{
    if d == 0 {
        "0"
    } else if d == 1 {
        "1"
    } else if d == 2 {
        "2"
    } else if d == 3 {
        "3"
    } else if d == 4 {
        "4"
    } else if d == 5 {
        "5"
    } else if d == 6 {
        "6"
    } else if d == 7 {
        "7"
    } else if d == 8 {
        "8"
    } else {
        "9"
    }
}

/// Writes a number in decimal.
pub fn decimal(n: usize) -> (r: String)
    ensures
        r@ == decimal_text(n as nat),
    decreases n,
{
    if n < 10 {
        String::from_str(digit(n))
    } else {
        let mut out = decimal(n / 10);
        out.append(digit(n % 10));
        out
    }
}

} // verus!
