//! What holds of every outcome: of the grammar of annotations, of every resolution of a
//! record's fields, and of the conversions of a tagged union.

use vstd::prelude::*;
use vstd::multiset::*;
use vstd::seq_lib::*;
use crate::decl::{declared_names, FieldDecl, VariantDecl};
use crate::fields::{
    active_names, configured_fields, default_expression, explicit_defaults, first_repeated_from,
    first_unknown, is_skipped, listed_fields, marked_fields, remaining_names, resolved_fields,
};
use crate::groups::{first_misplaced, parsed_groups, well_placed, ParseErrorView};
use crate::tokens::{TokenKind, TokenView};
use crate::variants::{conversion_of, eligible_conversions, is_eligible, VariantConversionView};

verus! {

/// The stream that writes a list of names with their groups: each name, its group in
/// parentheses, and a comma between one entry and the next.
pub open spec fn written_groups(entries: Seq<(Seq<char>, Seq<char>)>) -> Seq<TokenView> {
    Seq::new(
        if entries.len() == 0 {
            0
        } else {
            (3 * entries.len() - 1) as nat
        },
        |i: int|
            if i % 3 == 0 {
                TokenView { kind: TokenKind::Ident, text: entries[i / 3].0 }
            } else if i % 3 == 1 {
                TokenView { kind: TokenKind::Parenthesized, text: entries[i / 3].1 }
            } else {
                TokenView { kind: TokenKind::Punct, text: ","@ }
            },
    )
}

/// What is written by the grammar is read back as it was: the stream that writes a list of
/// names with their groups parses to that list, whatever the names and the groups hold.
pub proof fn lemma_groups_round_trip(entries: Seq<(Seq<char>, Seq<char>)>)
    ensures
        parsed_groups(written_groups(entries)) == Ok::<_, ParseErrorView>(entries),
{
    let tokens = written_groups(entries);
    assert forall|i: int| 0 <= i < tokens.len() implies well_placed(tokens, i) by {}
    assert(!exists|i: int| first_misplaced(tokens, i));
    assert(tokens.len() % 3 != 1);
    let read = Seq::new(
        (tokens.len() + 1) / 3,
        |k: int| (tokens[3 * k].text, tokens[3 * k + 1].text),
    );
    assert(read =~= entries) by {
        assert(read.len() == entries.len());
        assert forall|k: int| 0 <= k < entries.len() implies read[k] == entries[k] by {
            assert((3 * k) / 3 == k);
            assert((3 * k + 1) / 3 == k);
            assert((3 * k) % 3 == 0);
            assert((3 * k + 1) % 3 == 1);
        }
    }
}

/// Where no name of a list stands at an earlier index too, the list has no duplicates.
proof fn lemma_none_repeated(names: Seq<Seq<char>>, from: int)
    requires
        0 <= from <= names.len(),
        first_repeated_from(names, from) is None,
    ensures
        forall|i: int, k: int| 0 <= i < k < names.len() && from <= k ==> names[i] != names[k],
    decreases names.len() - from,
{
    if from < names.len() {
        lemma_none_repeated(names, from + 1);
        assert forall|i: int| 0 <= i < from implies names[i] != names[from] by {
            assert(names.take(from)[i] == names[i]);
        }
    }
}

/// Where none of the names is unknown, each of them is declared.
proof fn lemma_none_unknown(names: Seq<Seq<char>>, declared: Seq<Seq<char>>)
    requires
        first_unknown(names, declared) is None,
    ensures
        forall|i: int| 0 <= i < names.len() ==> declared.contains(#[trigger] names[i]),
    decreases names.len(),
{
    if names.len() > 0 {
        lemma_none_unknown(names.drop_first(), declared);
        assert forall|i: int| 0 <= i < names.len() implies declared.contains(
            #[trigger] names[i],
        ) by {
            if i > 0 {
                assert(names.drop_first()[i - 1] == names[i]);
            }
        }
    }
}

/// What a filter keeps of a list without duplicates has no duplicates either.
proof fn lemma_filter_keeps_distinct<A>(items: Seq<A>, keep: spec_fn(A) -> bool)
    requires
        items.no_duplicates(),
    ensures
        items.filter(keep).no_duplicates(),
    decreases items.len(),
{
    reveal(Seq::filter);
    if items.len() > 0 {
        let shorter = items.drop_last();
        lemma_filter_keeps_distinct(shorter, keep);
        if keep(items.last()) {
            let kept = shorter.filter(keep);
            assert forall|i: int| 0 <= i < kept.len() implies kept[i] != items.last() by {
                assert(kept.contains(kept[i]));
                shorter.lemma_filter_contains_rev(keep, kept[i]);
                let j = choose|j: int| 0 <= j < shorter.len() && shorter[j] == kept[i];
                assert(items[j] == kept[i]);
            }
        }
    }
}

/// By markers, the active and the passive names together are the declared names, each as
/// often as it is declared.
proof fn lemma_marked_fields_rearrange(fields: Seq<FieldDecl>)
    ensures
        (marked_fields(fields).fields_names + marked_fields(fields).no_from_fields).to_multiset()
            == declared_names(fields).to_multiset(),
        marked_fields(fields).wf(),
    decreases fields.len(),
{
    broadcast use group_multiset_axioms;

    reveal(Seq::filter);
    let info = marked_fields(fields);
    let is_active = |field: FieldDecl| !is_skipped(field);
    let is_passive = |field: FieldDecl| is_skipped(field);
    let name_of = |field: FieldDecl| field.name@;
    if fields.len() == 0 {
        assert(info.fields_names + info.no_from_fields =~= declared_names(fields));
    } else {
        let shorter = fields.drop_last();
        let last = fields.last();
        let before = marked_fields(shorter);
        lemma_marked_fields_rearrange(shorter);
        assert(fields =~= shorter.push(last));
        shorter.lemma_filter_push(last, is_active);
        shorter.lemma_filter_push(last, is_passive);
        shorter.filter(is_active).lemma_push_map_commute(name_of, last);
        shorter.filter(is_passive).lemma_push_map_commute(name_of, last);
        shorter.lemma_push_map_commute(name_of, last);
        assert(declared_names(fields) =~= declared_names(shorter).push(last.name@));
        lemma_multiset_commutative(info.fields_names, info.no_from_fields);
        lemma_multiset_commutative(before.fields_names, before.no_from_fields);
        declared_names(shorter).to_multiset_ensures();
        if is_skipped(last) {
            assert(info.fields_names =~= before.fields_names);
            assert(info.no_from_fields =~= before.no_from_fields.push(last.name@));
            before.no_from_fields.to_multiset_ensures();
        } else {
            assert(info.no_from_fields =~= before.no_from_fields);
            assert(info.fields_names =~= before.fields_names.push(last.name@));
            before.fields_names.to_multiset_ensures();
        }
        assert((info.fields_names + info.no_from_fields).to_multiset() =~= declared_names(
            fields,
        ).to_multiset());
    }
}

/// Two lists that hold the same names equally often, one of them without duplicates: then
/// the other has none, and a name is in one exactly if it is in the other.
proof fn lemma_rearrangement(names: Seq<Seq<char>>, declared: Seq<Seq<char>>)
    requires
        names.to_multiset() == declared.to_multiset(),
        declared.no_duplicates(),
    ensures
        names.no_duplicates(),
        forall|name: Seq<char>| declared.contains(name) <==> names.contains(name),
{
    declared.lemma_multiset_has_no_duplicates();
    names.lemma_multiset_has_no_duplicates_conv();
    assert forall|name: Seq<char>| declared.contains(name) <==> names.contains(name) by {
        to_multiset_contains(names, name);
        to_multiset_contains(declared, name);
    }
}

/// Resolved by markers, the fields of a record whose names differ part the declared ones:
/// no name is both active and passive, none occurs twice, and together they are the
/// declared names.
pub proof fn lemma_marked_fields_partition(fields: Seq<FieldDecl>)
    requires
        declared_names(fields).no_duplicates(),
    ensures
        marked_fields(fields).wf(),
        marked_fields(fields).partitions(declared_names(fields)),
{
    let info = marked_fields(fields);
    lemma_marked_fields_rearrange(fields);
    lemma_rearrangement(info.fields_names + info.no_from_fields, declared_names(fields));
    assert forall|name: Seq<char>|
        (info.fields_names + info.no_from_fields).contains(name) <==> (info.fields_names.contains(
            name,
        ) || info.no_from_fields.contains(name)) by {
        lemma_seq_concat_contains_all_elements(info.fields_names, info.no_from_fields, name);
    }
}

/// Resolved from listed fields and initializers, the fields of a record whose names differ
/// part the declared ones: no name is both active and passive, none occurs twice, and
/// together they are the declared names.
pub proof fn lemma_resolved_fields_partition(
    fields: Seq<FieldDecl>,
    defaults: Seq<(Seq<char>, Seq<char>)>,
    listed: Option<Seq<Seq<char>>>,
)
    requires
        declared_names(fields).no_duplicates(),
        resolved_fields(fields, defaults, listed) is Ok,
    ensures
        resolved_fields(fields, defaults, listed)->Ok_0.wf(),
        resolved_fields(fields, defaults, listed)->Ok_0.partitions(declared_names(fields)),
{
    let declared = declared_names(fields);
    let info = resolved_fields(fields, defaults, listed)->Ok_0;
    let default_names = defaults.map_values(|entry: (Seq<char>, Seq<char>)| entry.0);
    let active = active_names(declared, default_names, listed);
    let claimed = active + default_names;
    let unreached = remaining_names(declared, claimed);
    let unclaimed = |name: Seq<char>| !claimed.contains(name);
    assert(info.fields_names == active);
    assert(info.no_from_fields == default_names + unreached);
    lemma_none_repeated(claimed, 0);
    lemma_none_unknown(claimed, declared);
    lemma_filter_keeps_distinct(declared, unclaimed);
    assert forall|i: int, j: int|
        0 <= i < claimed.len() && 0 <= j < unreached.len() implies claimed[i] != unreached[j] by {
        declared.lemma_filter_pred(unclaimed, j);
    }
    lemma_no_dup_in_concat(claimed, unreached);
    assert(info.fields_names + info.no_from_fields =~= claimed + unreached);
    assert forall|name: Seq<char>|
        declared.contains(name) <==> (info.fields_names.contains(name)
            || info.no_from_fields.contains(name)) by {
        lemma_seq_concat_contains_all_elements(active, default_names, name);
        lemma_seq_concat_contains_all_elements(default_names, unreached, name);
        if declared.contains(name) {
            if !claimed.contains(name) {
                let i = choose|i: int| 0 <= i < declared.len() && declared[i] == name;
                declared.lemma_filter_contains(unclaimed, i);
            }
        }
        if unreached.contains(name) {
            declared.lemma_filter_contains_rev(unclaimed, name);
        }
        if claimed.contains(name) {
            let i = choose|i: int| 0 <= i < claimed.len() && claimed[i] == name;
            assert(declared.contains(claimed[i]));
        }
    }
}

/// Resolved by an annotation, the fields of a record whose names differ part the declared
/// ones.
pub proof fn lemma_configured_fields_partition(
    fields: Seq<FieldDecl>,
    entries: Seq<(Seq<char>, Seq<char>)>,
)
    requires
        declared_names(fields).no_duplicates(),
        configured_fields(fields, entries) is Ok,
    ensures
        configured_fields(fields, entries)->Ok_0.wf(),
        configured_fields(fields, entries)->Ok_0.partitions(declared_names(fields)),
{
    lemma_resolved_fields_partition(
        fields,
        explicit_defaults(entries)->Ok_0,
        listed_fields(entries)->Ok_0,
    );
}

/// Every declared field that is neither active nor given an initializer of its own is
/// passive, and its initializer is the default expression.
pub proof fn lemma_unclaimed_fields_default(
    fields: Seq<FieldDecl>,
    defaults: Seq<(Seq<char>, Seq<char>)>,
    listed: Option<Seq<Seq<char>>>,
    name: Seq<char>,
)
    requires
        resolved_fields(fields, defaults, listed) is Ok,
        declared_names(fields).contains(name),
        !resolved_fields(fields, defaults, listed)->Ok_0.fields_names.contains(name),
        !defaults.map_values(|entry: (Seq<char>, Seq<char>)| entry.0).contains(name),
    ensures
        resolved_fields(fields, defaults, listed)->Ok_0.no_from_fields.contains(name),
        forall|j: int|
            0 <= j < resolved_fields(fields, defaults, listed)->Ok_0.no_from_fields.len()
                && resolved_fields(fields, defaults, listed)->Ok_0.no_from_fields[j] == name
                ==> resolved_fields(fields, defaults, listed)->Ok_0.no_from_fields_initializers[j]
                == default_expression(),
{
    let declared = declared_names(fields);
    let info = resolved_fields(fields, defaults, listed)->Ok_0;
    let default_names = defaults.map_values(|entry: (Seq<char>, Seq<char>)| entry.0);
    let active = active_names(declared, default_names, listed);
    let claimed = active + default_names;
    let unreached = remaining_names(declared, claimed);
    let unclaimed = |name: Seq<char>| !claimed.contains(name);
    lemma_seq_concat_contains_all_elements(active, default_names, name);
    let i = choose|i: int| 0 <= i < declared.len() && declared[i] == name;
    declared.lemma_filter_contains(unclaimed, i);
    lemma_seq_concat_contains_all_elements(default_names, unreached, name);
    assert forall|j: int| 0 <= j < info.no_from_fields.len() && info.no_from_fields[j]
        == name implies info.no_from_fields_initializers[j] == default_expression() by {
        if j < default_names.len() {
            assert(default_names[j] == name);
        }
    }
}

/// Whether `conversion` is the conversion of a variant without the skip marker.
pub open spec fn of_eligible_variant(
    variants: Seq<VariantDecl>,
    conversion: VariantConversionView,
) -> bool {
    exists|i: int|
        0 <= i < variants.len() && is_eligible(#[trigger] variants[i]) && conversion
            == conversion_of(variants[i])
}

/// The conversions of a tagged union are those of its eligible variants and no others: each
/// variant without the skip marker has its conversion among them, and each of them is the
/// conversion of such a variant. A variant with the marker adds nothing.
pub proof fn lemma_conversions_are_of_eligible_variants(variants: Seq<VariantDecl>)
    ensures
        forall|i: int|
            0 <= i < variants.len() && is_eligible(#[trigger] variants[i]) ==> eligible_conversions(
                variants,
            ).contains(conversion_of(variants[i])),
        forall|k: int|
            0 <= k < eligible_conversions(variants).len() ==> of_eligible_variant(
                variants,
                #[trigger] eligible_conversions(variants)[k],
            ),
        eligible_conversions(variants).len() <= variants.len(),
{
    let wanted = |variant: VariantDecl| is_eligible(variant);
    let kept = variants.filter(wanted);
    let conversions = eligible_conversions(variants);
    variants.lemma_filter_len(wanted);
    assert forall|i: int| 0 <= i < variants.len() && is_eligible(
        #[trigger] variants[i],
    ) implies conversions.contains(conversion_of(variants[i])) by {
        variants.lemma_filter_contains(wanted, i);
        let k = choose|k: int| 0 <= k < kept.len() && kept[k] == variants[i];
        assert(conversions[k] == conversion_of(variants[i]));
    }
    assert forall|k: int| 0 <= k < conversions.len() implies of_eligible_variant(
        variants,
        #[trigger] conversions[k],
    ) by {
        variants.lemma_filter_pred(wanted, k);
        assert(kept.contains(kept[k]));
        variants.lemma_filter_contains_rev(wanted, kept[k]);
        let i = choose|i: int| 0 <= i < variants.len() && variants[i] == kept[k];
        assert(is_eligible(variants[i]) && conversions[k] == conversion_of(variants[i]));
    }
}

} // verus!
