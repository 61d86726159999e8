//! What the generated constructors do when they run, told over the resolved fields: which
//! value each field of the built record gets, and which failure a fallible constructor
//! returns.

use vstd::prelude::*;
use crate::decl::{declared_names, FieldDecl};
use crate::fallible::TryFromInfoView;
use crate::fields::{marked_fields, FieldsInfoView};
use crate::laws::lemma_marked_fields_partition;

verus! {

/// Where a field of the built record has its value from.
pub enum Filled<V> {
    /// From an argument of the constructor.
    Argument(V),
    /// From the initializer written behind the field's name.
    Initializer(Seq<char>),
}

/// What the names stand for once each has been given the value at its position: a later
/// name takes the place of an equal earlier one.
pub open spec fn bound<V>(names: Seq<Seq<char>>, values: Seq<V>) -> Map<Seq<char>, V>
    decreases names.len(),
{
    if names.len() == 0 {
        Map::empty()
    } else {
        bound(names.drop_last(), values.drop_last()).insert(names.last(), values.last())
    }
}

/// The record that the body of a generated constructor builds from its arguments. The
/// arguments are bound to the names of the active fields by position; between the braces
/// each active field is given what its own name is bound to, and each passive field its
/// initializer.
pub open spec fn built_record<V>(info: FieldsInfoView, arguments: Seq<V>) -> Map<
    Seq<char>,
    Filled<V>,
> {
    let variables = bound(info.fields_names, arguments);
    bound(
        info.fields_names + info.no_from_fields,
        info.fields_names.map_values(|name: Seq<char>| Filled::Argument(variables[name]))
            + info.no_from_fields_initializers.map_values(
            |expression: Seq<char>| Filled::<V>::Initializer(expression),
        ),
    )
}

/// The position of the first conversion that fails, looking from `from` on.
pub open spec fn first_failure_from<V, E>(outcomes: Seq<Result<V, E>>, from: int) -> Option<int>
    decreases outcomes.len() - from,
{
    if from < 0 || from >= outcomes.len() {
        None
    } else if outcomes[from] is Err {
        Some(from)
    } else {
        first_failure_from(outcomes, from + 1)
    }
}

/// How a fallible constructor ends.
pub enum Attempt<V, E> {
    /// Every conversion succeeded, and the record was built.
    Built(Map<Seq<char>, Filled<V>>),
    /// A conversion failed: the constructor returned the failure in the variant of the
    /// field.
    Failed { variant: Seq<char>, error: E },
}

/// What a generated fallible constructor does, given for each active field what its
/// conversion yields when it is run. The conversions are run in the order of the active
/// fields. The first that fails ends the constructor with the variant of its field around
/// the failure; where none fails, the record is built from the converted values.
pub open spec fn attempted<V, E>(
    info: FieldsInfoView,
    shape: TryFromInfoView,
    outcomes: Seq<Result<V, E>>,
) -> Attempt<V, E> {
    match first_failure_from(outcomes, 0) {
        Some(i) => Attempt::Failed { variant: shape.error_types[i], error: outcomes[i]->Err_0 },
        None => Attempt::Built(
            built_record(info, outcomes.map_values(|outcome: Result<V, E>| outcome->Ok_0)),
        ),
    }
}

/// How many of the conversions a generated fallible constructor runs: those up to the first
/// that fails, and all where none fails.
pub open spec fn conversions_run<V, E>(outcomes: Seq<Result<V, E>>) -> nat {
    match first_failure_from(outcomes, 0) {
        Some(i) => (i + 1) as nat,
        None => outcomes.len(),
    }
}

/// Names that differ stand for the values at their own positions.
proof fn lemma_bound<V>(names: Seq<Seq<char>>, values: Seq<V>)
    requires
        names.no_duplicates(),
        names.len() == values.len(),
    ensures
        forall|i: int|
            0 <= i < names.len() ==> bound(names, values).contains_key(#[trigger] names[i])
                && bound(names, values)[names[i]] == values[i],
        forall|name: Seq<char>|
            bound(names, values).contains_key(name) ==> names.contains(name),
    decreases names.len(),
{
    if names.len() > 0 {
        lemma_bound(names.drop_last(), values.drop_last());
        assert forall|i: int| 0 <= i < names.len() implies bound(names, values).contains_key(
            #[trigger] names[i],
        ) && bound(names, values)[names[i]] == values[i] by {
            if i < names.len() - 1 {
                assert(names.drop_last()[i] == names[i]);
                assert(values.drop_last()[i] == values[i]);
                assert(names[i] != names.last());
            }
        }
        assert forall|name: Seq<char>| bound(names, values).contains_key(name) implies names.contains(
            name,
        ) by {
            if name == names.last() {
                assert(names[names.len() - 1] == name);
            } else {
                assert(names.drop_last().contains(name));
                let k = choose|k: int| 0 <= k < names.drop_last().len() && names.drop_last()[k] == name;
                assert(names[k] == name);
            }
        }
    }
}

/// A constructor that cannot fail gives each active field the argument at the field's
/// position and each passive field its initializer, and the built record has the declared
/// fields and no others.
pub proof fn lemma_direct_round_trip<V>(
    info: FieldsInfoView,
    declared: Seq<Seq<char>>,
    arguments: Seq<V>,
)
    requires
        info.wf(),
        info.partitions(declared),
        arguments.len() == info.fields_names.len(),
    ensures
        forall|i: int|
            0 <= i < info.fields_names.len() ==> built_record(info, arguments)[#[trigger] info.fields_names[i]]
                == Filled::Argument(arguments[i]),
        forall|j: int|
            0 <= j < info.no_from_fields.len() ==> built_record(info, arguments)[#[trigger] info.no_from_fields[j]]
                == Filled::<V>::Initializer(info.no_from_fields_initializers[j]),
        forall|name: Seq<char>|
            built_record(info, arguments).contains_key(name) <==> declared.contains(name),
{
    let active = info.fields_names;
    let passive = info.no_from_fields;
    let all = active + passive;
    let variables = bound(active, arguments);
    let values = active.map_values(|name: Seq<char>| Filled::Argument(variables[name]))
        + info.no_from_fields_initializers.map_values(
        |expression: Seq<char>| Filled::<V>::Initializer(expression),
    );
    assert(active.no_duplicates()) by {
        assert forall|i: int, k: int| 0 <= i < active.len() && 0 <= k < active.len() && i
            != k implies active[i] != active[k] by {
            assert(all[i] == active[i] && all[k] == active[k]);
        }
    }
    lemma_bound(active, arguments);
    lemma_bound(all, values);
    assert forall|i: int| 0 <= i < active.len() implies built_record(info, arguments)[#[trigger] active[i]]
        == Filled::Argument(arguments[i]) by {
        assert(all[i] == active[i]);
        assert(values[i] == Filled::Argument(variables[active[i]]));
    }
    assert forall|j: int| 0 <= j < passive.len() implies built_record(info, arguments)[#[trigger] passive[j]]
        == Filled::<V>::Initializer(info.no_from_fields_initializers[j]) by {
        assert(all[active.len() + j] == passive[j]);
        assert(values[active.len() + j] == Filled::<V>::Initializer(
            info.no_from_fields_initializers[j],
        ));
    }
    assert forall|name: Seq<char>| built_record(info, arguments).contains_key(name)
        <==> declared.contains(name) by {
        vstd::seq_lib::lemma_seq_concat_contains_all_elements(active, passive, name);
        if all.contains(name) {
            let k = choose|k: int| 0 <= k < all.len() && all[k] == name;
            assert(bound(all, values).contains_key(all[k]));
        }
    }
}

/// For a record whose field names differ, resolved by its markers: the conversion gives each
/// field without the skip marker the argument at its position among such fields, and each
/// field with the marker its initializer.
pub proof fn lemma_marked_round_trip<V>(fields: Seq<FieldDecl>, arguments: Seq<V>)
    requires
        declared_names(fields).no_duplicates(),
        arguments.len() == marked_fields(fields).fields_names.len(),
    ensures
        forall|i: int|
            0 <= i < marked_fields(fields).fields_names.len() ==> built_record(
                marked_fields(fields),
                arguments,
            )[#[trigger] marked_fields(fields).fields_names[i]] == Filled::Argument(arguments[i]),
        forall|j: int|
            0 <= j < marked_fields(fields).no_from_fields.len() ==> built_record(
                marked_fields(fields),
                arguments,
            )[#[trigger] marked_fields(fields).no_from_fields[j]] == Filled::<V>::Initializer(
                marked_fields(fields).no_from_fields_initializers[j],
            ),
        forall|name: Seq<char>|
            built_record(marked_fields(fields), arguments).contains_key(name) <==> declared_names(
                fields,
            ).contains(name),
{
    lemma_marked_fields_partition(fields);
    lemma_direct_round_trip(marked_fields(fields), declared_names(fields), arguments);
}

/// Where no conversion before position `i` fails and the one at `i` does, `i` is the first
/// failure, whatever the later conversions would yield.
proof fn lemma_first_failure<V, E>(outcomes: Seq<Result<V, E>>, from: int, i: int)
    requires
        0 <= from <= i < outcomes.len(),
        outcomes[i] is Err,
        forall|j: int| from <= j < i ==> outcomes[j] is Ok,
    ensures
        first_failure_from(outcomes, from) == Some(i),
    decreases i - from,
{
    if from < i {
        lemma_first_failure(outcomes, from + 1, i);
    }
}

/// A fallible constructor returns the failure of the first active field whose conversion
/// fails, in that field's variant, and runs no conversion after it: what the later
/// conversions would yield, failures included, has no part in the outcome.
pub proof fn lemma_fallible_short_circuit<V, E>(
    info: FieldsInfoView,
    shape: TryFromInfoView,
    outcomes: Seq<Result<V, E>>,
    i: int,
)
    requires
        shape.fits(info),
        outcomes.len() == info.fields_names.len(),
        0 <= i < outcomes.len(),
        outcomes[i] is Err,
        forall|j: int| 0 <= j < i ==> outcomes[j] is Ok,
    ensures
        attempted(info, shape, outcomes) == (Attempt::<V, E>::Failed {
            variant: shape.error_types[i],
            error: outcomes[i]->Err_0,
        }),
        conversions_run(outcomes) == i + 1,
{
    lemma_first_failure(outcomes, 0, i);
}

/// Where every conversion succeeds, a fallible constructor builds the record that the
/// infallible one builds from the converted values.
pub proof fn lemma_fallible_success<V, E>(
    info: FieldsInfoView,
    shape: TryFromInfoView,
    outcomes: Seq<Result<V, E>>,
)
    requires
        forall|j: int| 0 <= j < outcomes.len() ==> outcomes[j] is Ok,
    ensures
        attempted(info, shape, outcomes) == Attempt::<V, E>::Built(
            built_record(info, outcomes.map_values(|outcome: Result<V, E>| outcome->Ok_0)),
        ),
        conversions_run(outcomes) == outcomes.len(),
{
    lemma_no_failure(outcomes, 0);
}

/// Where no conversion from `from` on fails, there is no first failure from there on.
proof fn lemma_no_failure<V, E>(outcomes: Seq<Result<V, E>>, from: int)
    requires
        0 <= from,
        forall|j: int| from <= j < outcomes.len() ==> outcomes[j] is Ok,
    ensures
        first_failure_from(outcomes, from) is None,
    decreases outcomes.len() - from,
{
    if from < outcomes.len() {
        lemma_no_failure(outcomes, from + 1);
    }
}

} // verus!
