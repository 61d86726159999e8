//! Which fields of a record a generated constructor takes as arguments, and how it fills the
//! others.

use vstd::prelude::*;
use vstd::string::*;
use crate::decl::{attribute_called, declared_names, find_attribute, Attribute, FieldDecl};
use crate::error::{GenerationError, GenerationErrorView};
use crate::groups::{find_group, group_named, groups_of, idents_and_groups_from, ParseErrorView};
use crate::naming::{identifiers_of, require_identifiers};
use crate::laws::{lemma_marked_fields_partition, lemma_resolved_fields_partition};
use crate::text::{contains_text, copies, followed_by, pieces, same_text, split};

verus! {

/// The fields of a record as one generated constructor treats them. The active fields are
/// its arguments, in this order, each with its declared type; the passive fields are filled
/// from an initializer each.
#[derive(Clone, Debug, PartialEq, Eq)]
pub struct FieldsInfo {
    /// The names of the active fields.
    pub fields_names: Vec<String>,
    /// The types of the active fields, in the order of their names.
    pub fields_types: Vec<String>,
    /// The names of the passive fields.
    pub no_from_fields: Vec<String>,
    /// The initializers of the passive fields, in the order of their names.
    pub no_from_fields_initializers: Vec<String>,
}

/// A [`FieldsInfo`] as contracts see it.
pub struct FieldsInfoView {
    pub fields_names: Seq<Seq<char>>,
    pub fields_types: Seq<Seq<char>>,
    pub no_from_fields: Seq<Seq<char>>,
    pub no_from_fields_initializers: Seq<Seq<char>>,
}

impl View for FieldsInfo {
    type V = FieldsInfoView;

    open spec fn view(&self) -> FieldsInfoView {
        FieldsInfoView {
            fields_names: self.fields_names.deep_view(),
            fields_types: self.fields_types.deep_view(),
            no_from_fields: self.no_from_fields.deep_view(),
            no_from_fields_initializers: self.no_from_fields_initializers.deep_view(),
        }
    }
}

impl FieldsInfoView {
    /// Each active field has its type and each passive field its initializer.
    pub open spec fn wf(self) -> bool {
        &&& self.fields_names.len() == self.fields_types.len()
        &&& self.no_from_fields.len() == self.no_from_fields_initializers.len()
    }

    /// The fields part the declared ones: no name is both active and passive, none occurs
    /// twice, and the active and passive names together are the declared names.
    pub open spec fn partitions(self, declared: Seq<Seq<char>>) -> bool {
        &&& (self.fields_names + self.no_from_fields).no_duplicates()
        &&& forall|name: Seq<char>|
            declared.contains(name) <==> (self.fields_names.contains(name)
                || self.no_from_fields.contains(name))
    }
}

/// The name of the annotation that keeps a field out of the arguments.
pub open spec fn skip_marker() -> Seq<char> {
    "no_from"@
}

/// The expression that fills a passive field for which none is given.
pub open spec fn default_expression() -> Seq<char> {
    "core::default::Default::default()"@
}

/// Whether the field carries the skip marker.
pub open spec fn is_skipped(field: FieldDecl) -> bool {
    attribute_called(field.attributes@, skip_marker()) is Some
}

/// The initializer of a skipped field: the arguments of its marker, or the default
/// expression where the marker has none.
pub open spec fn marked_initializer(field: FieldDecl) -> Seq<char> {
    match attribute_called(field.attributes@, skip_marker()) {
        Some(Attribute { path: _, arguments: Some(expression) }) => expression@,
        _ => default_expression(),
    }
}

/// The fields as the markers on them say: a field with the skip marker is passive, with the
/// marker's arguments as its initializer; every other field is active. Both keep the order
/// of the declaration.
pub open spec fn marked_fields(fields: Seq<FieldDecl>) -> FieldsInfoView {
    let active = fields.filter(|field: FieldDecl| !is_skipped(field));
    let passive = fields.filter(|field: FieldDecl| is_skipped(field));
    FieldsInfoView {
        fields_names: active.map_values(|field: FieldDecl| field.name@),
        fields_types: active.map_values(|field: FieldDecl| field.ty@),
        no_from_fields: passive.map_values(|field: FieldDecl| field.name@),
        no_from_fields_initializers: passive.map_values(|field: FieldDecl| marked_initializer(field)),
    }
}

/// The first of the names that is not among the declared ones.
pub open spec fn first_unknown(names: Seq<Seq<char>>, declared: Seq<Seq<char>>) -> Option<
    Seq<char>,
>
    decreases names.len(),
{
    if names.len() == 0 {
        None
    } else if !declared.contains(names[0]) {
        Some(names[0])
    } else {
        first_unknown(names.drop_first(), declared)
    }
}

/// The first of the names, from index `from` on, that also stands at an earlier index.
pub open spec fn first_repeated_from(names: Seq<Seq<char>>, from: int) -> Option<Seq<char>>
    decreases names.len() - from,
{
    if from < 0 || from >= names.len() {
        None
    } else if names.take(from).contains(names[from]) {
        Some(names[from])
    } else {
        first_repeated_from(names, from + 1)
    }
}

/// The first of the names that also stands earlier in the list.
pub open spec fn first_repeated(names: Seq<Seq<char>>) -> Option<Seq<char>> {
    first_repeated_from(names, 0)
}

/// The declared type of the first field called `name`; the empty text where there is none.
pub open spec fn type_of_field(fields: Seq<FieldDecl>, name: Seq<char>) -> Seq<char>
    decreases fields.len(),
{
    if fields.len() == 0 {
        Seq::empty()
    } else if fields[0].name@ == name {
        fields[0].ty@
    } else {
        type_of_field(fields.drop_first(), name)
    }
}

/// The declared names that are not among the claimed ones, in the order of their
/// declaration.
pub open spec fn remaining_names(declared: Seq<Seq<char>>, claimed: Seq<Seq<char>>) -> Seq<
    Seq<char>,
> {
    declared.filter(|name: Seq<char>| !claimed.contains(name))
}

/// The entry of the annotation that gives passive fields their initializers.
pub open spec fn defaults_key() -> Seq<char> {
    "defaults"@
}

/// The entry of the annotation that lists the active fields.
pub open spec fn fields_key() -> Seq<char> {
    "fields"@
}

/// The fields with an initializer of their own: what the `defaults` entry holds, itself of
/// the grammar `name(group), ...`; none where there is no such entry.
pub open spec fn explicit_defaults(entries: Seq<(Seq<char>, Seq<char>)>) -> Result<
    Seq<(Seq<char>, Seq<char>)>,
    ParseErrorView,
> {
    match group_named(entries, defaults_key()) {
        None => Ok(Seq::empty()),
        Some(text) => groups_of(text),
    }
}

/// The active fields that the annotation lists: the identifiers that its `fields` entry holds
/// between commas, in that order; none where there is no such entry.
pub open spec fn listed_fields(entries: Seq<(Seq<char>, Seq<char>)>) -> Result<
    Option<Seq<Seq<char>>>,
    ParseErrorView,
> {
    match group_named(entries, fields_key()) {
        None => Ok(None),
        Some(text) => match identifiers_of(pieces(text, ',')) {
            Ok(names) => Ok(Some(names)),
            Err(error) => Err(error),
        },
    }
}

/// The active names: those listed, in the order of the list; where none are listed, every
/// declared name without an initializer of its own, in the order of the declaration.
pub open spec fn active_names(
    declared: Seq<Seq<char>>,
    default_names: Seq<Seq<char>>,
    listed: Option<Seq<Seq<char>>>,
) -> Seq<Seq<char>> {
    match listed {
        Some(names) => names,
        None => remaining_names(declared, default_names),
    }
}

/// The fields of a record, given the passive fields with an initializer of their own and,
/// where they are listed, the active fields.
///
/// Every declared field that is neither active nor among `defaults` is passive with the
/// default expression, after those of `defaults` and in the order of the declaration. A
/// claimed name that the record does not declare is refused, the first such name among the
/// active ones and then those of `defaults`; so is, after that, the first name that is
/// claimed twice.
pub open spec fn resolved_fields(
    fields: Seq<FieldDecl>,
    defaults: Seq<(Seq<char>, Seq<char>)>,
    listed: Option<Seq<Seq<char>>>,
) -> Result<FieldsInfoView, GenerationErrorView> {
    let declared = declared_names(fields);
    let default_names = defaults.map_values(|entry: (Seq<char>, Seq<char>)| entry.0);
    let active = active_names(declared, default_names, listed);
    let claimed = active + default_names;
    let unreached = remaining_names(declared, claimed);
    match first_unknown(claimed, declared) {
        Some(name) => Err(GenerationErrorView::UnknownField(name)),
        None => match first_repeated(claimed) {
            Some(name) => Err(GenerationErrorView::ConflictingFieldSpec(name)),
            None => Ok(
                FieldsInfoView {
                    fields_names: active,
                    fields_types: active.map_values(|name: Seq<char>| type_of_field(fields, name)),
                    no_from_fields: default_names + unreached,
                    no_from_fields_initializers: defaults.map_values(
                        |entry: (Seq<char>, Seq<char>)| entry.1,
                    ) + Seq::new(unreached.len(), |i: int| default_expression()),
                },
            ),
        },
    }
}

/// The fields as the entries of an annotation say: the `defaults` entry gives the passive
/// fields with an initializer of their own, the `fields` entry lists the active fields, and
/// the fields are resolved from the two.
pub open spec fn configured_fields(
    fields: Seq<FieldDecl>,
    entries: Seq<(Seq<char>, Seq<char>)>,
) -> Result<FieldsInfoView, GenerationErrorView> {
    match explicit_defaults(entries) {
        Err(error) => Err(GenerationErrorView::MalformedAnnotation(error)),
        Ok(defaults) => match listed_fields(entries) {
            Err(error) => Err(GenerationErrorView::MalformedAnnotation(error)),
            Ok(listed) => resolved_fields(fields, defaults, listed),
        },
    }
}

/// Copies out the names of the fields.
fn names_of(fields: &Vec<FieldDecl>) -> (r: Vec<String>)
    ensures
        r.deep_view() == declared_names(fields@),
{
    let mut out: Vec<String> = Vec::new();
    let mut i: usize = 0;
    while i < fields.len()
        invariant
            i <= fields.len(),
            out@.len() == i,
            forall|j: int| 0 <= j < i ==> out@[j]@ == fields@[j].name@,
        decreases fields.len() - i,
    {
        out.push(fields[i].name.clone());
        i += 1;
    }
    assert(out.deep_view() =~= declared_names(fields@));
    out
}

/// Parts the entries into their names and their groups.
fn unzip(entries: &Vec<(String, String)>) -> (r: (Vec<String>, Vec<String>))
    ensures
        r.0.deep_view() == entries.deep_view().map_values(|entry: (Seq<char>, Seq<char>)| entry.0),
        r.1.deep_view() == entries.deep_view().map_values(|entry: (Seq<char>, Seq<char>)| entry.1),
{
    let mut names: Vec<String> = Vec::new();
    let mut groups: Vec<String> = Vec::new();
    let mut i: usize = 0;
    while i < entries.len()
        invariant
            i <= entries.len(),
            names@.len() == i,
            groups@.len() == i,
            forall|j: int| 0 <= j < i ==> names@[j]@ == entries@[j].0@,
            forall|j: int| 0 <= j < i ==> groups@[j]@ == entries@[j].1@,
        decreases entries.len() - i,
    {
        names.push(entries[i].0.clone());
        groups.push(entries[i].1.clone());
        i += 1;
    }
    assert(names.deep_view() =~= entries.deep_view().map_values(
        |entry: (Seq<char>, Seq<char>)| entry.0,
    ));
    assert(groups.deep_view() =~= entries.deep_view().map_values(
        |entry: (Seq<char>, Seq<char>)| entry.1,
    ));
    (names, groups)
}

/// Finds the first of the names that is not among the declared ones.
fn find_unknown(names: &Vec<String>, declared: &Vec<String>) -> (r: Option<String>)
    ensures
        r.deep_view() == first_unknown(names.deep_view(), declared.deep_view()),
{
    let ghost all = names.deep_view();
    let mut i: usize = 0;
    assert(all.skip(0) =~= all);
    while i < names.len()
        invariant
            i <= names.len(),
            all == names.deep_view(),
            first_unknown(all, declared.deep_view()) == first_unknown(
                all.skip(i as int),
                declared.deep_view(),
            ),
        decreases names.len() - i,
    {
        assert(all.skip(i as int)[0] == names@[i as int]@);
        if !contains_text(declared, names[i].as_str()) {
            return Some(names[i].clone());
        }
        assert(all.skip(i as int).drop_first() =~= all.skip(i + 1));
        i += 1;
    }
    None
}

/// Finds the first of the names that also stands earlier in the list.
fn find_repeated(names: &Vec<String>) -> (r: Option<String>)
    ensures
        r.deep_view() == first_repeated(names.deep_view()),
{
    let ghost all = names.deep_view();
    let mut i: usize = 0;
    while i < names.len()
        invariant
            i <= names.len(),
            all == names.deep_view(),
            first_repeated(all) == first_repeated_from(all, i as int),
        decreases names.len() - i,
    {
        let mut j: usize = 0;
        while j < i
            invariant
                j <= i < names.len(),
                all == names.deep_view(),
                first_repeated(all) == first_repeated_from(all, i as int),
                forall|k: int| 0 <= k < j ==> all[k] != all[i as int],
            decreases i - j,
        {
            if same_text(names[j].as_str(), names[i].as_str()) {
                assert(all.take(i as int)[j as int] == all[i as int]);
                assert(all.take(i as int).contains(all[i as int]));
                return Some(names[i].clone());
            }
            j += 1;
        }
        assert(!all.take(i as int).contains(all[i as int]));
        i += 1;
    }
    None
}

/// Looks up the declared type of the first field called `name`.
fn field_type(fields: &Vec<FieldDecl>, name: &str) -> (r: String)
    ensures
        r@ == type_of_field(fields@, name@),
{
    let mut i: usize = 0;
    assert(fields@.skip(0) =~= fields@);
    while i < fields.len()
        invariant
            i <= fields.len(),
            type_of_field(fields@, name@) == type_of_field(fields@.skip(i as int), name@),
        decreases fields.len() - i,
    {
        if same_text(fields[i].name.as_str(), name) {
            return fields[i].ty.clone();
        }
        assert(fields@.skip(i as int).drop_first() =~= fields@.skip(i + 1));
        i += 1;
    }
    String::new()
}

/// Looks up the declared type of each of the names.
fn field_types(fields: &Vec<FieldDecl>, names: &Vec<String>) -> (r: Vec<String>)
    ensures
        r.deep_view() == names.deep_view().map_values(
            |name: Seq<char>| type_of_field(fields@, name),
        ),
{
    let mut out: Vec<String> = Vec::new();
    let mut i: usize = 0;
    while i < names.len()
        invariant
            i <= names.len(),
            out@.len() == i,
            forall|j: int| 0 <= j < i ==> out@[j]@ == type_of_field(fields@, names@[j]@),
        decreases names.len() - i,
    {
        out.push(field_type(fields, names[i].as_str()));
        i += 1;
    }
    assert(out.deep_view() =~= names.deep_view().map_values(
        |name: Seq<char>| type_of_field(fields@, name),
    ));
    out
}

/// Collects the declared names that are not among the claimed ones.
fn remaining(declared: &Vec<String>, claimed: &Vec<String>) -> (r: Vec<String>)
    ensures
        r.deep_view() == remaining_names(declared.deep_view(), claimed.deep_view()),
{
    let ghost all = declared.deep_view();
    let ghost unclaimed = |name: Seq<char>| !claimed.deep_view().contains(name);
    let mut out: Vec<String> = Vec::new();
    let mut i: usize = 0;
    proof {
        reveal(Seq::filter);
        assert(all.take(0).filter(unclaimed) =~= out.deep_view());
    }
    while i < declared.len()
        invariant
            i <= declared.len(),
            all == declared.deep_view(),
            unclaimed == |name: Seq<char>| !claimed.deep_view().contains(name),
            out.deep_view() == all.take(i as int).filter(unclaimed),
        decreases declared.len() - i,
    {
        let ghost before = out.deep_view();
        proof {
            assert(all.take(i + 1) =~= all.take(i as int).push(declared@[i as int]@));
            all.take(i as int).lemma_filter_push(declared@[i as int]@, unclaimed);
        }
        if !contains_text(claimed, declared[i].as_str()) {
            out.push(declared[i].clone());
            assert(out.deep_view() =~= before.push(declared@[i as int]@));
        }
        i += 1;
    }
    assert(all.take(declared.len() as int) =~= all);
    out
}

impl FieldsInfo {
    /// Resolves the fields of a record by the skip markers on them.
    pub fn new_from_derive_data_struct(fields: &Vec<FieldDecl>) -> (r: FieldsInfo)
        ensures
            r@ == marked_fields(fields@),
            r@.wf(),
            declared_names(fields@).no_duplicates() ==> r@.partitions(declared_names(fields@)),
    {
        let mut fields_names: Vec<String> = Vec::new();
        let mut fields_types: Vec<String> = Vec::new();
        let mut no_from_fields: Vec<String> = Vec::new();
        let mut no_from_fields_initializers: Vec<String> = Vec::new();
        let ghost is_active = |field: FieldDecl| !is_skipped(field);
        let ghost is_passive = |field: FieldDecl| is_skipped(field);
        let ghost name_of = |field: FieldDecl| field.name@;
        let ghost type_of = |field: FieldDecl| field.ty@;
        let ghost initializer_of = |field: FieldDecl| marked_initializer(field);
        let mut i: usize = 0;
        proof {
            reveal(Seq::filter);
            assert(fields@.take(0).filter(is_active) =~= Seq::<FieldDecl>::empty());
            assert(fields@.take(0).filter(is_passive) =~= Seq::<FieldDecl>::empty());
        }
        while i < fields.len()
            invariant
                i <= fields.len(),
                is_active == |field: FieldDecl| !is_skipped(field),
                is_passive == |field: FieldDecl| is_skipped(field),
                name_of == |field: FieldDecl| field.name@,
                type_of == |field: FieldDecl| field.ty@,
                initializer_of == |field: FieldDecl| marked_initializer(field),
                fields_names.deep_view() =~= fields@.take(i as int).filter(is_active).map_values(
                    name_of,
                ),
                fields_types.deep_view() =~= fields@.take(i as int).filter(is_active).map_values(
                    type_of,
                ),
                no_from_fields.deep_view() =~= fields@.take(i as int).filter(
                    is_passive,
                ).map_values(name_of),
                no_from_fields_initializers.deep_view() =~= fields@.take(i as int).filter(
                    is_passive,
                ).map_values(initializer_of),
            decreases fields.len() - i,
        {
            let field = &fields[i];
            let ghost before = fields@.take(i as int);
            proof {
                assert(fields@.take(i + 1) =~= before.push(*field));
                before.lemma_filter_push(*field, is_active);
                before.lemma_filter_push(*field, is_passive);
                before.filter(is_active).lemma_push_map_commute(name_of, *field);
                before.filter(is_active).lemma_push_map_commute(type_of, *field);
                before.filter(is_passive).lemma_push_map_commute(name_of, *field);
                before.filter(is_passive).lemma_push_map_commute(initializer_of, *field);
            }
            match find_attribute(&field.attributes, "no_from") {
                None => {
                    let ghost names = fields_names.deep_view();
                    let ghost types = fields_types.deep_view();
                    fields_names.push(field.name.clone());
                    fields_types.push(field.ty.clone());
                    proof {
                        assert(fields_names.deep_view() =~= names.push(field.name@));
                        assert(fields_types.deep_view() =~= types.push(field.ty@));
                    }
                },
                Some(marker) => {
                    let ghost names = no_from_fields.deep_view();
                    let ghost initializers = no_from_fields_initializers.deep_view();
                    let initializer = match &marker.arguments {
                        Some(expression) => expression.clone(),
                        None => String::from_str("core::default::Default::default()"),
                    };
                    no_from_fields.push(field.name.clone());
                    no_from_fields_initializers.push(initializer);
                    proof {
                        assert(no_from_fields.deep_view() =~= names.push(field.name@));
                        assert(no_from_fields_initializers.deep_view() =~= initializers.push(
                            marked_initializer(*field),
                        ));
                    }
                },
            }
            i += 1;
        }
        proof {
            assert(fields@.take(fields.len() as int) =~= fields@);
            if declared_names(fields@).no_duplicates() {
                lemma_marked_fields_partition(fields@);
            }
        }
        FieldsInfo { fields_names, fields_types, no_from_fields, no_from_fields_initializers }
    }

    /// Resolves the fields of a record from the passive fields with an initializer of
    /// their own and, where they are listed, the active fields.
    pub fn resolve(
        fields: &Vec<FieldDecl>,
        defaults: &Vec<(String, String)>,
        listed: Option<Vec<String>>,
    ) -> (r: Result<FieldsInfo, GenerationError>)
        ensures
            match r {
                Ok(info) => resolved_fields(fields@, defaults.deep_view(), listed.deep_view())
                    == Ok::<_, GenerationErrorView>(info@),
                Err(error) => resolved_fields(fields@, defaults.deep_view(), listed.deep_view())
                    == Err::<FieldsInfoView, _>(error@),
            },
            r matches Ok(info) ==> info@.wf(),
            r matches Ok(info) ==> (declared_names(fields@).no_duplicates() ==> info@.partitions(
                declared_names(fields@),
            )),
    {
        let declared = names_of(fields);
        let (default_names, default_initializers) = unzip(defaults);
        let fields_in_use = match listed {
            Some(names) => names,
            None => remaining(&declared, &default_names),
        };
        let claimed = followed_by(&fields_in_use, &default_names);
        match find_unknown(&claimed, &declared) {
            Some(name) => {
                return Err(GenerationError::UnknownField(name));
            },
            None => {},
        }
        match find_repeated(&claimed) {
            Some(name) => {
                return Err(GenerationError::ConflictingFieldSpec(name));
            },
            None => {},
        }
        let fields_types = field_types(fields, &fields_in_use);
        let unreached = remaining(&declared, &claimed);
        let unreached_initializers = copies("core::default::Default::default()", unreached.len());
        let no_from_fields = followed_by(&default_names, &unreached);
        let no_from_fields_initializers = followed_by(
            &default_initializers,
            &unreached_initializers,
        );
        proof {
            if declared_names(fields@).no_duplicates() {
                lemma_resolved_fields_partition(
                    fields@,
                    defaults.deep_view(),
                    listed.deep_view(),
                );
            }
        }
        Ok(
            FieldsInfo {
                fields_names: fields_in_use,
                fields_types,
                no_from_fields,
                no_from_fields_initializers,
            },
        )
    }

    /// Resolves the fields of a record by the entries of an annotation.
    pub fn new_from_macro_attribute_info(
        fields: &Vec<FieldDecl>,
        attr_contents: &Vec<(String, String)>,
    ) -> (r: Result<FieldsInfo, GenerationError>)
        ensures
            match r {
                Ok(info) => configured_fields(fields@, attr_contents.deep_view()) == Ok::<
                    _,
                    GenerationErrorView,
                >(info@),
                Err(error) => configured_fields(fields@, attr_contents.deep_view()) == Err::<
                    FieldsInfoView,
                    _,
                >(error@),
            },
            r matches Ok(info) ==> info@.wf(),
            r matches Ok(info) ==> (declared_names(fields@).no_duplicates() ==> info@.partitions(
                declared_names(fields@),
            )),
    {
        let defaults = match find_group(attr_contents, "defaults") {
            None => {
                let none: Vec<(String, String)> = Vec::new();
                assert(none.deep_view() =~= Seq::<(Seq<char>, Seq<char>)>::empty());
                none
            },
            Some(text) => match idents_and_groups_from(text.as_str()) {
                Ok(entries) => entries,
                Err(error) => {
                    return Err(GenerationError::MalformedAnnotation(error));
                },
            },
        };
        let listed = match find_group(attr_contents, "fields") {
            None => None,
            Some(text) => match require_identifiers(&split(text.as_str(), ',')) {
                Ok(names) => Some(names),
                Err(error) => {
                    return Err(GenerationError::MalformedAnnotation(error));
                },
            },
        };
        Self::resolve(fields, &defaults, listed)
    }
}

} // verus!
