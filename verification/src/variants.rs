//! The variants of a tagged union for which a conversion is generated, and what each
//! conversion needs to know of its variant.

use vstd::prelude::*;
use vstd::string::*;
use crate::decl::{attribute_called, find_attribute, VariantDecl, VariantField};
use crate::fields::skip_marker;
use crate::text::{decimal, decimal_text, join, joined};

verus! {

/// What the conversion into one variant needs to know of it.
#[derive(Clone, Debug, PartialEq, Eq)]
pub struct VariantConversion {
    /// The name of the variant.
    pub variant_name: String,
    /// Whether the fields of the variant have names: whether its first field has one.
    pub is_named: bool,
    /// How each field is named where the variant is built: by its name, or by its position
    /// where it has none.
    pub members: Vec<String>,
    /// The types of the fields, in order.
    pub field_types: Vec<String>,
}

/// A [`VariantConversion`] as contracts see it.
pub struct VariantConversionView {
    pub variant_name: Seq<char>,
    pub is_named: bool,
    pub members: Seq<Seq<char>>,
    pub field_types: Seq<Seq<char>>,
}

impl View for VariantConversion {
    type V = VariantConversionView;

    open spec fn view(&self) -> VariantConversionView {
        VariantConversionView {
            variant_name: self.variant_name@,
            is_named: self.is_named,
            members: self.members.deep_view(),
            field_types: self.field_types.deep_view(),
        }
    }
}

impl DeepView for VariantConversion {
    type V = VariantConversionView;

    open spec fn deep_view(&self) -> VariantConversionView {
        self@
    }
}

/// How a field of a variant is named where the variant is built: by its name, or by its
/// position where it has none.
pub open spec fn member_text(field: VariantField, position: int) -> Seq<char> {
    match field.name {
        Some(name) => name@,
        None => decimal_text(position as nat),
    }
}

/// The types of a variant's fields, in order.
pub open spec fn variant_types(fields: Seq<VariantField>) -> Seq<Seq<char>> {
    fields.map_values(|field: VariantField| field.ty@)
}

/// What the conversion into `variant` needs to know of it.
pub open spec fn conversion_of(variant: VariantDecl) -> VariantConversionView {
    VariantConversionView {
        variant_name: variant.name@,
        is_named: variant.fields@.len() > 0 && variant.fields@[0].name is Some,
        members: Seq::new(variant.fields@.len(), |i: int| member_text(variant.fields@[i], i)),
        field_types: variant_types(variant.fields@),
    }
}

/// Whether a conversion is generated for the variant: it is, unless the variant carries the
/// skip marker.
pub open spec fn is_eligible(variant: VariantDecl) -> bool {
    attribute_called(variant.attributes@, skip_marker()) is None
}

/// The conversions of a tagged union: one for each eligible variant, in the order of the
/// declaration. Each depends on its own variant alone.
pub open spec fn eligible_conversions(variants: Seq<VariantDecl>) -> Seq<VariantConversionView> {
    variants.filter(|variant: VariantDecl| is_eligible(variant)).map_values(
        |variant: VariantDecl| conversion_of(variant),
    )
}

impl VariantConversion {
    /// Describes the conversion into `variant`.
    pub fn new(variant: &VariantDecl) -> (r: VariantConversion)
        ensures
            r@ == conversion_of(*variant),
            r.members@.len() == r.field_types@.len(),
    {
        let fields = &variant.fields;
        let is_named = fields.len() > 0 && fields[0].name.is_some();
        let mut members: Vec<String> = Vec::new();
        let mut field_types: Vec<String> = Vec::new();
        let mut i: usize = 0;
        while i < fields.len()
            invariant
                i <= fields.len(),
                members@.len() == i,
                field_types@.len() == i,
                forall|j: int| 0 <= j < i ==> members@[j]@ == member_text(fields@[j], j),
                forall|j: int| 0 <= j < i ==> field_types@[j]@ == fields@[j].ty@,
            decreases fields.len() - i,
        {
            let member = match &fields[i].name {
                Some(name) => name.clone(),
                None => decimal(i),
            };
            members.push(member);
            field_types.push(fields[i].ty.clone());
            i += 1;
        }
        assert(members.deep_view() =~= Seq::new(
            fields@.len(),
            |i: int| member_text(fields@[i], i),
        ));
        assert(field_types.deep_view() =~= variant_types(fields@));
        VariantConversion { variant_name: variant.name.clone(), is_named, members, field_types }
    }

    /// Describes the conversions of a tagged union: one for each variant without the skip
    /// marker.
    pub fn eligible(variants: &Vec<VariantDecl>) -> (r: Vec<VariantConversion>)
        ensures
            r.deep_view() == eligible_conversions(variants@),
    {
        let ghost wanted = |variant: VariantDecl| is_eligible(variant);
        let ghost described = |variant: VariantDecl| conversion_of(variant);
        let mut out: Vec<VariantConversion> = Vec::new();
        let mut i: usize = 0;
        proof {
            reveal(Seq::filter);
            assert(variants@.take(0).filter(wanted).map_values(described) =~= out.deep_view());
        }
        while i < variants.len()
            invariant
                i <= variants.len(),
                wanted == |variant: VariantDecl| is_eligible(variant),
                described == |variant: VariantDecl| conversion_of(variant),
                out.deep_view() == variants@.take(i as int).filter(wanted).map_values(described),
            decreases variants.len() - i,
        {
            let variant = &variants[i];
            let ghost before = variants@.take(i as int);
            let ghost collected = out.deep_view();
            proof {
                assert(variants@.take(i + 1) =~= before.push(*variant));
                before.lemma_filter_push(*variant, wanted);
                before.filter(wanted).lemma_push_map_commute(described, *variant);
            }
            if find_attribute(&variant.attributes, "no_from").is_none() {
                let conversion = VariantConversion::new(variant);
                out.push(conversion);
                assert(out.deep_view() =~= collected.push(conversion_of(*variant)));
            }
            i += 1;
        }
        assert(variants@.take(variants.len() as int) =~= variants@);
        out
    }
}

/// A field of a variant set to its constant default: the field's name, where it has one,
/// and the constant in parentheses.
pub open spec fn const_default_text(field: VariantField) -> Seq<char> {
    match field.name {
        Some(name) => name@ + " (const_default::ConstDefault::DEFAULT)"@,
        None => "(const_default::ConstDefault::DEFAULT)"@,
    }
}

/// The fields of a variant, each set to its constant default, with commas between them;
/// nothing for a variant without fields.
pub open spec fn const_defaults_text(fields: Seq<VariantField>) -> Option<Seq<char>> {
    if fields.len() == 0 {
        None
    } else {
        Some(joined(fields.map_values(|field: VariantField| const_default_text(field)), ", "@))
    }
}

/// Writes the fields of a variant, each set to its constant default.
pub fn fields_as_const_defaults_tokens(variant: &VariantDecl) -> (r: Option<String>)
    ensures
        r.deep_view() == const_defaults_text(variant.fields@),
{
    let fields = &variant.fields;
    if fields.len() == 0 {
        return None;
    }
    let mut items: Vec<String> = Vec::new();
    let mut i: usize = 0;
    while i < fields.len()
        invariant
            i <= fields.len(),
            items@.len() == i,
            forall|j: int| 0 <= j < i ==> items@[j]@ == const_default_text(fields@[j]),
        decreases fields.len() - i,
    {
        let item = match &fields[i].name {
            Some(name) => {
                let mut named = name.clone();
                named.append(" (const_default::ConstDefault::DEFAULT)");
                named
            },
            None => String::from_str("(const_default::ConstDefault::DEFAULT)"),
        };
        items.push(item);
        i += 1;
    }
    assert(items.deep_view() =~= fields@.map_values(
        |field: VariantField| const_default_text(field),
    ));
    Some(join(&items, ", "))
}

} // verus!
