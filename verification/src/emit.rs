//! The generated code, as text: a conversion or a constructor for a record, the error
//! enumeration of a fallible one, and the conversions into the variants of a tagged union.

use vstd::prelude::*;
use vstd::string::*;
use crate::decl::VariantDecl;
use crate::fallible::{TryFromInfo, TryFromInfoView};
use crate::fields::{FieldsInfo, FieldsInfoView};
use crate::text::{
    concatenate, concatenated, decimal, decimal_text, decorate, decorated, interleave, interleaved,
    join, joined, tuple_of, tuple_text,
};
use crate::variants::{eligible_conversions, VariantConversion, VariantConversionView};

verus! {

/// What stands between the braces where the record is built: each active field by its own
/// name, which is bound to the argument at its position, then each passive field with its
/// initializer.
pub open spec fn record_body(info: FieldsInfoView) -> Seq<char> {
    concatenated(decorated(""@, info.fields_names, ", "@)) + concatenated(
        interleaved(""@, info.no_from_fields, ": "@, info.no_from_fields_initializers, ", "@),
    )
}

/// Writes what stands between the braces where the record is built.
fn record_body_of(info: &FieldsInfo) -> (r: String)
    requires
        info@.wf(),
    ensures
        r@ == record_body(info@),
{
    let mut out = concatenate(&decorate("", &info.fields_names, ", "));
    let passive = concatenate(
        &interleave("", &info.no_from_fields, ": ", &info.no_from_fields_initializers, ", "),
    );
    out.append(passive.as_str());
    out
}

/// The arguments of a named function: each name with its type.
pub open spec fn parameters_text(names: Seq<Seq<char>>, types: Seq<Seq<char>>) -> Seq<char> {
    joined(interleaved(""@, names, ": "@, types, ""@), ", "@)
}

/// Writes the arguments of a named function.
fn parameters_of(names: &Vec<String>, types: &Vec<String>) -> (r: String)
    requires
        names.len() == types.len(),
    ensures
        r@ == parameters_text(names.deep_view(), types.deep_view()),
{
    join(&interleave("", names, ": ", types, ""), ", ")
}

/// The constructor that cannot fail.
///
/// Without a function name it is an implementation of `From` for the tuple of the active
/// fields' types: the tuple is taken apart into the active fields by position, and the
/// record is built from them and from the initializers of the passive fields. With a
/// function name it is a function of that name on the type, whose arguments are the active
/// fields, each of its declared type, and which builds the record in the same way.
pub open spec fn from_for_struct_text(
    target: Seq<char>,
    info: FieldsInfoView,
    function: Option<Seq<char>>,
) -> Seq<char> {
    match function {
        None => "impl core::convert::From<"@ + tuple_text(info.fields_types) + "> for "@ + target
            + " { fn from(value: "@ + tuple_text(info.fields_types) + ") -> Self { let "@
            + tuple_text(info.fields_names) + " = value; Self { "@ + record_body(info) + "} } }"@,
        Some(name) => "impl "@ + target + " { pub fn "@ + name + "("@ + parameters_text(
            info.fields_names,
            info.fields_types,
        ) + ") -> Self { Self { "@ + record_body(info) + "} } }"@,
    }
}

/// Writes the constructor that cannot fail.
pub fn tokens_for_from_for_struct(
    name: &str,
    fields_info: &FieldsInfo,
    constructor_fn_name: Option<&String>,
) -> (r: String)
    requires
        fields_info@.wf(),
    ensures
        r@ == from_for_struct_text(name@, fields_info@, constructor_fn_name.deep_view()),
{
    let body = record_body_of(fields_info);
    match constructor_fn_name {
        None => {
            let types = tuple_of(&fields_info.fields_types);
            let names = tuple_of(&fields_info.fields_names);
            let mut out = String::from_str("impl core::convert::From<");
            out.append(types.as_str());
            out.append("> for ");
            out.append(name);
            out.append(" { fn from(value: ");
            out.append(types.as_str());
            out.append(") -> Self { let ");
            out.append(names.as_str());
            out.append(" = value; Self { ");
            out.append(body.as_str());
            out.append("} } }");
            out
        },
        Some(function) => {
            let parameters = parameters_of(&fields_info.fields_names, &fields_info.fields_types);
            let mut out = String::from_str("impl ");
            out.append(name);
            out.append(" { pub fn ");
            out.append(function.as_str());
            out.append("(");
            out.append(parameters.as_str());
            out.append(") -> Self { Self { ");
            out.append(body.as_str());
            out.append("} } }");
            out
        },
    }
}

/// The type parameters of the error enumeration: one for each variant.
pub open spec fn error_parameters_text(shape: TryFromInfoView) -> Seq<char> {
    joined(shape.error_types, ", "@)
}

/// The error enumeration: what is attached to it, then the enumeration with one type
/// parameter and one variant for each active field, the variant holding one value of the
/// parameter of the same name.
pub open spec fn error_enum_text(shape: TryFromInfoView) -> Seq<char> {
    shape.error_enum_metadata + " pub enum "@ + shape.error_enum_name + "<"@
        + error_parameters_text(shape) + "> { "@ + joined(
        interleaved(""@, shape.error_types, "("@, shape.error_types, ")"@),
        ", "@,
    ) + " } "@
}

/// Writes the error enumeration.
fn error_enum_of(shape: &TryFromInfo) -> (r: String)
    ensures
        r@ == error_enum_text(shape@),
{
    let parameters = join(&shape.error_types, ", ");
    let variants = join(&interleave("", &shape.error_types, "(", &shape.error_types, ")"), ", ");
    let mut out = shape.error_enum_metadata.clone();
    out.append(" pub enum ");
    out.append(shape.error_enum_name.as_str());
    out.append("<");
    out.append(parameters.as_str());
    out.append("> { ");
    out.append(variants.as_str());
    out.append(" } ");
    out
}

/// The type parameters of a fallible constructor: for each active field its source type,
/// then its error type.
pub open spec fn generics_text(shape: TryFromInfoView) -> Seq<char> {
    joined(interleaved(""@, shape.try_from_types, ", "@, shape.error_types, ""@), ", "@)
}

/// The bound for one active field: its declared type can be tried from its source type, and
/// failing that gives its error type.
pub open spec fn bound_text(ty: Seq<char>, source: Seq<char>, error: Seq<char>) -> Seq<char> {
    ty + ": TryFrom<"@ + source + ", Error = "@ + error + ">"@
}

/// The bounds of a fallible constructor: one for each active field, in order.
pub open spec fn bounds_text(info: FieldsInfoView, shape: TryFromInfoView) -> Seq<char> {
    joined(
        Seq::new(
            info.fields_names.len(),
            |i: int| bound_text(info.fields_types[i], shape.try_from_types[i], shape.error_types[i]),
        ),
        ", "@,
    )
}

/// Writes the bounds of a fallible constructor.
fn bounds_of(info: &FieldsInfo, shape: &TryFromInfo) -> (r: String)
    requires
        info@.wf(),
        shape@.fits(info@),
    ensures
        r@ == bounds_text(info@, shape@),
{
    let sources = interleave("", &shape.try_from_types, ", Error = ", &shape.error_types, ">");
    let bounds = interleave("", &info.fields_types, ": TryFrom<", &sources, "");
    proof {
        reveal_strlit("");
        assert(bounds.deep_view() =~= Seq::new(
            info@.fields_names.len(),
            |i: int|
                bound_text(info@.fields_types[i], shape@.try_from_types[i], shape@.error_types[i]),
        )) by {
            assert forall|i: int| 0 <= i < info@.fields_names.len() implies bounds.deep_view()[i]
                =~= bound_text(
                info@.fields_types[i],
                shape@.try_from_types[i],
                shape@.error_types[i],
            ) by {
                assert(sources.deep_view()[i] == ""@ + shape@.try_from_types[i] + ", Error = "@
                    + shape@.error_types[i] + ">"@);
            }
        }
    }
    join(&bounds, ", ")
}

/// The conversion of one active field: the field's name is bound anew to what its declared
/// type makes of the argument, and where that fails the function returns at once with the
/// field's variant around the failure.
pub open spec fn conversion_text(
    name: Seq<char>,
    ty: Seq<char>,
    error_enum: Seq<char>,
    error: Seq<char>,
) -> Seq<char> {
    "let "@ + name + " = <"@ + ty + ">::try_from("@ + name + ").map_err(|error| "@ + error_enum
        + "::"@ + error + "(error))?; "@
}

/// The conversions of a fallible constructor: one for each active field, in the order of
/// the fields, so that the first field that fails decides the outcome.
pub open spec fn conversions_text(info: FieldsInfoView, shape: TryFromInfoView) -> Seq<char> {
    concatenated(
        Seq::new(
            info.fields_names.len(),
            |i: int|
                conversion_text(
                    info.fields_names[i],
                    info.fields_types[i],
                    shape.error_enum_name,
                    shape.error_types[i],
                ),
        ),
    )
}

/// Writes the conversions of a fallible constructor.
fn conversions_of(info: &FieldsInfo, shape: &TryFromInfo) -> (r: String)
    requires
        info@.wf(),
        shape@.fits(info@),
    ensures
        r@ == conversions_text(info@, shape@),
{
    let attempts = interleave("let ", &info.fields_names, " = <", &info.fields_types, ">::try_from(");
    let mut wrap = String::from_str(").map_err(|error| ");
    wrap.append(shape.error_enum_name.as_str());
    wrap.append("::");
    let failures = interleave("", &info.fields_names, wrap.as_str(), &shape.error_types, "(error))?; ");
    let conversions = interleave("", &attempts, "", &failures, "");
    proof {
        reveal_strlit("");
        assert(conversions.deep_view() =~= Seq::new(
            info@.fields_names.len(),
            |i: int|
                conversion_text(
                    info@.fields_names[i],
                    info@.fields_types[i],
                    shape@.error_enum_name,
                    shape@.error_types[i],
                ),
        )) by {
            assert forall|i: int| 0 <= i < info@.fields_names.len() implies conversions.deep_view()[i]
                =~= conversion_text(
                info@.fields_names[i],
                info@.fields_types[i],
                shape@.error_enum_name,
                shape@.error_types[i],
            ) by {
                assert(attempts.deep_view()[i] == "let "@ + info@.fields_names[i] + " = <"@
                    + info@.fields_types[i] + ">::try_from("@);
                assert(failures.deep_view()[i] == ""@ + info@.fields_names[i] + wrap@
                    + shape@.error_types[i] + "(error))?; "@);
            }
        }
    }
    concatenate(&conversions)
}

/// The constructor that can fail.
///
/// It begins with the error enumeration. Without a function name there follows an
/// implementation of `TryFrom` for the tuple of the source types, with that enumeration as
/// its error; with a function name, a function of that name on the type, whose arguments are
/// the active fields, each of its source type. Either is generic over the source and error
/// type of each active field and bound so that each field's declared type can be tried from
/// its source type. The body converts the active fields in order, returns the first
/// failure in the variant of its field, and else builds the record from the converted
/// fields and the initializers of the passive ones.
///
/// A record without active fields gets an enumeration without variants and a constructor
/// that takes nothing and cannot in fact fail.
pub open spec fn try_from_for_struct_text(
    target: Seq<char>,
    info: FieldsInfoView,
    shape: TryFromInfoView,
    function: Option<Seq<char>>,
) -> Seq<char> {
    match function {
        None => error_enum_text(shape) + "impl<"@ + generics_text(shape) + "> TryFrom<"@
            + tuple_text(shape.try_from_types) + "> for "@ + target + " where "@ + bounds_text(
            info,
            shape,
        ) + " { type Error = "@ + shape.error_enum_name + "<"@ + error_parameters_text(shape)
            + ">; fn try_from(value: "@ + tuple_text(shape.try_from_types)
            + ") -> Result<Self, Self::Error> { let "@ + tuple_text(info.fields_names)
            + " = value; "@ + conversions_text(info, shape) + "Ok("@ + target + " { "@
            + record_body(info) + "}) } }"@,
        Some(name) => error_enum_text(shape) + "impl "@ + target + " { pub fn "@ + name + "<"@
            + generics_text(shape) + ">("@ + parameters_text(
            info.fields_names,
            shape.try_from_types,
        ) + ") -> Result<Self, "@ + shape.error_enum_name + "<"@ + error_parameters_text(shape)
            + ">> where "@ + bounds_text(info, shape) + " { "@ + conversions_text(info, shape)
            + "Ok("@ + target + " { "@ + record_body(info) + "}) } }"@,
    }
}

/// Writes the constructor that can fail.
pub fn tokens_for_try_from_for_struct(
    name: &str,
    fields_info: &FieldsInfo,
    try_from_info: &TryFromInfo,
    constructor_fn_name: Option<&String>,
) -> (r: String)
    requires
        fields_info@.wf(),
        try_from_info@.fits(fields_info@),
    ensures
        r@ == try_from_for_struct_text(
            name@,
            fields_info@,
            try_from_info@,
            constructor_fn_name.deep_view(),
        ),
{
    let body = record_body_of(fields_info);
    let generics = join(
        &interleave("", &try_from_info.try_from_types, ", ", &try_from_info.error_types, ""),
        ", ",
    );
    let errors = join(&try_from_info.error_types, ", ");
    let bounds = bounds_of(fields_info, try_from_info);
    let conversions = conversions_of(fields_info, try_from_info);
    let mut out = error_enum_of(try_from_info);
    match constructor_fn_name {
        None => {
            let sources = tuple_of(&try_from_info.try_from_types);
            let names = tuple_of(&fields_info.fields_names);
            out.append("impl<");
            out.append(generics.as_str());
            out.append("> TryFrom<");
            out.append(sources.as_str());
            out.append("> for ");
            out.append(name);
            out.append(" where ");
            out.append(bounds.as_str());
            out.append(" { type Error = ");
            out.append(try_from_info.error_enum_name.as_str());
            out.append("<");
            out.append(errors.as_str());
            out.append(">; fn try_from(value: ");
            out.append(sources.as_str());
            out.append(") -> Result<Self, Self::Error> { let ");
            out.append(names.as_str());
            out.append(" = value; ");
            out.append(conversions.as_str());
            out.append("Ok(");
            out.append(name);
            out.append(" { ");
            out.append(body.as_str());
            out.append("}) } }");
            out
        },
        Some(function) => {
            let parameters = parameters_of(
                &fields_info.fields_names,
                &try_from_info.try_from_types,
            );
            out.append("impl ");
            out.append(name);
            out.append(" { pub fn ");
            out.append(function.as_str());
            out.append("<");
            out.append(generics.as_str());
            out.append(">(");
            out.append(parameters.as_str());
            out.append(") -> Result<Self, ");
            out.append(try_from_info.error_enum_name.as_str());
            out.append("<");
            out.append(errors.as_str());
            out.append(">> where ");
            out.append(bounds.as_str());
            out.append(" { ");
            out.append(conversions.as_str());
            out.append("Ok(");
            out.append(name);
            out.append(" { ");
            out.append(body.as_str());
            out.append("}) } }");
            out
        },
    }
}

/// How the value for the field at `position` is taken out of the converted value: the value
/// itself where the variant has one field, else the tuple's element at that position.
pub open spec fn accessor_text(count: nat, position: int) -> Seq<char> {
    if count == 1 {
        Seq::empty()
    } else {
        "."@ + decimal_text(position as nat)
    }
}

/// The fields of a variant, each given its value, with commas between them.
pub open spec fn assignments_text(members: Seq<Seq<char>>) -> Seq<char> {
    joined(
        Seq::new(
            members.len(),
            |i: int| members[i] + ": value"@ + accessor_text(members.len(), i),
        ),
        ", "@,
    )
}

/// The conversion into one variant: an implementation of `From` for the tuple of the types
/// of the variant's fields, which builds that variant. A variant without fields is built
/// from the empty tuple, a variant with one field from a value of that field's type.
pub open spec fn from_for_variant_text(target: Seq<char>, conversion: VariantConversionView) -> Seq<
    char,
> {
    "impl core::convert::From<"@ + tuple_text(conversion.field_types) + "> for "@ + target
        + " { fn from(value: "@ + tuple_text(conversion.field_types) + ") -> Self { Self::"@
        + conversion.variant_name + " { "@ + assignments_text(conversion.members) + " } } } "@
}

/// The conversions into the variants of a tagged union: one for each eligible variant, in
/// the order of the declaration, and nothing for the others.
pub open spec fn from_for_enum_text(target: Seq<char>, variants: Seq<VariantDecl>) -> Seq<char> {
    concatenated(
        eligible_conversions(variants).map_values(
            |conversion: VariantConversionView| from_for_variant_text(target, conversion),
        ),
    )
}

/// Writes the fields of a variant, each given its value.
fn assignments_of(members: &Vec<String>) -> (r: String)
    ensures
        r@ == assignments_text(members.deep_view()),
{
    let count = members.len();
    let mut items: Vec<String> = Vec::new();
    let mut i: usize = 0;
    while i < count
        invariant
            i <= count,
            count == members@.len(),
            items@.len() == i,
            forall|j: int|
                0 <= j < i ==> items@[j]@ == members@[j]@ + ": value"@ + accessor_text(
                    count as nat,
                    j,
                ),
        decreases count - i,
    {
        let mut item = members[i].clone();
        item.append(": value");
        if count != 1 {
            item.append(".");
            item.append(decimal(i).as_str());
        }
        assert(item@ =~= members@[i as int]@ + ": value"@ + accessor_text(count as nat, i as int));
        items.push(item);
        i += 1;
    }
    assert(items.deep_view() =~= Seq::new(
        members@.len(),
        |i: int| members.deep_view()[i] + ": value"@ + accessor_text(members@.len(), i),
    ));
    join(&items, ", ")
}

/// Writes the conversion into one variant.
pub fn tokens_for_from_for_variant(name: &str, conversion: &VariantConversion) -> (r: String)
    ensures
        r@ == from_for_variant_text(name@, conversion@),
{
    let types = tuple_of(&conversion.field_types);
    let assignments = assignments_of(&conversion.members);
    let mut out = String::from_str("impl core::convert::From<");
    out.append(types.as_str());
    out.append("> for ");
    out.append(name);
    out.append(" { fn from(value: ");
    out.append(types.as_str());
    out.append(") -> Self { Self::");
    out.append(conversion.variant_name.as_str());
    out.append(" { ");
    out.append(assignments.as_str());
    out.append(" } } } ");
    out
}

/// Writes the conversions into the variants of a tagged union.
pub fn tokens_for_from_for_enum(name: &str, variants: &Vec<VariantDecl>) -> (r: String)
    ensures
        r@ == from_for_enum_text(name@, variants@),
{
    let conversions = VariantConversion::eligible(variants);
    let ghost all = conversions.deep_view();
    let ghost text_of = |conversion: VariantConversionView| from_for_variant_text(name@, conversion);
    let mut out = String::new();
    let mut i: usize = 0;
    assert(all.take(0).map_values(text_of) =~= Seq::<Seq<char>>::empty());
    while i < conversions.len()
        invariant
            i <= conversions.len(),
            all == conversions.deep_view(),
            text_of == |conversion: VariantConversionView|
                from_for_variant_text(name@, conversion),
            out@ == concatenated(all.take(i as int).map_values(text_of)),
        decreases conversions.len() - i,
    {
        let text = tokens_for_from_for_variant(name, &conversions[i]);
        proof {
            let texts = all.take(i as int).map_values(text_of);
            assert(all.take(i + 1).map_values(text_of) =~= texts.push(text@));
            assert(texts.push(text@).drop_last() =~= texts);
        }
        out.append(text.as_str());
        i += 1;
    }
    assert(all.take(conversions.len() as int) =~= all);
    out
}

} // verus!
