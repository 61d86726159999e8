//! The error enumeration that goes with a fallible constructor: its name, what is attached
//! to it, and for each active field the name of its variant and of the type it is converted
//! from.

use vstd::prelude::*;
use vstd::string::*;
use crate::decl::{attribute_called, find_attribute, Attribute};
use crate::error::{GenerationError, GenerationErrorView};
use crate::fields::{FieldsInfo, FieldsInfoView};
use crate::groups::{find_group, group_named, ParseError, ParseErrorView};
use crate::naming::{
    all_identifiers, pascal_case, pascal_cased, require_all_identifiers, require_identifier,
    required_identifier, suffix_all, suffixed,
};

verus! {

/// What a fallible constructor needs beside the fields.
#[derive(Clone, Debug, PartialEq, Eq)]
pub struct TryFromInfo {
    /// What is attached to the error enumeration, carried through as it was given.
    pub error_enum_metadata: String,
    /// The name of the error enumeration.
    pub error_enum_name: String,
    /// For each active field the name of its variant, which is also the name of the type
    /// that the variant holds.
    pub error_types: Vec<String>,
    /// For each active field the name of the type it is converted from.
    pub try_from_types: Vec<String>,
}

/// A [`TryFromInfo`] as contracts see it.
pub struct TryFromInfoView {
    pub error_enum_metadata: Seq<char>,
    pub error_enum_name: Seq<char>,
    pub error_types: Seq<Seq<char>>,
    pub try_from_types: Seq<Seq<char>>,
}

impl View for TryFromInfo {
    type V = TryFromInfoView;

    open spec fn view(&self) -> TryFromInfoView {
        TryFromInfoView {
            error_enum_metadata: self.error_enum_metadata@,
            error_enum_name: self.error_enum_name@,
            error_types: self.error_types.deep_view(),
            try_from_types: self.try_from_types.deep_view(),
        }
    }
}

impl TryFromInfoView {
    /// There is one variant and one source type for each active field.
    pub open spec fn fits(self, fields: FieldsInfoView) -> bool {
        &&& self.error_types.len() == fields.fields_names.len()
        &&& self.try_from_types.len() == fields.fields_names.len()
    }
}

/// The name of the annotation that holds what is attached to the error enumeration.
pub open spec fn metadata_marker() -> Seq<char> {
    "enum_error_meta"@
}

/// The names for the fields: for each the variant, its name in Pascal case with `Error`
/// behind it, and the source type, the same with `From` behind it. Each must be an
/// identifier; the first that is none is refused, the variants before the source types.
pub open spec fn per_field_types(fields_names: Seq<Seq<char>>) -> Result<
    (Seq<Seq<char>>, Seq<Seq<char>>),
    ParseErrorView,
> {
    match all_identifiers(suffixed(fields_names, "Error"@)) {
        Err(error) => Err(error),
        Ok(error_types) => match all_identifiers(suffixed(fields_names, "From"@)) {
            Err(error) => Err(error),
            Ok(try_from_types) => Ok((error_types, try_from_types)),
        },
    }
}

/// The name of the error enumeration where none is given: the type's name, the function's
/// name (or `TryFrom` for a trait implementation) and `error`, joined by `_` and written in
/// Pascal case. `Foo` with `new` gives `FooNewError`.
pub open spec fn synthesized_enum_name(target_name: Seq<char>, function_name: Option<Seq<char>>) -> Result<
    Seq<char>,
    ParseErrorView,
> {
    let function = match function_name {
        Some(name) => name,
        None => "TryFrom"@,
    };
    required_identifier(pascal_cased(target_name + "_"@ + function + "_error"@))
}

/// What is attached to the error enumeration by a marker on the type: the arguments of the
/// first `enum_error_meta` annotation, nothing where there is none. Such an annotation
/// without arguments is refused as a name without its group.
pub open spec fn marked_metadata(attributes: Seq<Attribute>) -> Result<Seq<char>, ParseErrorView> {
    match attribute_called(attributes, metadata_marker()) {
        None => Ok(Seq::empty()),
        Some(Attribute { path: _, arguments: Some(metadata) }) => Ok(metadata@),
        Some(Attribute { path: _, arguments: None }) => Err(
            ParseErrorView::ExpectedGroup { position: 0, after: metadata_marker() },
        ),
    }
}

/// The error enumeration for a trait implementation on a type with markers.
pub open spec fn marked_try_from_info(
    target_name: Seq<char>,
    attributes: Seq<Attribute>,
    fields_names: Seq<Seq<char>>,
) -> Result<TryFromInfoView, GenerationErrorView> {
    match marked_metadata(attributes) {
        Err(error) => Err(GenerationErrorView::MalformedAnnotation(error)),
        Ok(error_enum_metadata) => match synthesized_enum_name(target_name, None) {
            Err(error) => Err(GenerationErrorView::MalformedAnnotation(error)),
            Ok(error_enum_name) => match per_field_types(fields_names) {
                Err(error) => Err(GenerationErrorView::MalformedAnnotation(error)),
                Ok((error_types, try_from_types)) => Ok(
                    TryFromInfoView {
                        error_enum_metadata,
                        error_enum_name,
                        error_types,
                        try_from_types,
                    },
                ),
            },
        },
    }
}

/// The name of the error enumeration by an annotation: the identifier in the
/// `error_enum_named` entry, or the synthesized name where there is no such entry.
pub open spec fn configured_enum_name(
    target_name: Seq<char>,
    function_name: Option<Seq<char>>,
    entries: Seq<(Seq<char>, Seq<char>)>,
) -> Result<Seq<char>, ParseErrorView> {
    match group_named(entries, "error_enum_named"@) {
        Some(text) => required_identifier(text),
        None => synthesized_enum_name(target_name, function_name),
    }
}

/// What is attached to the error enumeration by an annotation: the group of the
/// `error_enum_metadata` entry, nothing where there is no such entry.
pub open spec fn configured_metadata(entries: Seq<(Seq<char>, Seq<char>)>) -> Seq<char> {
    match group_named(entries, "error_enum_metadata"@) {
        Some(text) => text,
        None => Seq::empty(),
    }
}

/// The error enumeration by the entries of an annotation.
pub open spec fn configured_try_from_info(
    target_name: Seq<char>,
    fields_names: Seq<Seq<char>>,
    function_name: Option<Seq<char>>,
    entries: Seq<(Seq<char>, Seq<char>)>,
) -> Result<TryFromInfoView, GenerationErrorView> {
    match configured_enum_name(target_name, function_name, entries) {
        Err(error) => Err(GenerationErrorView::MalformedAnnotation(error)),
        Ok(error_enum_name) => match per_field_types(fields_names) {
            Err(error) => Err(GenerationErrorView::MalformedAnnotation(error)),
            Ok((error_types, try_from_types)) => Ok(
                TryFromInfoView {
                    error_enum_metadata: configured_metadata(entries),
                    error_enum_name,
                    error_types,
                    try_from_types,
                },
            ),
        },
    }
}

/// The identifiers that `all_identifiers` accepts are as many as the texts.
proof fn lemma_all_identifiers_len(items: Seq<Seq<char>>)
    ensures
        all_identifiers(items) matches Ok(identifiers) ==> identifiers.len() == items.len(),
    decreases items.len(),
{
    if items.len() > 0 {
        lemma_all_identifiers_len(items.drop_last());
    }
}

/// Makes the name of the error enumeration where none is given.
fn synthesize_enum_name(target_name: &str, function_name: Option<&String>) -> (r: Result<
    String,
    ParseError,
>)
    ensures
        match r {
            Ok(name) => synthesized_enum_name(target_name@, function_name.deep_view()) == Ok::<
                _,
                ParseErrorView,
            >(name@),
            Err(error) => synthesized_enum_name(target_name@, function_name.deep_view()) == Err::<
                Seq<char>,
                _,
            >(error@),
        },
{
    let mut snake = String::from_str(target_name);
    snake.append("_");
    match function_name {
        Some(name) => snake.append(name.as_str()),
        None => snake.append("TryFrom"),
    }
    snake.append("_error");
    let pascal = pascal_case(snake.as_str());
    require_identifier(pascal.as_str())
}

impl TryFromInfo {
    /// Names the variant and the source type of each field.
    pub fn error_types_and_try_from_types(fields_names: &Vec<String>) -> (r: Result<
        (Vec<String>, Vec<String>),
        ParseError,
    >)
        ensures
            match r {
                Ok(types) => per_field_types(fields_names.deep_view()) == Ok::<_, ParseErrorView>(
                    (types.0.deep_view(), types.1.deep_view()),
                ),
                Err(error) => per_field_types(fields_names.deep_view()) == Err::<
                    (Seq<Seq<char>>, Seq<Seq<char>>),
                    _,
                >(error@),
            },
            r matches Ok(types) ==> types.0@.len() == fields_names@.len() && types.1@.len()
                == fields_names@.len(),
    {
        proof {
            lemma_all_identifiers_len(suffixed(fields_names.deep_view(), "Error"@));
            lemma_all_identifiers_len(suffixed(fields_names.deep_view(), "From"@));
        }
        let error_types = match require_all_identifiers(&suffix_all(fields_names, "Error")) {
            Ok(names) => names,
            Err(error) => {
                return Err(error);
            },
        };
        let try_from_types = match require_all_identifiers(&suffix_all(fields_names, "From")) {
            Ok(names) => names,
            Err(error) => {
                return Err(error);
            },
        };
        Ok((error_types, try_from_types))
    }

    /// Describes the error enumeration for a trait implementation on a type with markers.
    pub fn new(name: &str, attrs: &Vec<Attribute>, fields_names: &Vec<String>) -> (r: Result<
        TryFromInfo,
        GenerationError,
    >)
        ensures
            match r {
                Ok(info) => marked_try_from_info(name@, attrs@, fields_names.deep_view()) == Ok::<
                    _,
                    GenerationErrorView,
                >(info@),
                Err(error) => marked_try_from_info(name@, attrs@, fields_names.deep_view())
                    == Err::<TryFromInfoView, _>(error@),
            },
            r matches Ok(info) ==> info.error_types@.len() == fields_names@.len()
                && info.try_from_types@.len() == fields_names@.len(),
    {
        let error_enum_metadata = match find_attribute(attrs, "enum_error_meta") {
            None => String::new(),
            Some(attribute) => match &attribute.arguments {
                Some(metadata) => metadata.clone(),
                None => {
                    return Err(
                        GenerationError::MalformedAnnotation(
                            ParseError::ExpectedGroup {
                                position: 0,
                                after: String::from_str("enum_error_meta"),
                            },
                        ),
                    );
                },
            },
        };
        let error_enum_name = match synthesize_enum_name(name, None) {
            Ok(name) => name,
            Err(error) => {
                return Err(GenerationError::MalformedAnnotation(error));
            },
        };
        let (error_types, try_from_types) = match Self::error_types_and_try_from_types(
            fields_names,
        ) {
            Ok(types) => types,
            Err(error) => {
                return Err(GenerationError::MalformedAnnotation(error));
            },
        };
        Ok(TryFromInfo { error_enum_metadata, error_enum_name, error_types, try_from_types })
    }

    /// Describes the error enumeration by the entries of an annotation.
    pub fn new_from_macro_attribute_info(
        target_name: &str,
        fields_info: &FieldsInfo,
        constructor_fn_name: Option<&String>,
        attr_contents: &Vec<(String, String)>,
    ) -> (r: Result<TryFromInfo, GenerationError>)
        ensures
            match r {
                Ok(info) => configured_try_from_info(
                    target_name@,
                    fields_info@.fields_names,
                    constructor_fn_name.deep_view(),
                    attr_contents.deep_view(),
                ) == Ok::<_, GenerationErrorView>(info@),
                Err(error) => configured_try_from_info(
                    target_name@,
                    fields_info@.fields_names,
                    constructor_fn_name.deep_view(),
                    attr_contents.deep_view(),
                ) == Err::<TryFromInfoView, _>(error@),
            },
            r matches Ok(info) ==> info@.fits(fields_info@),
    {
        let error_enum_metadata = match find_group(attr_contents, "error_enum_metadata") {
            Some(metadata) => metadata,
            None => String::new(),
        };
        let error_enum_name = match find_group(attr_contents, "error_enum_named") {
            Some(text) => match require_identifier(text.as_str()) {
                Ok(name) => name,
                Err(error) => {
                    return Err(GenerationError::MalformedAnnotation(error));
                },
            },
            None => match synthesize_enum_name(target_name, constructor_fn_name) {
                Ok(name) => name,
                Err(error) => {
                    return Err(GenerationError::MalformedAnnotation(error));
                },
            },
        };
        let (error_types, try_from_types) = match Self::error_types_and_try_from_types(
            &fields_info.fields_names,
        ) {
            Ok(types) => types,
            Err(error) => {
                return Err(GenerationError::MalformedAnnotation(error));
            },
        };
        Ok(TryFromInfo { error_enum_metadata, error_enum_name, error_types, try_from_types })
    }
}

} // verus!
