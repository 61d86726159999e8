//! The three generation requests: a constructor configured by an annotation, and the
//! conversions that markers on the declaration ask for.

use vstd::prelude::*;
use vstd::string::*;
use crate::decl::{Shape, TypeDecl};
use crate::emit::{
    from_for_enum_text, from_for_struct_text, tokens_for_from_for_enum,
    tokens_for_from_for_struct, tokens_for_try_from_for_struct, try_from_for_struct_text,
};
use crate::error::{GenerationError, GenerationErrorView};
use crate::fallible::{
    configured_try_from_info, marked_try_from_info, TryFromInfo, TryFromInfoView,
};
use crate::fields::{configured_fields, marked_fields, FieldsInfo, FieldsInfoView};
use crate::groups::{find_group, group_named, groups_of, idents_and_groups_from, ParseErrorView};
use crate::naming::{require_identifier, required_identifier};
use crate::text::{lowercase, lowercased, same_text};

verus! {

/// Whether a generated constructor can fail.
#[derive(Clone, Copy, Debug, PartialEq, Eq, Structural)]
pub enum Pattern {
    /// It takes each active field as it is.
    From,
    /// It converts each active field, and each conversion may fail.
    TryFrom,
}

/// The pattern of a name in lower case: `from` and `tryfrom` are the two patterns, and
/// every other name is refused.
pub open spec fn pattern_called(name: Seq<char>) -> Result<Pattern, GenerationErrorView> {
    if name == "from"@ {
        Ok(Pattern::From)
    } else if name == "tryfrom"@ {
        Ok(Pattern::TryFrom)
    } else {
        Err(GenerationErrorView::UnsupportedPattern(name))
    }
}

impl Pattern {
    /// Tells the pattern of a name in lower case.
    pub fn from_name(name: &str) -> (r: Result<Pattern, GenerationError>)
        ensures
            match r {
                Ok(pattern) => pattern_called(name@) == Ok::<_, GenerationErrorView>(pattern),
                Err(error) => pattern_called(name@) == Err::<Pattern, _>(error@),
            },
    {
        if same_text(name, "from") {
            Ok(Pattern::From)
        } else if same_text(name, "tryfrom") {
            Ok(Pattern::TryFrom)
        } else {
            Err(GenerationError::UnsupportedPattern(String::from_str(name)))
        }
    }
}

/// The pattern that an annotation asks for: that of its `pattern` entry, read without
/// regard to case, and `From` where there is no such entry.
pub open spec fn chosen_pattern(entries: Seq<(Seq<char>, Seq<char>)>) -> Result<
    Pattern,
    GenerationErrorView,
> {
    match group_named(entries, "pattern"@) {
        None => Ok(Pattern::From),
        Some(text) => pattern_called(lowercased(text)),
    }
}

/// The function name that an annotation asks for: the identifier in its `named` entry, and
/// none where there is no such entry.
pub open spec fn chosen_function(entries: Seq<(Seq<char>, Seq<char>)>) -> Result<
    Option<Seq<char>>,
    ParseErrorView,
> {
    match group_named(entries, "named"@) {
        None => Ok(None),
        Some(text) => match required_identifier(text) {
            Ok(name) => Ok(Some(name)),
            Err(error) => Err(error),
        },
    }
}

/// One generation request for a record, resolved: what is to be generated, for which type,
/// from which fields.
#[derive(Clone, Debug, PartialEq, Eq)]
pub struct GenerationRequest {
    /// The name of the record.
    pub target: String,
    /// Whether the constructor can fail.
    pub pattern: Pattern,
    /// The name of the function to generate; without one, a trait implementation is
    /// generated.
    pub function_name: Option<String>,
    /// The fields as the constructor treats them.
    pub field_set: FieldsInfo,
    /// The error enumeration, which a fallible constructor has and no other.
    pub error_shape: Option<TryFromInfo>,
}

/// A [`GenerationRequest`] as contracts see it.
pub struct GenerationRequestView {
    pub target: Seq<char>,
    pub pattern: Pattern,
    pub function_name: Option<Seq<char>>,
    pub field_set: FieldsInfoView,
    pub error_shape: Option<TryFromInfoView>,
}

impl View for GenerationRequest {
    type V = GenerationRequestView;

    open spec fn view(&self) -> GenerationRequestView {
        GenerationRequestView {
            target: self.target@,
            pattern: self.pattern,
            function_name: self.function_name.deep_view(),
            field_set: self.field_set@,
            error_shape: match self.error_shape {
                Some(shape) => Some(shape@),
                None => None,
            },
        }
    }
}

impl GenerationRequestView {
    /// Each field has its type or its initializer; there is an error enumeration exactly
    /// where the constructor can fail, and it has a variant for each active field.
    pub open spec fn wf(self) -> bool {
        &&& self.field_set.wf()
        &&& self.error_shape is Some <==> self.pattern == Pattern::TryFrom
        &&& self.error_shape matches Some(shape) ==> shape.fits(self.field_set)
    }

    /// The code that meets the request.
    pub open spec fn text(self) -> Seq<char> {
        match self.error_shape {
            None => from_for_struct_text(self.target, self.field_set, self.function_name),
            Some(shape) => try_from_for_struct_text(
                self.target,
                self.field_set,
                shape,
                self.function_name,
            ),
        }
    }
}

/// The request that the annotation `attr` on the declaration `item` makes.
///
/// Only a record can carry it. The annotation is read by the grammar
/// `name(group), name(group), ...`; its entries choose the function name, the pattern, the
/// fields and, for the fallible pattern, the error enumeration. The first step that fails
/// decides the refusal, in this order.
pub open spec fn annotated_request(attr: Seq<char>, item: TypeDecl) -> Result<
    GenerationRequestView,
    GenerationErrorView,
> {
    match item.shape {
        Shape::Record(fields) => match groups_of(attr) {
            Err(error) => Err(GenerationErrorView::MalformedAnnotation(error)),
            Ok(entries) => match chosen_function(entries) {
                Err(error) => Err(GenerationErrorView::MalformedAnnotation(error)),
                Ok(function_name) => match chosen_pattern(entries) {
                    Err(error) => Err(error),
                    Ok(pattern) => match configured_fields(fields@, entries) {
                        Err(error) => Err(error),
                        Ok(field_set) => match pattern {
                            Pattern::From => Ok(
                                GenerationRequestView {
                                    target: item.name@,
                                    pattern,
                                    function_name,
                                    field_set,
                                    error_shape: None,
                                },
                            ),
                            Pattern::TryFrom => match configured_try_from_info(
                                item.name@,
                                field_set.fields_names,
                                function_name,
                                entries,
                            ) {
                                Err(error) => Err(error),
                                Ok(shape) => Ok(
                                    GenerationRequestView {
                                        target: item.name@,
                                        pattern,
                                        function_name,
                                        field_set,
                                        error_shape: Some(shape),
                                    },
                                ),
                            },
                        },
                    },
                },
            },
        },
        _ => Err(GenerationErrorView::UnsupportedShape),
    }
}

/// The request that the markers on the declaration `item` make for a trait implementation
/// of the given pattern. Only a record can carry it.
pub open spec fn marked_request(item: TypeDecl, pattern: Pattern) -> Result<
    GenerationRequestView,
    GenerationErrorView,
> {
    match item.shape {
        Shape::Record(fields) => match pattern {
            Pattern::From => Ok(
                GenerationRequestView {
                    target: item.name@,
                    pattern,
                    function_name: None,
                    field_set: marked_fields(fields@),
                    error_shape: None,
                },
            ),
            Pattern::TryFrom => match marked_try_from_info(
                item.name@,
                item.attributes@,
                marked_fields(fields@).fields_names,
            ) {
                Err(error) => Err(error),
                Ok(shape) => Ok(
                    GenerationRequestView {
                        target: item.name@,
                        pattern,
                        function_name: None,
                        field_set: marked_fields(fields@),
                        error_shape: Some(shape),
                    },
                ),
            },
        },
        _ => Err(GenerationErrorView::UnsupportedShape),
    }
}

/// What the annotation `attr` on the declaration `item` generates: the code that meets its
/// request.
pub open spec fn constructor_text(attr: Seq<char>, item: TypeDecl) -> Result<
    Seq<char>,
    GenerationErrorView,
> {
    match annotated_request(attr, item) {
        Ok(request) => Ok(request.text()),
        Err(error) => Err(error),
    }
}

/// What the request for infallible conversions generates: for a tagged union the
/// conversions into its variants, for a record the implementation of `From` by its markers.
pub open spec fn derived_from_text(item: TypeDecl) -> Result<Seq<char>, GenerationErrorView> {
    match item.shape {
        Shape::TaggedUnion(variants) => Ok(from_for_enum_text(item.name@, variants@)),
        _ => match marked_request(item, Pattern::From) {
            Ok(request) => Ok(request.text()),
            Err(error) => Err(error),
        },
    }
}

/// What the request for a fallible conversion generates: for a record the implementation of
/// `TryFrom` by its markers, with its error enumeration.
pub open spec fn derived_try_from_text(item: TypeDecl) -> Result<Seq<char>, GenerationErrorView> {
    match marked_request(item, Pattern::TryFrom) {
        Ok(request) => Ok(request.text()),
        Err(error) => Err(error),
    }
}

/// Reads the pattern that an annotation asks for.
fn choose_pattern(attr_contents: &Vec<(String, String)>) -> (r: Result<Pattern, GenerationError>)
    ensures
        match r {
            Ok(pattern) => chosen_pattern(attr_contents.deep_view()) == Ok::<
                _,
                GenerationErrorView,
            >(pattern),
            Err(error) => chosen_pattern(attr_contents.deep_view()) == Err::<Pattern, _>(error@),
        },
{
    match find_group(attr_contents, "pattern") {
        None => Ok(Pattern::From),
        Some(text) => Pattern::from_name(lowercase(text.as_str()).as_str()),
    }
}

/// Reads the function name that an annotation asks for.
fn choose_function(attr_contents: &Vec<(String, String)>) -> (r: Result<
    Option<String>,
    GenerationError,
>)
    ensures
        match r {
            Ok(function) => chosen_function(attr_contents.deep_view()) == Ok::<_, ParseErrorView>(
                function.deep_view(),
            ),
            Err(error) => error@ matches GenerationErrorView::MalformedAnnotation(inner)
                && chosen_function(attr_contents.deep_view()) == Err::<Option<Seq<char>>, _>(
                inner,
            ),
        },
{
    match find_group(attr_contents, "named") {
        None => Ok(None),
        Some(text) => match require_identifier(text.as_str()) {
            Ok(name) => Ok(Some(name)),
            Err(error) => Err(GenerationError::MalformedAnnotation(error)),
        },
    }
}

impl GenerationRequest {
    /// Resolves the request that the annotation `attr` on the declaration `item` makes.
    pub fn from_annotation(attr: &str, item: &TypeDecl) -> (r: Result<
        GenerationRequest,
        GenerationError,
    >)
        ensures
            match r {
                Ok(request) => annotated_request(attr@, *item) == Ok::<_, GenerationErrorView>(
                    request@,
                ),
                Err(error) => annotated_request(attr@, *item) == Err::<GenerationRequestView, _>(
                    error@,
                ),
            },
            r matches Ok(request) ==> request@.wf(),
    {
        let fields = match &item.shape {
            Shape::Record(fields) => fields,
            _ => {
                return Err(GenerationError::UnsupportedShape);
            },
        };
        let attr_contents = match idents_and_groups_from(attr) {
            Ok(entries) => entries,
            Err(error) => {
                return Err(GenerationError::MalformedAnnotation(error));
            },
        };
        let function_name = match choose_function(&attr_contents) {
            Ok(function) => function,
            Err(error) => {
                return Err(error);
            },
        };
        let pattern = match choose_pattern(&attr_contents) {
            Ok(pattern) => pattern,
            Err(error) => {
                return Err(error);
            },
        };
        let field_set = match FieldsInfo::new_from_macro_attribute_info(fields, &attr_contents) {
            Ok(info) => info,
            Err(error) => {
                return Err(error);
            },
        };
        let error_shape = match pattern {
            Pattern::From => None,
            Pattern::TryFrom => match TryFromInfo::new_from_macro_attribute_info(
                item.name.as_str(),
                &field_set,
                function_name.as_ref(),
                &attr_contents,
            ) {
                Ok(shape) => Some(shape),
                Err(error) => {
                    return Err(error);
                },
            },
        };
        Ok(
            GenerationRequest {
                target: item.name.clone(),
                pattern,
                function_name,
                field_set,
                error_shape,
            },
        )
    }

    /// Resolves the request that the markers on the declaration `item` make for a trait
    /// implementation of the given pattern.
    pub fn from_markers(item: &TypeDecl, pattern: Pattern) -> (r: Result<
        GenerationRequest,
        GenerationError,
    >)
        ensures
            match r {
                Ok(request) => marked_request(*item, pattern) == Ok::<_, GenerationErrorView>(
                    request@,
                ),
                Err(error) => marked_request(*item, pattern) == Err::<GenerationRequestView, _>(
                    error@,
                ),
            },
            r matches Ok(request) ==> request@.wf(),
    {
        let fields = match &item.shape {
            Shape::Record(fields) => fields,
            _ => {
                return Err(GenerationError::UnsupportedShape);
            },
        };
        let field_set = FieldsInfo::new_from_derive_data_struct(fields);
        let error_shape = match pattern {
            Pattern::From => None,
            Pattern::TryFrom => match TryFromInfo::new(
                item.name.as_str(),
                &item.attributes,
                &field_set.fields_names,
            ) {
                Ok(shape) => Some(shape),
                Err(error) => {
                    return Err(error);
                },
            },
        };
        Ok(
            GenerationRequest {
                target: item.name.clone(),
                pattern,
                function_name: None,
                field_set,
                error_shape,
            },
        )
    }

    /// Writes the code that meets the request.
    pub fn emit(&self) -> (r: String)
        requires
            self@.wf(),
        ensures
            r@ == self@.text(),
    {
        match &self.error_shape {
            None => tokens_for_from_for_struct(
                self.target.as_str(),
                &self.field_set,
                self.function_name.as_ref(),
            ),
            Some(shape) => tokens_for_try_from_for_struct(
                self.target.as_str(),
                &self.field_set,
                shape,
                self.function_name.as_ref(),
            ),
        }
    }
}

/// Generates the constructor that the annotation `attr` on the record `item` asks for. The
/// result is the generated code alone; the declaration itself is not part of it.
pub fn constructor(attr: &str, item: &TypeDecl) -> (r: Result<String, GenerationError>)
    ensures
        match r {
            Ok(text) => constructor_text(attr@, *item) == Ok::<_, GenerationErrorView>(text@),
            Err(error) => constructor_text(attr@, *item) == Err::<Seq<char>, _>(error@),
        },
{
    match GenerationRequest::from_annotation(attr, item) {
        Ok(request) => Ok(request.emit()),
        Err(error) => Err(error),
    }
}

/// Generates the infallible conversions for a declaration with markers: for a record the
/// implementation of `From`, for a tagged union one conversion into each variant that is
/// not skipped.
pub fn derive_from(input: &TypeDecl) -> (r: Result<String, GenerationError>)
    ensures
        match r {
            Ok(text) => derived_from_text(*input) == Ok::<_, GenerationErrorView>(text@),
            Err(error) => derived_from_text(*input) == Err::<Seq<char>, _>(error@),
        },
{
    match &input.shape {
        Shape::TaggedUnion(variants) => Ok(tokens_for_from_for_enum(input.name.as_str(), variants)),
        _ => match GenerationRequest::from_markers(input, Pattern::From) {
            Ok(request) => Ok(request.emit()),
            Err(error) => Err(error),
        },
    }
}

/// Generates the fallible conversion for a record with markers: the error enumeration and
/// the implementation of `TryFrom`.
pub fn derive_try_from(input: &TypeDecl) -> (r: Result<String, GenerationError>)
    ensures
        match r {
            Ok(text) => derived_try_from_text(*input) == Ok::<_, GenerationErrorView>(text@),
            Err(error) => derived_try_from_text(*input) == Err::<Seq<char>, _>(error@),
        },
{
    match GenerationRequest::from_markers(input, Pattern::TryFrom) {
        Ok(request) => Ok(request.emit()),
        Err(error) => Err(error),
    }
}

/// The diagnostic hook of the generator: it is handed a title and a text, each as a
/// function that would compute it, and does nothing with them. Neither function is called.
pub fn print_info<TNameRet, TInfoRet, TName, TInfo>(_name: TName, _info: TInfo)
    where
        TNameRet: ToString,
        TInfoRet: ToString,
        TName: FnOnce() -> TNameRet,
        TInfo: FnOnce() -> TInfoRet,
{
}

} // verus!
