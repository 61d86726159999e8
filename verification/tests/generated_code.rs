// Each test holds a piece of generated code twice: as the text that the generator must give,
// and, word for word, as items of this file, which are compiled and run.

use derive_constructors::{
    constructor, derive_from, derive_try_from, Attribute, FieldDecl, Shape, TypeDecl,
    VariantDecl, VariantField,
};

fn path(name: &str) -> Vec<String> {
    vec![name.to_string()]
}

fn active(name: &str, ty: &str) -> FieldDecl {
    FieldDecl { name: name.to_string(), ty: ty.to_string(), attributes: vec![] }
}

fn passive(name: &str, ty: &str, initializer: Option<&str>) -> FieldDecl {
    FieldDecl {
        name: name.to_string(),
        ty: ty.to_string(),
        attributes: vec![Attribute {
            path: path("no_from"),
            arguments: initializer.map(|text| text.to_string()),
        }],
    }
}

fn record(name: &str, attributes: Vec<Attribute>, fields: Vec<FieldDecl>) -> TypeDecl {
    TypeDecl { name: name.to_string(), attributes, shape: Shape::Record(fields) }
}

#[derive(Debug, PartialEq)]
struct Movie {
    title: String,
    year: u16,
    views: u32,
    cast: Vec<&'static str>,
}

impl core::convert::From<(String, u16)> for Movie { fn from(value: (String, u16)) -> Self { let (title, year) = value; Self { title, year, views: core::default::Default::default(), cast: vec!["Rico", "Vivas"], } } }

impl Movie { pub fn with_year_and_title(year: u16, title: String) -> Self { Self { year, title, cast: Vec :: new (), views: core::default::Default::default(), } } }

fn movie() -> TypeDecl {
    record(
        "Movie",
        vec![],
        vec![
            active("title", "String"),
            active("year", "u16"),
            passive("views", "u32", None),
            passive("cast", "Vec<&'static str>", Some("vec![\"Rico\", \"Vivas\"]")),
        ],
    )
}

#[test]
fn direct_conversion_gives_each_field_its_value() {
    assert_eq!(
        derive_from(&movie()).unwrap(),
        "impl core::convert::From<(String, u16)> for Movie { fn from(value: (String, u16)) -> Self { let (title, year) = value; Self { title, year, views: core::default::Default::default(), cast: vec![\"Rico\", \"Vivas\"], } } }"
    );
    let built = Movie::from(("Jaws".to_string(), 1975));
    assert_eq!(built.title, "Jaws");
    assert_eq!(built.year, 1975);
    assert_eq!(built.views, 0);
    assert_eq!(built.cast, vec!["Rico", "Vivas"]);
}

#[test]
fn named_constructor_takes_the_fields_in_the_listed_order() {
    assert_eq!(
        constructor(
            "named(with_year_and_title), fields(year, title), defaults(cast(Vec::new()))",
            &movie()
        )
        .unwrap(),
        "impl Movie { pub fn with_year_and_title(year: u16, title: String) -> Self { Self { year, title, cast: Vec :: new (), views: core::default::Default::default(), } } }"
    );
    assert_eq!(
        Movie::with_year_and_title(1975, "Jaws".to_string()),
        Movie { title: "Jaws".to_string(), year: 1975, views: 0, cast: vec![] }
    );
}

#[derive(Debug, PartialEq)]
struct Strict(u8);

#[derive(Debug, PartialEq)]
struct Loud(u8);

impl TryFrom<i32> for Strict {
    type Error = String;

    fn try_from(value: i32) -> Result<Self, String> {
        u8::try_from(value).map(Strict).map_err(|_| format!("{value} is no Strict"))
    }
}

impl TryFrom<i32> for Loud {
    type Error = String;

    fn try_from(value: i32) -> Result<Self, String> {
        if value < 0 {
            panic!("the second conversion was attempted");
        }
        u8::try_from(value).map(Loud).map_err(|_| format!("{value} is no Loud"))
    }
}

#[derive(Debug, PartialEq)]
struct Pair {
    first: Strict,
    second: Loud,
}

# [derive (Debug , PartialEq)] pub enum PairBuildError<FirstError, SecondError> { FirstError(FirstError), SecondError(SecondError) } impl Pair { pub fn build<FirstFrom, FirstError, SecondFrom, SecondError>(first: FirstFrom, second: SecondFrom) -> Result<Self, PairBuildError<FirstError, SecondError>> where Strict: TryFrom<FirstFrom, Error = FirstError>, Loud: TryFrom<SecondFrom, Error = SecondError> { let first = <Strict>::try_from(first).map_err(|error| PairBuildError::FirstError(error))?; let second = <Loud>::try_from(second).map_err(|error| PairBuildError::SecondError(error))?; Ok(Pair { first, second, }) } }

#[test]
fn first_failure_wins_and_the_second_is_not_attempted() {
    let pair = record("Pair", vec![], vec![active("first", "Strict"), active("second", "Loud")]);
    assert_eq!(
        constructor(
            "named(build), pattern(TryFrom), error_enum_metadata(#[derive(Debug, PartialEq)])",
            &pair
        )
        .unwrap(),
        "# [derive (Debug , PartialEq)] pub enum PairBuildError<FirstError, SecondError> { FirstError(FirstError), SecondError(SecondError) } impl Pair { pub fn build<FirstFrom, FirstError, SecondFrom, SecondError>(first: FirstFrom, second: SecondFrom) -> Result<Self, PairBuildError<FirstError, SecondError>> where Strict: TryFrom<FirstFrom, Error = FirstError>, Loud: TryFrom<SecondFrom, Error = SecondError> { let first = <Strict>::try_from(first).map_err(|error| PairBuildError::FirstError(error))?; let second = <Loud>::try_from(second).map_err(|error| PairBuildError::SecondError(error))?; Ok(Pair { first, second, }) } }"
    );
    assert_eq!(
        Pair::build(1000, -1),
        Err(PairBuildError::FirstError("1000 is no Strict".to_string()))
    );
    assert_eq!(
        Pair::build(1, 1000),
        Err(PairBuildError::SecondError("1000 is no Loud".to_string()))
    );
    assert_eq!(Pair::build(1, 2), Ok(Pair { first: Strict(1), second: Loud(2) }));
}

#[derive(Debug, PartialEq)]
struct CharacterInfo {
    age: u8,
    name: &'static str,
    id: String,
}

#[derive(Debug)] pub enum CharacterInfoTryFromError<AgeError, NameError> { AgeError(AgeError), NameError(NameError) } impl<AgeFrom, AgeError, NameFrom, NameError> TryFrom<(AgeFrom, NameFrom)> for CharacterInfo where u8: TryFrom<AgeFrom, Error = AgeError>, &'static str: TryFrom<NameFrom, Error = NameError> { type Error = CharacterInfoTryFromError<AgeError, NameError>; fn try_from(value: (AgeFrom, NameFrom)) -> Result<Self, Self::Error> { let (age, name) = value; let age = <u8>::try_from(age).map_err(|error| CharacterInfoTryFromError::AgeError(error))?; let name = <&'static str>::try_from(name).map_err(|error| CharacterInfoTryFromError::NameError(error))?; Ok(CharacterInfo { age, name, id: "Jorge".to_string(), }) } }

#[test]
fn age_that_does_not_fit_fails_as_age() {
    let character = record(
        "CharacterInfo",
        vec![Attribute {
            path: path("enum_error_meta"),
            arguments: Some("#[derive(Debug)]".to_string()),
        }],
        vec![
            active("age", "u8"),
            active("name", "&'static str"),
            passive("id", "String", Some("\"Jorge\".to_string()")),
        ],
    );
    assert_eq!(
        derive_try_from(&character).unwrap(),
        "#[derive(Debug)] pub enum CharacterInfoTryFromError<AgeError, NameError> { AgeError(AgeError), NameError(NameError) } impl<AgeFrom, AgeError, NameFrom, NameError> TryFrom<(AgeFrom, NameFrom)> for CharacterInfo where u8: TryFrom<AgeFrom, Error = AgeError>, &'static str: TryFrom<NameFrom, Error = NameError> { type Error = CharacterInfoTryFromError<AgeError, NameError>; fn try_from(value: (AgeFrom, NameFrom)) -> Result<Self, Self::Error> { let (age, name) = value; let age = <u8>::try_from(age).map_err(|error| CharacterInfoTryFromError::AgeError(error))?; let name = <&'static str>::try_from(name).map_err(|error| CharacterInfoTryFromError::NameError(error))?; Ok(CharacterInfo { age, name, id: \"Jorge\".to_string(), }) } }"
    );
    let overflow = u8::try_from(2003_u16).unwrap_err();
    match CharacterInfo::try_from((2003_u16, "Jorge")) {
        Err(CharacterInfoTryFromError::AgeError(error)) => assert_eq!(error, overflow),
        other => panic!("expected the age to fail, got {other:?}"),
    }
    assert_eq!(
        CharacterInfo::try_from((23_u16, "Jorge")).unwrap(),
        CharacterInfo { age: 23, name: "Jorge", id: "Jorge".to_string() }
    );
}

#[derive(Debug, PartialEq)]
enum Value {
    V0 {},
    V1(i32),
    V2(i32, bool),
    Skipped(String),
    Named { low: u8, high: u16 },
}

impl core::convert::From<()> for Value { fn from(value: ()) -> Self { Self::V0 {  } } } impl core::convert::From<(i32)> for Value { fn from(value: (i32)) -> Self { Self::V1 { 0: value } } } impl core::convert::From<(i32, bool)> for Value { fn from(value: (i32, bool)) -> Self { Self::V2 { 0: value.0, 1: value.1 } } } impl core::convert::From<(u8, u16)> for Value { fn from(value: (u8, u16)) -> Self { Self::Named { low: value.0, high: value.1 } } } 

#[test]
fn each_eligible_variant_is_built_from_its_fields() {
    let positional = |ty: &str| VariantField { name: None, ty: ty.to_string() };
    let named = |name: &str, ty: &str| VariantField {
        name: Some(name.to_string()),
        ty: ty.to_string(),
    };
    let variant = |name: &str, skip: bool, fields: Vec<VariantField>| VariantDecl {
        name: name.to_string(),
        attributes: if skip {
            vec![Attribute { path: path("no_from"), arguments: None }]
        } else {
            vec![]
        },
        fields,
    };
    let value = TypeDecl {
        name: "Value".to_string(),
        attributes: vec![],
        shape: Shape::TaggedUnion(vec![
            variant("V0", false, vec![]),
            variant("V1", false, vec![positional("i32")]),
            variant("V2", false, vec![positional("i32"), positional("bool")]),
            variant("Skipped", true, vec![positional("String")]),
            variant("Named", false, vec![named("low", "u8"), named("high", "u16")]),
        ]),
    };
    let text = derive_from(&value).unwrap();
    assert_eq!(
        text,
        "impl core::convert::From<()> for Value { fn from(value: ()) -> Self { Self::V0 {  } } } impl core::convert::From<(i32)> for Value { fn from(value: (i32)) -> Self { Self::V1 { 0: value } } } impl core::convert::From<(i32, bool)> for Value { fn from(value: (i32, bool)) -> Self { Self::V2 { 0: value.0, 1: value.1 } } } impl core::convert::From<(u8, u16)> for Value { fn from(value: (u8, u16)) -> Self { Self::Named { low: value.0, high: value.1 } } } "
    );
    assert!(!text.contains("Skipped"));
    assert_eq!(Value::from(()), Value::V0 {});
    assert_eq!(Value::from(7), Value::V1(7));
    assert_eq!(Value::from((7, true)), Value::V2(7, true));
    assert_eq!(Value::from((1_u8, 2_u16)), Value::Named { low: 1, high: 2 });
    assert_eq!(Value::Skipped("kept".to_string()), Value::Skipped("kept".to_string()));
}
