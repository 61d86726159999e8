use derive_constructors::{
    find_attribute, Attribute, FieldDecl, FieldsInfo, GenerationError, ParseError,
};

const DEFAULT: &str = "core::default::Default::default()";

fn texts(items: &[&str]) -> Vec<String> {
    items.iter().map(|item| item.to_string()).collect()
}

fn plain(name: &str, ty: &str) -> FieldDecl {
    FieldDecl { name: name.to_string(), ty: ty.to_string(), attributes: vec![] }
}

fn attribute(path: &[&str], arguments: Option<&str>) -> Attribute {
    Attribute { path: texts(path), arguments: arguments.map(|text| text.to_string()) }
}

fn skipped(name: &str, ty: &str, initializer: Option<&str>) -> FieldDecl {
    FieldDecl {
        name: name.to_string(),
        ty: ty.to_string(),
        attributes: vec![attribute(&["no_from"], initializer)],
    }
}

fn entry(name: &str, group: &str) -> (String, String) {
    (name.to_string(), group.to_string())
}

fn character() -> Vec<FieldDecl> {
    vec![
        plain("name", "String"),
        plain("age", "u8"),
        plain("times_appeared", "u8"),
        plain("years_studied", "u8"),
    ]
}

#[test]
fn markers_part_the_fields() {
    let fields = vec![
        plain("name", "String"),
        plain("age", "u8"),
        skipped("times_appeared", "u8", None),
        skipped("years_studied", "u8", Some("4")),
    ];
    assert_eq!(
        FieldsInfo::new_from_derive_data_struct(&fields),
        FieldsInfo {
            fields_names: texts(&["name", "age"]),
            fields_types: texts(&["String", "u8"]),
            no_from_fields: texts(&["times_appeared", "years_studied"]),
            no_from_fields_initializers: texts(&[DEFAULT, "4"]),
        }
    );
}

#[test]
fn markers_keep_declaration_order() {
    let fields = vec![
        skipped("id", "String", Some("\"Jorge\".to_string()")),
        plain("age", "u8"),
        skipped("movies", "u8", None),
        plain("name", "&'static str"),
    ];
    let info = FieldsInfo::new_from_derive_data_struct(&fields);
    assert_eq!(info.fields_names, texts(&["age", "name"]));
    assert_eq!(info.fields_types, texts(&["u8", "&'static str"]));
    assert_eq!(info.no_from_fields, texts(&["id", "movies"]));
    assert_eq!(info.no_from_fields_initializers, texts(&["\"Jorge\".to_string()", DEFAULT]));
}

#[test]
fn record_without_fields_has_no_fields() {
    assert_eq!(
        FieldsInfo::new_from_derive_data_struct(&vec![]),
        FieldsInfo {
            fields_names: vec![],
            fields_types: vec![],
            no_from_fields: vec![],
            no_from_fields_initializers: vec![],
        }
    );
}

#[test]
fn first_marker_of_a_field_counts() {
    let mut field = skipped("a", "u8", Some("1"));
    field.attributes.push(attribute(&["no_from"], Some("2")));
    let info = FieldsInfo::new_from_derive_data_struct(&vec![field]);
    assert_eq!(info.no_from_fields_initializers, texts(&["1"]));
}

#[test]
fn marker_is_found_by_its_whole_path() {
    let attributes = vec![
        attribute(&["doc"], None),
        attribute(&["some", "no_from"], Some("1")),
        attribute(&["no_from"], Some("2")),
        attribute(&["no_from"], Some("3")),
    ];
    assert_eq!(find_attribute(&attributes, "no_from"), Some(&attributes[2]));
    assert_eq!(find_attribute(&attributes, "doc"), Some(&attributes[0]));
    assert_eq!(find_attribute(&attributes, "some"), None);
    assert_eq!(find_attribute(&vec![], "no_from"), None);
}

#[test]
fn field_with_a_longer_path_is_active() {
    let mut field = plain("a", "u8");
    field.attributes.push(attribute(&["other", "no_from"], None));
    let info = FieldsInfo::new_from_derive_data_struct(&vec![field]);
    assert_eq!(info.fields_names, texts(&["a"]));
    assert_eq!(info.no_from_fields, texts(&[]));
}

#[test]
fn empty_annotation_makes_every_field_active() {
    assert_eq!(
        FieldsInfo::new_from_macro_attribute_info(&character(), &vec![]),
        Ok(FieldsInfo {
            fields_names: texts(&["name", "age", "times_appeared", "years_studied"]),
            fields_types: texts(&["String", "u8", "u8", "u8"]),
            no_from_fields: vec![],
            no_from_fields_initializers: vec![],
        })
    );
}

#[test]
fn fields_and_defaults_are_followed() {
    let entries = vec![entry("fields", "name , age"), entry("defaults", "years_studied (4)")];
    assert_eq!(
        FieldsInfo::new_from_macro_attribute_info(&character(), &entries),
        Ok(FieldsInfo {
            fields_names: texts(&["name", "age"]),
            fields_types: texts(&["String", "u8"]),
            no_from_fields: texts(&["years_studied", "times_appeared"]),
            no_from_fields_initializers: texts(&["4", DEFAULT]),
        })
    );
}

#[test]
fn fields_give_the_order_of_the_arguments() {
    let entries = vec![entry("fields", "age,name")];
    let info = FieldsInfo::new_from_macro_attribute_info(&character(), &entries).unwrap();
    assert_eq!(info.fields_names, texts(&["age", "name"]));
    assert_eq!(info.fields_types, texts(&["u8", "String"]));
    assert_eq!(info.no_from_fields, texts(&["times_appeared", "years_studied"]));
    assert_eq!(info.no_from_fields_initializers, texts(&[DEFAULT, DEFAULT]));
}

#[test]
fn listed_names_are_trimmed() {
    let entries = vec![entry("fields", " \t age \n,\u{a0}name\u{a0}")];
    let info = FieldsInfo::new_from_macro_attribute_info(&character(), &entries).unwrap();
    assert_eq!(info.fields_names, texts(&["age", "name"]));
}

#[test]
fn without_fields_the_rest_is_active() {
    let entries = vec![entry("defaults", "age(7), name(String::new())")];
    assert_eq!(
        FieldsInfo::new_from_macro_attribute_info(&character(), &entries),
        Ok(FieldsInfo {
            fields_names: texts(&["times_appeared", "years_studied"]),
            fields_types: texts(&["u8", "u8"]),
            no_from_fields: texts(&["age", "name"]),
            no_from_fields_initializers: texts(&["7", "String :: new ()"]),
        })
    );
}

#[test]
fn unclaimed_field_gets_the_default_value() {
    let fields = vec![plain("count", "u8"), plain("label", "String")];
    let entries = vec![entry("fields", "label")];
    let info = FieldsInfo::new_from_macro_attribute_info(&fields, &entries).unwrap();
    assert_eq!(info.no_from_fields, texts(&["count"]));
    assert_eq!(info.no_from_fields_initializers, texts(&["core::default::Default::default()"]));
}

#[test]
fn active_and_passive_part_the_declared_fields() {
    let entries = vec![entry("fields", "years_studied, name"), entry("defaults", "age(1)")];
    let info = FieldsInfo::new_from_macro_attribute_info(&character(), &entries).unwrap();
    let mut all = info.fields_names.clone();
    all.extend(info.no_from_fields.clone());
    assert_eq!(all.len(), 4);
    for field in character() {
        assert_eq!(all.iter().filter(|name| **name == field.name).count(), 1);
    }
    for name in &info.fields_names {
        assert!(!info.no_from_fields.contains(name));
    }
    assert_eq!(info.fields_names.len(), info.fields_types.len());
    assert_eq!(info.no_from_fields.len(), info.no_from_fields_initializers.len());
}

#[test]
fn later_defaults_entry_stands() {
    let entries = vec![entry("defaults", "age(1)"), entry("defaults", "age(2)")];
    let info = FieldsInfo::new_from_macro_attribute_info(&character(), &entries).unwrap();
    assert_eq!(info.no_from_fields, texts(&["age"]));
    assert_eq!(info.no_from_fields_initializers, texts(&["2"]));
}

#[test]
fn unknown_field_in_fields_is_refused() {
    let entries = vec![entry("fields", "name, nope, neither")];
    assert_eq!(
        FieldsInfo::new_from_macro_attribute_info(&character(), &entries),
        Err(GenerationError::UnknownField("nope".to_string()))
    );
}

#[test]
fn unknown_field_in_defaults_is_refused() {
    let entries = vec![entry("fields", "name"), entry("defaults", "nope(1)")];
    assert_eq!(
        FieldsInfo::new_from_macro_attribute_info(&character(), &entries),
        Err(GenerationError::UnknownField("nope".to_string()))
    );
}

#[test]
fn field_in_fields_and_defaults_is_refused() {
    let entries = vec![entry("fields", "name, age"), entry("defaults", "age(1)")];
    assert_eq!(
        FieldsInfo::new_from_macro_attribute_info(&character(), &entries),
        Err(GenerationError::ConflictingFieldSpec("age".to_string()))
    );
}

#[test]
fn field_listed_twice_is_refused() {
    let entries = vec![entry("fields", "name, age, name")];
    assert_eq!(
        FieldsInfo::new_from_macro_attribute_info(&character(), &entries),
        Err(GenerationError::ConflictingFieldSpec("name".to_string()))
    );
    let entries = vec![entry("defaults", "age(1), age(2)")];
    assert_eq!(
        FieldsInfo::new_from_macro_attribute_info(&character(), &entries),
        Err(GenerationError::ConflictingFieldSpec("age".to_string()))
    );
}

#[test]
fn unknown_field_is_refused_before_a_repeated_one() {
    let entries = vec![entry("fields", "name, name, nope")];
    assert_eq!(
        FieldsInfo::new_from_macro_attribute_info(&character(), &entries),
        Err(GenerationError::UnknownField("nope".to_string()))
    );
}

#[test]
fn malformed_defaults_are_refused() {
    let entries = vec![entry("defaults", "age 1")];
    assert_eq!(
        FieldsInfo::new_from_macro_attribute_info(&character(), &entries),
        Err(GenerationError::MalformedAnnotation(ParseError::ExpectedGroup {
            position: 1,
            after: "age".to_string()
        }))
    );
    let entries = vec![entry("defaults", "age(")];
    assert_eq!(
        FieldsInfo::new_from_macro_attribute_info(&character(), &entries),
        Err(GenerationError::MalformedAnnotation(ParseError::NotTokens))
    );
}

#[test]
fn listed_name_must_be_an_identifier() {
    let entries = vec![entry("fields", "name, 7")];
    assert_eq!(
        FieldsInfo::new_from_macro_attribute_info(&character(), &entries),
        Err(GenerationError::MalformedAnnotation(ParseError::NotAnIdentifier {
            text: "7".to_string()
        }))
    );
    let entries = vec![entry("fields", "name,")];
    assert_eq!(
        FieldsInfo::new_from_macro_attribute_info(&character(), &entries),
        Err(GenerationError::MalformedAnnotation(ParseError::NotAnIdentifier {
            text: "".to_string()
        }))
    );
    let entries = vec![entry("fields", "")];
    assert_eq!(
        FieldsInfo::new_from_macro_attribute_info(&character(), &entries),
        Err(GenerationError::MalformedAnnotation(ParseError::NotAnIdentifier {
            text: "".to_string()
        }))
    );
    let entries = vec![entry("fields", "name age")];
    assert_eq!(
        FieldsInfo::new_from_macro_attribute_info(&character(), &entries),
        Err(GenerationError::MalformedAnnotation(ParseError::NotAnIdentifier {
            text: "name age".to_string()
        }))
    );
}

#[test]
fn keyword_is_no_field_name() {
    let entries = vec![entry("fields", "type")];
    assert_eq!(
        FieldsInfo::new_from_macro_attribute_info(&character(), &entries),
        Err(GenerationError::MalformedAnnotation(ParseError::NotAnIdentifier {
            text: "type".to_string()
        }))
    );
}

#[test]
fn first_field_of_a_name_gives_the_type() {
    let fields = vec![plain("a", "u8"), plain("a", "u16")];
    let entries = vec![entry("fields", "a")];
    let info = FieldsInfo::new_from_macro_attribute_info(&fields, &entries).unwrap();
    assert_eq!(info.fields_types, texts(&["u8"]));
}

#[test]
fn fields_are_resolved_from_parsed_parts() {
    let defaults = vec![entry("years_studied", "4")];
    assert_eq!(
        FieldsInfo::resolve(&character(), &defaults, Some(texts(&["age", "name"]))),
        Ok(FieldsInfo {
            fields_names: texts(&["age", "name"]),
            fields_types: texts(&["u8", "String"]),
            no_from_fields: texts(&["years_studied", "times_appeared"]),
            no_from_fields_initializers: texts(&["4", DEFAULT]),
        })
    );
    assert_eq!(
        FieldsInfo::resolve(&character(), &defaults, None),
        Ok(FieldsInfo {
            fields_names: texts(&["name", "age", "times_appeared"]),
            fields_types: texts(&["String", "u8", "u8"]),
            no_from_fields: texts(&["years_studied"]),
            no_from_fields_initializers: texts(&["4"]),
        })
    );
    assert_eq!(
        FieldsInfo::resolve(&character(), &vec![], Some(vec![])),
        Ok(FieldsInfo {
            fields_names: vec![],
            fields_types: vec![],
            no_from_fields: texts(&["name", "age", "times_appeared", "years_studied"]),
            no_from_fields_initializers: texts(&[DEFAULT, DEFAULT, DEFAULT, DEFAULT]),
        })
    );
    assert_eq!(
        FieldsInfo::resolve(&character(), &defaults, Some(texts(&["years_studied"]))),
        Err(GenerationError::ConflictingFieldSpec("years_studied".to_string()))
    );
    assert_eq!(
        FieldsInfo::resolve(&vec![], &defaults, None),
        Err(GenerationError::UnknownField("years_studied".to_string()))
    );
}
