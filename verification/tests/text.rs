use derive_constructors::naming::{require_identifier, require_identifiers};
use derive_constructors::text::{
    concatenate, contains_text, copies, decimal, decorate, followed_by, interleave, join,
    same_text, split, trim, tuple_of,
};
use derive_constructors::{
    fields_as_const_defaults_tokens, parse_separated_idents, ParseError, Token, TokenKind,
    VariantDecl, VariantField,
};

fn strings(items: &[&str]) -> Vec<String> {
    items.iter().map(|item| item.to_string()).collect()
}

#[test]
fn text_is_cut_at_each_separator() {
    assert_eq!(split("name , age", ','), strings(&["name ", " age"]));
    assert_eq!(split("a,b,c", ','), strings(&["a", "b", "c"]));
    assert_eq!(split("abc", ','), strings(&["abc"]));
    assert_eq!(split("", ','), strings(&[""]));
    assert_eq!(split(",", ','), strings(&["", ""]));
    assert_eq!(split("a,,b,", ','), strings(&["a", "", "b", ""]));
    assert_eq!(split("é,ü", ','), strings(&["é", "ü"]));
}

#[test]
fn pieces_joined_again_are_the_text() {
    for text in ["", ",", "a,,b,", "name , age", "no separator", "é,ü,"] {
        let pieces = split(text, ',');
        assert!(pieces.iter().all(|piece| !piece.contains(',')));
        assert_eq!(join(&pieces, ","), text);
    }
}

#[test]
fn white_space_is_taken_off_both_ends() {
    assert_eq!(trim("  age \n"), "age");
    assert_eq!(trim("age"), "age");
    assert_eq!(trim(" two words "), "two words");
    assert_eq!(trim(""), "");
    assert_eq!(trim(" \t\n "), "");
    assert_eq!(trim("\u{a0}é\u{2003}"), "é");
    assert_eq!(trim("_ "), "_");
}

#[test]
fn items_are_joined() {
    assert_eq!(join(&strings(&[]), ", "), "");
    assert_eq!(join(&strings(&["a"]), ", "), "a");
    assert_eq!(join(&strings(&["a", "b", "c"]), ", "), "a, b, c");
    assert_eq!(join(&strings(&["", ""]), "-"), "-");
    assert_eq!(concatenate(&strings(&["a", "", "bc"])), "abc");
    assert_eq!(concatenate(&strings(&[])), "");
    assert_eq!(tuple_of(&strings(&[])), "()");
    assert_eq!(tuple_of(&strings(&["T"])), "(T)");
    assert_eq!(tuple_of(&strings(&["T", "U"])), "(T, U)");
}

#[test]
fn items_are_set_between_texts() {
    assert_eq!(decorate("<", &strings(&["a", "b"]), ">"), strings(&["<a>", "<b>"]));
    assert_eq!(decorate("<", &strings(&[]), ">"), strings(&[]));
    assert_eq!(
        interleave("let ", &strings(&["a", "b"]), ": ", &strings(&["u8", "u16"]), ";"),
        strings(&["let a: u8;", "let b: u16;"])
    );
}

#[test]
fn lists_are_compared_and_put_together() {
    assert!(same_text("age", "age"));
    assert!(!same_text("age", "Age"));
    assert!(!same_text("age", "ag"));
    assert!(contains_text(&strings(&["a", "b"]), "b"));
    assert!(!contains_text(&strings(&["a", "b"]), "c"));
    assert!(!contains_text(&strings(&[]), ""));
    assert_eq!(followed_by(&strings(&["a"]), &strings(&["b", "c"])), strings(&["a", "b", "c"]));
    assert_eq!(copies("x", 3), strings(&["x", "x", "x"]));
    assert_eq!(copies("x", 0), strings(&[]));
}

#[test]
fn numbers_are_written_in_decimal() {
    assert_eq!(decimal(0), "0");
    assert_eq!(decimal(7), "7");
    assert_eq!(decimal(10), "10");
    assert_eq!(decimal(4096), "4096");
    assert_eq!(decimal(usize::MAX), usize::MAX.to_string());
}

#[test]
fn identifier_is_read_as_it_prints() {
    assert_eq!(require_identifier("new"), Ok("new".to_string()));
    assert_eq!(require_identifier(" new "), Ok("new".to_string()));
    assert_eq!(require_identifier("r#type"), Ok("r#type".to_string()));
    assert_eq!(
        require_identifier("type"),
        Err(ParseError::NotAnIdentifier { text: "type".to_string() })
    );
    assert_eq!(
        require_identifier("_"),
        Err(ParseError::NotAnIdentifier { text: "_".to_string() })
    );
    assert_eq!(
        require_identifier("a b"),
        Err(ParseError::NotAnIdentifier { text: "a b".to_string() })
    );
    assert_eq!(require_identifier(""), Err(ParseError::NotAnIdentifier { text: "".to_string() }));
}

#[test]
fn first_text_without_identifier_is_refused() {
    assert_eq!(require_identifiers(&strings(&[" a", "b "])), Ok(strings(&["a", "b"])));
    assert_eq!(require_identifiers(&strings(&[])), Ok(strings(&[])));
    assert_eq!(
        require_identifiers(&strings(&["a", " 1 ", "2"])),
        Err(ParseError::NotAnIdentifier { text: "1".to_string() })
    );
}

fn tree(kind: TokenKind, text: &str) -> Token {
    Token { kind, text: text.to_string() }
}

#[test]
fn identifiers_between_punctuation_are_collected() {
    let tokens = vec![
        tree(TokenKind::Ident, "a"),
        tree(TokenKind::Punct, ","),
        tree(TokenKind::Punct, ";"),
        tree(TokenKind::Ident, "b"),
        tree(TokenKind::Ident, "c"),
    ];
    assert_eq!(parse_separated_idents(&tokens), Ok(strings(&["a", "b", "c"])));
    assert_eq!(parse_separated_idents(&vec![]), Ok(strings(&[])));
}

#[test]
fn token_that_is_neither_identifier_nor_punctuation_is_refused() {
    let tokens = vec![
        tree(TokenKind::Ident, "a"),
        tree(TokenKind::Literal, "1"),
        tree(TokenKind::Parenthesized, "x"),
    ];
    assert_eq!(
        parse_separated_idents(&tokens),
        Err(ParseError::NotAnIdentifier { text: "1".to_string() })
    );
    let tokens = vec![tree(TokenKind::Ident, "a"), tree(TokenKind::Ident, "struct")];
    assert_eq!(
        parse_separated_idents(&tokens),
        Err(ParseError::NotAnIdentifier { text: "struct".to_string() })
    );
}

#[test]
fn fields_are_set_to_their_constant_defaults() {
    let variant = |fields: Vec<VariantField>| VariantDecl {
        name: "V".to_string(),
        attributes: vec![],
        fields,
    };
    assert_eq!(fields_as_const_defaults_tokens(&variant(vec![])), None);
    assert_eq!(
        fields_as_const_defaults_tokens(&variant(vec![
            VariantField { name: None, ty: "u8".to_string() },
            VariantField { name: None, ty: "u16".to_string() }
        ])),
        Some(
            "(const_default::ConstDefault::DEFAULT), (const_default::ConstDefault::DEFAULT)"
                .to_string()
        )
    );
    assert_eq!(
        fields_as_const_defaults_tokens(&variant(vec![VariantField {
            name: Some("low".to_string()),
            ty: "u8".to_string()
        }])),
        Some("low (const_default::ConstDefault::DEFAULT)".to_string())
    );
}
