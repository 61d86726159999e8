use derive_constructors::groups::find_group;
use derive_constructors::{
    idents_and_groups_from, parse_token_groups, ParseError, ParsePhase, Token, TokenKind,
};

fn token(kind: TokenKind, text: &str) -> Token {
    Token { kind, text: text.to_string() }
}

fn pair(name: &str, group: &str) -> (String, String) {
    (name.to_string(), group.to_string())
}

#[test]
fn token_groups_in_order() {
    let tokens = vec![
        token(TokenKind::Ident, "a"),
        token(TokenKind::Parenthesized, "1"),
        token(TokenKind::Punct, ","),
        token(TokenKind::Ident, "b"),
        token(TokenKind::Parenthesized, "2,3"),
        token(TokenKind::Punct, ","),
        token(TokenKind::Ident, "c"),
        token(TokenKind::Parenthesized, ""),
    ];
    assert_eq!(
        parse_token_groups(&tokens),
        Ok(vec![pair("a", "1"), pair("b", "2,3"), pair("c", "")])
    );
}

#[test]
fn annotation_text_is_lexed_and_grouped() {
    assert_eq!(
        idents_and_groups_from("a(1), b(2,3), c()"),
        Ok(vec![pair("a", "1"), pair("b", "2 , 3"), pair("c", "")])
    );
}

#[test]
fn empty_annotation_has_no_groups() {
    assert_eq!(parse_token_groups(&[].to_vec()), Ok(vec![]));
    assert_eq!(idents_and_groups_from(""), Ok(vec![]));
    assert_eq!(idents_and_groups_from("  \n "), Ok(vec![]));
}

#[test]
fn separator_at_the_end_is_accepted() {
    assert_eq!(idents_and_groups_from("a(1),"), Ok(vec![pair("a", "1")]));
}

#[test]
fn any_punctuation_separates() {
    assert_eq!(idents_and_groups_from("a(1); b(2)"), Ok(vec![pair("a", "1"), pair("b", "2")]));
}

#[test]
fn group_is_kept_whole() {
    assert_eq!(
        idents_and_groups_from("defaults(id(\"Jorge\".to_string()), n(vec![1, 2]))"),
        Ok(vec![pair("defaults", "id (\"Jorge\" . to_string ()) , n (vec ! [1 , 2])")])
    );
}

#[test]
fn group_can_be_parsed_again() {
    let outer = idents_and_groups_from("defaults(id(\"Jorge\".to_string()), n(4))").unwrap();
    assert_eq!(
        idents_and_groups_from(&outer[0].1),
        Ok(vec![pair("id", "\"Jorge\" . to_string ()"), pair("n", "4")])
    );
}

#[test]
fn trailing_name_wants_its_group() {
    assert_eq!(
        idents_and_groups_from("a(1), b"),
        Err(ParseError::ExpectedGroup { position: 3, after: "b".to_string() })
    );
}

#[test]
fn name_followed_by_something_else_wants_its_group() {
    assert_eq!(
        idents_and_groups_from("a, b(1)"),
        Err(ParseError::ExpectedGroup { position: 1, after: "a".to_string() })
    );
}

#[test]
fn group_must_be_parenthesized() {
    assert_eq!(
        idents_and_groups_from("a[1]"),
        Err(ParseError::ExpectedGroup { position: 1, after: "a".to_string() })
    );
    assert_eq!(
        idents_and_groups_from("a{1}"),
        Err(ParseError::ExpectedGroup { position: 1, after: "a".to_string() })
    );
}

#[test]
fn two_groups_want_a_separator() {
    assert_eq!(
        idents_and_groups_from("a(1) b(2)"),
        Err(ParseError::ExpectedSeparator { position: 2, after: "a".to_string() })
    );
}

#[test]
fn first_token_must_be_a_name() {
    assert_eq!(
        idents_and_groups_from("(1)"),
        Err(ParseError::ExpectedName { position: 0, previous: None })
    );
    assert_eq!(
        idents_and_groups_from("a(1), 2"),
        Err(ParseError::ExpectedName { position: 3, previous: Some("a".to_string()) })
    );
}

#[test]
fn first_misplaced_token_decides() {
    let tokens = vec![
        token(TokenKind::Ident, "a"),
        token(TokenKind::Parenthesized, "1"),
        token(TokenKind::Literal, "7"),
        token(TokenKind::Literal, "8"),
    ];
    assert_eq!(
        parse_token_groups(&tokens),
        Err(ParseError::ExpectedSeparator { position: 2, after: "a".to_string() })
    );
}

#[test]
fn unbalanced_text_is_no_token_stream() {
    assert_eq!(idents_and_groups_from("a(1"), Err(ParseError::NotTokens));
    assert_eq!(idents_and_groups_from("a(\"open)"), Err(ParseError::NotTokens));
}

#[test]
fn messages_name_the_previous_group() {
    assert_eq!(
        ParseError::ExpectedGroup { position: 3, after: "b".to_string() }.message(),
        "Expected a group after group named 'b', for example, '(my group's description)' in 'group_name(my group's description)'"
    );
    assert_eq!(
        ParseError::ExpectedSeparator { position: 2, after: "a".to_string() }.message(),
        "Expected a separator after group named 'a', for example, the comma (',') in 'group1(desc), group2(desc)'"
    );
    assert_eq!(
        ParseError::ExpectedName { position: 0, previous: None }.message(),
        "Expected a name, for example, 'group_name' in 'group_name(my group's description)'"
    );
    assert_eq!(
        ParseError::ExpectedName { position: 3, previous: Some("a".to_string()) }.message(),
        "Expected a name after group named 'a', for example, 'group_name' in 'group_name(my group's description)'"
    );
    assert_eq!(ParseError::NotTokens.message(), "Expected a sequence of tokens");
    assert_eq!(
        ParseError::NotAnIdentifier { text: "1".to_string() }.message(),
        "Expected an identifier, found '1'"
    );
}

#[test]
fn phases_cycle() {
    let mut phase = ParsePhase::Ident;
    phase.advance_to_next();
    assert_eq!(phase, ParsePhase::Group);
    phase.advance_to_next();
    assert_eq!(phase, ParsePhase::Punct);
    phase.advance_to_next();
    assert_eq!(phase, ParsePhase::Ident);
}

#[test]
fn later_entry_of_a_name_stands() {
    let entries = vec![pair("named", "a"), pair("pattern", "From"), pair("named", "b")];
    assert_eq!(find_group(&entries, "named"), Some("b".to_string()));
    assert_eq!(find_group(&entries, "pattern"), Some("From".to_string()));
    assert_eq!(find_group(&entries, "fields"), None);
}

#[test]
fn written_groups_are_read_back() {
    let lists = vec![
        vec![],
        vec![pair("a", "1")],
        vec![pair("a", "1"), pair("b", "2,3"), pair("c", "")],
        vec![pair("fn", ")("), pair("", ""), pair("a", "a(1), b")],
    ];
    for entries in lists {
        let mut tokens = Vec::new();
        for (index, (name, group)) in entries.iter().enumerate() {
            if index > 0 {
                tokens.push(token(TokenKind::Punct, ","));
            }
            tokens.push(token(TokenKind::Ident, name));
            tokens.push(token(TokenKind::Parenthesized, group));
        }
        assert_eq!(parse_token_groups(&tokens), Ok(entries));
    }
}
