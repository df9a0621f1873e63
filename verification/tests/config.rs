use redis_macros_derive::config::{
    get_serializer, is_config, read_payload, CodecReference, ConfigError,
};
use redis_macros_derive::descriptor::{Attribute, Delimiter, Token};

fn codec(name: &str) -> CodecReference {
    CodecReference { name: name.to_string() }
}

fn ident(name: &str) -> Token {
    Token::Ident(name.to_string())
}

fn attribute(path: &[&str], payload: Vec<Token>) -> Attribute {
    Attribute { path: path.iter().map(|s| s.to_string()).collect(), payload }
}

fn config(payload: Vec<Token>) -> Attribute {
    attribute(&["redis_serializer"], payload)
}

fn parenthesised(inner: Vec<Token>) -> Vec<Token> {
    vec![Token::Group(Delimiter::Parenthesis, inner)]
}

#[test]
fn no_attributes_select_the_default() {
    assert_eq!(get_serializer(&vec![], "bincode"), Ok(codec("bincode")));
    assert_eq!(get_serializer(&vec![], "serde_json"), Ok(codec("serde_json")));
}

#[test]
fn other_attributes_select_the_default() {
    let attrs = vec![
        attribute(&["derive"], parenthesised(vec![ident("Debug")])),
        attribute(&["serde"], parenthesised(vec![ident("transparent")])),
    ];
    assert_eq!(get_serializer(&attrs, "bincode"), Ok(codec("bincode")));
}

#[test]
fn well_formed_attribute_names_the_codec() {
    let attrs = vec![config(parenthesised(vec![ident("serde_yaml")]))];
    assert_eq!(get_serializer(&attrs, "bincode"), Ok(codec("serde_yaml")));
}

#[test]
fn attribute_is_found_behind_others() {
    let attrs = vec![
        attribute(&["derive"], parenthesised(vec![ident("Debug")])),
        attribute(&["doc"], vec![Token::Punct('='), Token::Literal("\"text\"".to_string())]),
        config(parenthesised(vec![ident("my_serializer")])),
    ];
    assert_eq!(get_serializer(&attrs, "bincode"), Ok(codec("my_serializer")));
}

#[test]
fn first_configuration_attribute_decides() {
    let attrs = vec![
        config(parenthesised(vec![ident("first")])),
        config(parenthesised(vec![ident("second")])),
    ];
    assert_eq!(get_serializer(&attrs, "bincode"), Ok(codec("first")));
    let attrs = vec![config(vec![]), config(parenthesised(vec![ident("second")]))];
    assert_eq!(
        get_serializer(&attrs, "bincode"),
        Err(ConfigError::MalformedPayload { attribute: 0 })
    );
}

#[test]
fn qualified_path_is_no_configuration() {
    let attrs = vec![attribute(
        &["redis", "redis_serializer"],
        parenthesised(vec![ident("serde_yaml")]),
    )];
    assert_eq!(get_serializer(&attrs, "bincode"), Ok(codec("bincode")));
    assert!(!is_config(&attrs[0]));
    assert!(!is_config(&attribute(&[], vec![])));
    assert!(!is_config(&attribute(&["redis_serializers"], vec![])));
    assert!(is_config(&attribute(&["redis_serializer"], vec![])));
}

#[test]
fn empty_parentheses_are_malformed() {
    let attrs = vec![config(parenthesised(vec![]))];
    assert_eq!(
        get_serializer(&attrs, "bincode"),
        Err(ConfigError::MalformedPayload { attribute: 0 })
    );
}

#[test]
fn several_tokens_are_malformed() {
    let attrs = vec![
        attribute(&["derive"], parenthesised(vec![ident("Debug")])),
        config(parenthesised(vec![ident("a"), Token::Punct(','), ident("b")])),
    ];
    assert_eq!(
        get_serializer(&attrs, "bincode"),
        Err(ConfigError::MalformedPayload { attribute: 1 })
    );
    let path = vec![config(parenthesised(vec![
        ident("a"),
        Token::Punct(':'),
        Token::Punct(':'),
        ident("b"),
    ]))];
    assert_eq!(
        get_serializer(&path, "bincode"),
        Err(ConfigError::MalformedPayload { attribute: 0 })
    );
}

#[test]
fn missing_parentheses_are_malformed() {
    for payload in [
        vec![],
        vec![ident("serde_yaml")],
        vec![Token::Punct('='), Token::Literal("\"serde_yaml\"".to_string())],
        vec![Token::Group(Delimiter::Bracket, vec![ident("serde_yaml")])],
        vec![Token::Group(Delimiter::Brace, vec![ident("serde_yaml")])],
        vec![Token::Group(Delimiter::Invisible, vec![ident("serde_yaml")])],
    ] {
        assert_eq!(
            get_serializer(&vec![config(payload)], "bincode"),
            Err(ConfigError::MalformedPayload { attribute: 0 })
        );
    }
}

#[test]
fn tokens_behind_the_group_are_malformed() {
    let mut payload = parenthesised(vec![ident("serde_yaml")]);
    payload.push(ident("extra"));
    assert_eq!(read_payload(&payload), None);
}

#[test]
fn group_must_hold_an_identifier() {
    assert_eq!(read_payload(&parenthesised(vec![Token::Literal("1".to_string())])), None);
    assert_eq!(read_payload(&parenthesised(vec![Token::Punct('*')])), None);
    assert_eq!(read_payload(&parenthesised(parenthesised(vec![ident("x")]))), None);
    assert_eq!(read_payload(&parenthesised(vec![ident("x")])), Some(codec("x")));
}

#[test]
fn error_names_the_attribute_and_the_expected_form() {
    let error = get_serializer(
        &vec![attribute(&["doc"], vec![]), config(vec![ident("x")])],
        "bincode",
    )
    .unwrap_err();
    assert_eq!(error.attribute(), 1);
    assert_eq!(
        error.describe(),
        "expected `#[redis_serializer(name)]` with the name of one codec module"
    );
}
