use tokenizer::token::{Token, TokenType, TokenValue};

#[test]
fn new_token_keeps_its_parts() {
    let token = Token::new(TokenType::Identifier, TokenValue::String("x".to_string()), 7);
    assert_eq!(token.kind, TokenType::Identifier);
    assert_eq!(token.value, TokenValue::String("x".to_string()));
    assert_eq!(token.line, 7);
}

#[test]
fn new_token_takes_any_parts() {
    let token = Token::new(TokenType::IntVal, TokenValue::Bool(true), 0);
    assert_eq!(token.kind, TokenType::IntVal);
    assert_eq!(token.value, TokenValue::Bool(true));
    assert_eq!(token.line, 0);
    let token = Token::new(TokenType::CharVal, TokenValue::Char('a'), u16::MAX);
    assert_eq!(token.value, TokenValue::Char('a'));
    assert_eq!(token.line, u16::MAX);
}

#[test]
fn tokens_are_equal_when_all_parts_agree() {
    let a = Token::new(TokenType::IntVal, TokenValue::Int(10), 3);
    assert_eq!(a, Token::new(TokenType::IntVal, TokenValue::Int(10), 3));
    assert_ne!(a, Token::new(TokenType::Error, TokenValue::Int(10), 3));
    assert_ne!(a, Token::new(TokenType::IntVal, TokenValue::Int(11), 3));
    assert_ne!(a, Token::new(TokenType::IntVal, TokenValue::Int(10), 4));
}

#[test]
fn values_are_equal_within_one_variant_only() {
    assert_eq!(TokenValue::Bool(true), TokenValue::Bool(true));
    assert_ne!(TokenValue::Bool(true), TokenValue::Bool(false));
    assert_eq!(TokenValue::Char('a'), TokenValue::Char('a'));
    assert_ne!(TokenValue::Char('a'), TokenValue::Char('b'));
    assert_eq!(TokenValue::Int(-1), TokenValue::Int(-1));
    assert_ne!(TokenValue::Int(1), TokenValue::Int(-1));
    assert_eq!(TokenValue::Float("1.0".to_string()), TokenValue::Float("1.0".to_string()));
    assert_ne!(TokenValue::Float("1.0".to_string()), TokenValue::Float("1.00".to_string()));
    assert_eq!(TokenValue::String("a".to_string()), TokenValue::String("a".to_string()));
    assert_ne!(TokenValue::String("a".to_string()), TokenValue::String("A".to_string()));
    assert_ne!(TokenValue::String("1.0".to_string()), TokenValue::Float("1.0".to_string()));
    assert_ne!(TokenValue::Int(1), TokenValue::Bool(true));
    assert_ne!(TokenValue::Char('1'), TokenValue::Int(1));
    assert_ne!(TokenValue::String("a".to_string()), TokenValue::Char('a'));
}

#[test]
fn clone_is_equal_to_what_it_was_made_from() {
    let values = vec![
        TokenValue::Bool(false),
        TokenValue::Char('é'),
        TokenValue::Int(i64::MAX),
        TokenValue::Float("3.14".to_string()),
        TokenValue::String("text".to_string()),
    ];
    for value in values {
        assert_eq!(value.clone(), value);
        let token = Token::new(TokenType::Error, value, 12);
        assert_eq!(token.clone(), token);
    }
}

#[test]
fn categories_are_copied_and_compared() {
    let kind = TokenType::While;
    let copy = kind;
    assert_eq!(kind, copy);
    assert_ne!(TokenType::Let, TokenType::Const);
    assert_ne!(TokenType::Equal, TokenType::Assign);
    assert_eq!(format!("{:?}", TokenType::BitwiseShiftLeft), "BitwiseShiftLeft");
}
