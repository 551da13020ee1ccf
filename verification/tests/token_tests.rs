//! Tests of the token kinds and token records of the lexer.

use redes::lexer_new::token::{Token, TokenType};

#[test]
fn test_token_creation() {
    let token = Token::new(TokenType::Identifier, "test".to_string(), 1, 5);

    assert_eq!(token.token_type, TokenType::Identifier);
    assert_eq!(token.lexeme, "test");
    assert_eq!(token.line, 1);
    assert_eq!(token.column, 5);
    assert_eq!(token.length, 4);
}

#[test]
fn test_eof_token() {
    let token = Token::eof(10, 20);

    assert_eq!(token.token_type, TokenType::Eof);
    assert_eq!(token.lexeme, "");
    assert_eq!(token.line, 10);
    assert_eq!(token.column, 20);
}

#[test]
fn test_should_ignore() {
    assert!(TokenType::Whitespace.should_ignore());
    assert!(TokenType::Comment.should_ignore());
    assert!(!TokenType::Identifier.should_ignore());
    assert!(!TokenType::Number.should_ignore());
}

#[test]
fn test_token_type_display() {
    assert_eq!(TokenType::Programa.as_str(), "programa");
    assert_eq!(TokenType::Equal.as_str(), "=");
    assert_eq!(TokenType::LessEqual.as_str(), "<=");
}
