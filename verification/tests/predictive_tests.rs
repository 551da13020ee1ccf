//! Tests of the stack-based predictive validator and the two-pass parse.

use redes::lexer::{Token, TokenInfo};
use redes::parser_ll1::predictive::PredictiveParser;

fn make_token_info(token: Token, line: usize, column: usize) -> TokenInfo {
    TokenInfo {
        token: token.clone(),
        line,
        column,
        length: 1,
        lexeme: format!("{:?}", token),
    }
}

#[test]
fn test_parser_creation() {
    let tokens = vec![
        make_token_info(Token::Programa, 1, 1),
        make_token_info(Token::Identificador("test".to_string()), 1, 10),
        make_token_info(Token::PuntoYComa, 1, 14),
        make_token_info(Token::Inicio, 2, 1),
        make_token_info(Token::Fin, 3, 1),
        make_token_info(Token::Punto, 3, 4),
    ];

    let parser = PredictiveParser::new(tokens);
    assert_eq!(parser.position, 0);
    assert!(!parser.stack.is_empty());
}

#[test]
fn test_tokens_match() {
    assert!(PredictiveParser::tokens_match(
        &Token::Identificador("a".to_string()),
        &Token::Identificador("b".to_string())
    ));

    assert!(PredictiveParser::tokens_match(&Token::Numero(0), &Token::Numero(42)));

    assert!(PredictiveParser::tokens_match(&Token::Programa, &Token::Programa));

    assert!(!PredictiveParser::tokens_match(&Token::Programa, &Token::Modulo));
}

#[test]
fn test_simple_program() {
    // programa test; inicio fin .
    let tokens = vec![
        make_token_info(Token::Programa, 1, 1),
        make_token_info(Token::Identificador("test".to_string()), 1, 10),
        make_token_info(Token::PuntoYComa, 1, 14),
        make_token_info(Token::Inicio, 2, 1),
        make_token_info(Token::Fin, 3, 1),
        make_token_info(Token::Punto, 3, 4),
    ];

    let mut parser = PredictiveParser::new(tokens);
    let result = parser.parse();

    if let Err(e) = &result {
        println!("Error: {}", e);
    }

    assert!(result.is_ok(), "Parser should accept valid program");
}

#[test]
fn test_program_with_definitions() {
    // programa test; define maquinas m1; inicio fin .
    let tokens = vec![
        make_token_info(Token::Programa, 1, 1),
        make_token_info(Token::Identificador("test".to_string()), 1, 10),
        make_token_info(Token::PuntoYComa, 1, 14),
        make_token_info(Token::Define, 2, 1),
        make_token_info(Token::Maquinas, 2, 8),
        make_token_info(Token::Identificador("m1".to_string()), 2, 17),
        make_token_info(Token::PuntoYComa, 2, 19),
        make_token_info(Token::Inicio, 3, 1),
        make_token_info(Token::Fin, 4, 1),
        make_token_info(Token::Punto, 4, 4),
    ];

    let mut parser = PredictiveParser::new(tokens);
    let result = parser.parse();

    assert!(result.is_ok(), "Parser should accept program with definitions");
}

#[test]
fn test_invalid_program() {
    // The statement separator after the program name is missing.
    let tokens = vec![
        make_token_info(Token::Programa, 1, 1),
        make_token_info(Token::Identificador("test".to_string()), 1, 10),
        make_token_info(Token::Inicio, 2, 1),
        make_token_info(Token::Fin, 3, 1),
        make_token_info(Token::Punto, 3, 4),
    ];

    let mut parser = PredictiveParser::new(tokens);
    let result = parser.parse();

    assert!(result.is_err(), "Parser should reject invalid program");
}
