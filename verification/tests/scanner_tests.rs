//! Tests of the maximal-munch scanner over a small automaton.

use redes::lexer_new::automaton::Automaton;
use redes::lexer_new::scanner::Scanner;
use redes::lexer_new::token::TokenType;

fn create_test_automaton() -> Automaton {
    let content = r#"
METADATA
name: TestLexer
version: 1.0
initial_state: q0
END_METADATA

STATES
q0
q_id FINAL:IDENTIFIER
q_num FINAL:NUMBER
q_comma FINAL:COMMA
q_semicolon FINAL:SEMICOLON
q_ws FINAL:WHITESPACE
END_STATES

TRANSITIONS
q0, [a-zA-Z_], q_id
q_id, [a-zA-Z0-9_], q_id
q0, [0-9], q_num
q_num, [0-9], q_num
q0, ,, q_comma
q0, ;, q_semicolon
q0, \s, q_ws
q0, \n, q_ws
q_ws, \s, q_ws
q_ws, \n, q_ws
END_TRANSITIONS

KEYWORDS
programa, PROGRAMA
inicio, INICIO
fin, FIN
END_KEYWORDS
"#;
    Automaton::parse(content).expect("Failed to parse test automaton")
}

#[test]
fn test_scanner_creation() {
    let automaton = create_test_automaton();
    let scanner = Scanner::new("test", &automaton);
    assert_eq!(scanner.pos, 0);
    assert_eq!(scanner.line, 1);
    assert_eq!(scanner.column, 1);
}

#[test]
fn test_is_at_end() {
    let automaton = create_test_automaton();
    let scanner = Scanner::new("", &automaton);
    assert!(scanner.is_at_end());

    let mut scanner = Scanner::new("a", &automaton);
    assert!(!scanner.is_at_end());
    scanner.advance();
    assert!(scanner.is_at_end());
}

#[test]
fn test_advance() {
    let automaton = create_test_automaton();
    let mut scanner = Scanner::new("abc\ndef", &automaton);

    assert_eq!(scanner.line, 1);
    assert_eq!(scanner.column, 1);

    scanner.advance(); // a
    assert_eq!(scanner.column, 2);

    scanner.advance(); // b
    scanner.advance(); // c
    scanner.advance(); // newline
    assert_eq!(scanner.line, 2);
    assert_eq!(scanner.column, 1);
}

#[test]
fn test_scan_identifier() {
    let automaton = create_test_automaton();
    let mut scanner = Scanner::new("test", &automaton);
    let token = scanner.scan_token().unwrap().unwrap();

    assert_eq!(token.token_type, TokenType::Identifier);
    assert_eq!(token.lexeme, "test");
    assert_eq!(token.line, 1);
    assert_eq!(token.column, 1);
}

#[test]
fn test_scan_number() {
    let automaton = create_test_automaton();
    let mut scanner = Scanner::new("12345", &automaton);
    let token = scanner.scan_token().unwrap().unwrap();

    assert_eq!(token.token_type, TokenType::Number);
    assert_eq!(token.lexeme, "12345");
}

#[test]
fn test_scan_keyword() {
    let automaton = create_test_automaton();
    let mut scanner = Scanner::new("programa", &automaton);
    let token = scanner.scan_token().unwrap().unwrap();

    assert_eq!(token.token_type, TokenType::Programa);
    assert_eq!(token.lexeme, "programa");
}

#[test]
fn test_scan_keyword_case_insensitive() {
    let automaton = create_test_automaton();
    let mut scanner = Scanner::new("PROGRAMA", &automaton);
    let token = scanner.scan_token().unwrap().unwrap();

    assert_eq!(token.token_type, TokenType::Programa);
    assert_eq!(token.lexeme, "PROGRAMA");
}

#[test]
fn test_scan_delimiter() {
    let automaton = create_test_automaton();
    let mut scanner = Scanner::new(",", &automaton);
    let token = scanner.scan_token().unwrap().unwrap();

    assert_eq!(token.token_type, TokenType::Comma);
    assert_eq!(token.lexeme, ",");
}

#[test]
fn test_scan_multiple_tokens() {
    let automaton = create_test_automaton();
    let mut scanner = Scanner::new("var1,var2", &automaton);

    let token1 = scanner.scan_token().unwrap().unwrap();
    assert_eq!(token1.token_type, TokenType::Identifier);
    assert_eq!(token1.lexeme, "var1");

    let token2 = scanner.scan_token().unwrap().unwrap();
    assert_eq!(token2.token_type, TokenType::Comma);

    let token3 = scanner.scan_token().unwrap().unwrap();
    assert_eq!(token3.token_type, TokenType::Identifier);
    assert_eq!(token3.lexeme, "var2");
}

#[test]
fn test_scan_all_tokens() {
    let automaton = create_test_automaton();
    let mut scanner = Scanner::new("programa inicio fin", &automaton);
    let tokens = scanner.scan_all().unwrap();

    // Three keywords plus the end marker; blanks are dropped.
    assert_eq!(tokens.len(), 4);
    assert_eq!(tokens[0].token_type, TokenType::Programa);
    assert_eq!(tokens[1].token_type, TokenType::Inicio);
    assert_eq!(tokens[2].token_type, TokenType::Fin);
    assert_eq!(tokens[3].token_type, TokenType::Eof);
}

#[test]
fn test_scan_with_whitespace() {
    let automaton = create_test_automaton();
    let mut scanner = Scanner::new("  test  ", &automaton);
    let tokens = scanner.scan_all().unwrap();

    // Blanks are dropped: the identifier and the end marker remain.
    assert_eq!(tokens.len(), 2);
    assert_eq!(tokens[0].token_type, TokenType::Identifier);
    assert_eq!(tokens[0].lexeme, "test");
}

#[test]
fn test_scan_multiline() {
    let automaton = create_test_automaton();
    let mut scanner = Scanner::new("var1\nvar2", &automaton);
    let tokens = scanner.scan_all().unwrap();

    assert_eq!(tokens.len(), 3);
    assert_eq!(tokens[0].line, 1);
    assert_eq!(tokens[1].line, 2);
}

#[test]
fn test_invalid_character() {
    let automaton = create_test_automaton();
    let mut scanner = Scanner::new("@", &automaton);
    let result = scanner.scan_token();

    assert!(result.is_err());
}

#[test]
fn test_empty_input() {
    let automaton = create_test_automaton();
    let mut scanner = Scanner::new("", &automaton);
    let tokens = scanner.scan_all().unwrap();

    // Only the synthetic end marker.
    assert_eq!(tokens.len(), 1);
    assert_eq!(tokens[0].token_type, TokenType::Eof);
}
