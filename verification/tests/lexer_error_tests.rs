//! Tests of the lexical error constructors and their report line.

use redes::lexer_new::error::LexicalError;

#[test]
fn test_invalid_char_error() {
    let err = LexicalError::invalid_char('@', 5, 10);
    assert_eq!(err.line, 5);
    assert_eq!(err.column, 10);
    assert!(err.message.contains("@"));
}

#[test]
fn test_unterminated_string_error() {
    let err = LexicalError::unterminated_string(3, 7);
    assert_eq!(err.line, 3);
    assert_eq!(err.column, 7);
    assert!(err.message.contains("sin cerrar"));
}

#[test]
fn test_error_display() {
    let err = LexicalError::new("Test error".to_string(), 1, 5, 3);
    let display = err.display_string();
    assert!(display.contains("1:5"));
    assert!(display.contains("Test error"));
}
