//! Tests of the LL(1) parsing table.

use redes::lexer::Token;
use redes::parser_ll1::first_follow::NonTerminal;
use redes::parser_ll1::ll1_table::{LL1Table, TokenClass};

#[test]
fn test_table_creation() {
    let table = LL1Table::new();
    assert!(!table.productions.is_empty());
}

#[test]
fn test_token_class_conversion() {
    let token = Token::Programa;
    let tc = TokenClass::from_token(&token);
    assert_eq!(tc, TokenClass::Programa);
}

#[test]
fn test_table_lookup() {
    let table = LL1Table::new();
    let prod = table.get(NonTerminal::Programa, &Token::Programa);
    assert!(prod.is_some());
    assert_eq!(prod.unwrap().id, 1);
}
