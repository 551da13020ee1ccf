//! Tests of the statically supplied FIRST and FOLLOW sets.

use redes::lexer::Token;
use redes::parser_ll1::first_follow::{FirstFollowSets, NonTerminal, Symbol};

#[test]
fn test_first_sets_creation() {
    let sets = FirstFollowSets::new();

    let first_programa = sets.first(NonTerminal::Programa).unwrap();
    assert!(first_programa.contains(&Symbol::Terminal(Token::Programa)));
    assert_eq!(first_programa.len(), 1);
}

#[test]
fn test_first_contains_epsilon() {
    let sets = FirstFollowSets::new();

    let first_defs = sets.first(NonTerminal::Definiciones).unwrap();
    assert!(first_defs.contains(&Symbol::Epsilon));
    assert!(first_defs.contains(&Symbol::Terminal(Token::Define)));
}

#[test]
fn test_is_in_first() {
    let sets = FirstFollowSets::new();

    assert!(sets.is_in_first(NonTerminal::Programa, &Symbol::Terminal(Token::Programa)));
}
