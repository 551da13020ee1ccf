//! The automaton-driven lexer: token kinds, the finite automaton with its
//! specification parser, the scanner, and lexical errors.

pub mod automaton;
pub mod scanner;
pub mod error;
pub mod token;
