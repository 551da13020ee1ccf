//! A compiler and interpreter front end for a small domain-specific language
//! describing Ethernet network topologies: machines, concentrators (hubs) with
//! fixed port counts, and coaxial segments, together with placement, wiring and
//! output statements.
//!
//! The pipeline runs strictly forward: source text is tokenized by a
//! data-driven finite automaton, validated against an LL(1) grammar table,
//! rebuilt into a syntax tree by recursive descent, checked by a semantic
//! analyzer, and finally executed by a tree-walking interpreter.

pub mod ast;
pub mod interpreter;
pub mod lexer;
pub mod lexer_bridge;
pub mod lexer_new;
pub mod parser;
pub mod parser_ll1;
pub mod semantic;
pub mod texto;
