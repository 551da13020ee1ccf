//! Tests of the character classes, the token-kind names and the automaton
//! specification parser.

use redes::lexer_new::automaton::{Automaton, CharClass, StateId};
use redes::lexer_new::token::TokenType;

#[test]
fn test_char_class_exact() {
    let class = CharClass::Exact('a');
    assert!(class.matches('a'));
    assert!(!class.matches('b'));
}

#[test]
fn test_char_class_range() {
    let class = CharClass::Range('a', 'z');
    assert!(class.matches('a'));
    assert!(class.matches('m'));
    assert!(class.matches('z'));
    assert!(!class.matches('A'));
    assert!(!class.matches('0'));
}

#[test]
fn test_char_class_any() {
    let class = CharClass::Any;
    assert!(class.matches('a'));
    assert!(class.matches('Z'));
    assert!(class.matches('0'));
    assert!(class.matches('@'));
}

#[test]
fn test_char_class_parse() {
    assert!(matches!(CharClass::parse("a").unwrap(), CharClass::Exact('a')));
    assert!(matches!(CharClass::parse("[a-z]").unwrap(), CharClass::Range('a', 'z')));
    assert!(matches!(CharClass::parse("ANY").unwrap(), CharClass::Any));
    assert!(matches!(CharClass::parse("\\n").unwrap(), CharClass::Exact('\n')));
}

#[test]
fn test_state_id() {
    let s1 = StateId::new(0);
    let s2 = StateId::new(0);
    let s3 = StateId::new(1);

    assert_eq!(s1, s2);
    assert_ne!(s1, s3);
    assert_eq!(s1.as_usize(), 0);
    assert_eq!(s3.as_usize(), 1);
}

#[test]
fn test_parse_token_type() {
    assert!(matches!(Automaton::parse_token_type("PROGRAMA").unwrap(), TokenType::Programa));
    assert!(matches!(Automaton::parse_token_type("IDENTIFIER").unwrap(), TokenType::Identifier));
    assert!(matches!(Automaton::parse_token_type("EQUAL").unwrap(), TokenType::Equal));
    assert!(Automaton::parse_token_type("INVALID").is_err());
}

#[test]
fn test_char_class_parse_escaped() {
    assert!(matches!(CharClass::parse("\\t").unwrap(), CharClass::Exact('\t')));
    assert!(matches!(CharClass::parse("\\n").unwrap(), CharClass::Exact('\n')));
    assert!(matches!(CharClass::parse("\\r").unwrap(), CharClass::Exact('\r')));
    assert!(matches!(CharClass::parse("\\s").unwrap(), CharClass::Exact(' ')));
}

#[test]
fn test_char_class_parse_predefined() {
    // ALPHA covers the lower-case letters only.
    let alpha = CharClass::parse("ALPHA").unwrap();
    assert!(matches!(alpha, CharClass::Range('a', 'z')));

    // DIGIT
    let digit = CharClass::parse("DIGIT").unwrap();
    assert!(matches!(digit, CharClass::Range('0', '9')));
}

#[test]
fn test_automaton_parse_simple() {
    let content = r#"
METADATA
name: TestLexer
version: 1.0
initial_state: q0
END_METADATA

STATES
q0
q1 FINAL:IDENTIFIER
END_STATES

TRANSITIONS
q0, a, q1
END_TRANSITIONS

KEYWORDS
END_KEYWORDS
"#;

    let automaton = Automaton::parse(content).unwrap();
    assert_eq!(automaton.initial_state.as_usize(), 0);
    assert_eq!(automaton.transitions.len(), 1);
}

#[test]
fn test_automaton_transitions() {
    let content = r#"
METADATA
name: TestLexer
version: 1.0
initial_state: q0
END_METADATA

STATES
q0
q_id FINAL:IDENTIFIER
q_num FINAL:NUMBER
END_STATES

TRANSITIONS
q0, [a-z], q_id
q_id, [a-z], q_id
q0, [0-9], q_num
q_num, [0-9], q_num
END_TRANSITIONS

KEYWORDS
END_KEYWORDS
"#;

    let automaton = Automaton::parse(content).unwrap();
    let q0 = automaton.initial_state();

    // An identifier transition reaches an accepting state.
    let q_id = automaton.next_state(q0, 'a').unwrap();
    assert!(automaton.is_final(q_id).is_some());
    assert_eq!(automaton.is_final(q_id).unwrap(), &TokenType::Identifier);

    // A number transition reaches its accepting state.
    let q_num = automaton.next_state(q0, '5').unwrap();
    assert!(automaton.is_final(q_num).is_some());
    assert_eq!(automaton.is_final(q_num).unwrap(), &TokenType::Number);

    // No transition accepts this character.
    assert!(automaton.next_state(q0, '@').is_none());
}

#[test]
fn test_keyword_classification() {
    let content = r#"
METADATA
name: TestLexer
version: 1.0
initial_state: q0
END_METADATA

STATES
q0
q_id FINAL:IDENTIFIER
END_STATES

TRANSITIONS
q0, [a-z], q_id
q_id, [a-z], q_id
END_TRANSITIONS

KEYWORDS
programa, PROGRAMA
inicio, INICIO
coloca, COLOCA
END_KEYWORDS
"#;

    let automaton = Automaton::parse(content).unwrap();

    // Reserved words are case-insensitive.
    assert_eq!(automaton.classify_identifier("programa"), TokenType::Programa);
    assert_eq!(automaton.classify_identifier("PROGRAMA"), TokenType::Programa);
    assert_eq!(automaton.classify_identifier("Programa"), TokenType::Programa);

    // Everything else stays an identifier.
    assert_eq!(automaton.classify_identifier("miVariable"), TokenType::Identifier);
    assert_eq!(automaton.classify_identifier("test123"), TokenType::Identifier);
}
