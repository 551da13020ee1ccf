//! The token vocabulary the parsers consume. The scanner produces
//! automaton-level tokens; the bridge converts them into these, which carry
//! their literal payloads (identifier text, number value, string contents).

use vstd::prelude::*;

verus! {

/// A classified token with its literal payload, as the parsers see it.
#[derive(Debug, Clone, PartialEq, Eq, Hash)]
pub enum Token {
    // Reserved words
    Programa,
    Define,
    Maquinas,
    Concentradores,
    Coaxial,
    Segmento,
    Modulo,
    Inicio,
    Fin,
    Si,
    Sino,
    // Statement function names
    Coloca,
    ColocaCoaxial,
    ColocaCoaxialConcentrador,
    UneMaquinaPuerto,
    AsignaPuerto,
    MaquinaCoaxial,
    AsignaMaquinaCoaxial,
    Escribe,
    // Directions
    Arriba,
    Abajo,
    Izquierda,
    Derecha,
    // Relational operators
    Igual,
    Menor,
    Mayor,
    MenorIgual,
    MayorIgual,
    Diferente,
    // Logical operators
    And,
    Or,
    Not,
    // Delimiters
    Coma,
    PuntoYComa,
    Punto,
    ParenIzq,
    ParenDer,
    CorcheteIzq,
    CorcheteDer,
    // Literals
    Identificador(String),
    Numero(i32),
    Cadena(String),
    // Discarded before parsing
    Whitespace,
}

/// Whether two tokens are the same, comparing literal payloads by content.
pub open spec fn spec_token_eq(a: Token, b: Token) -> bool {
    match (a, b) {
        (Token::Programa, Token::Programa) => true,
        (Token::Define, Token::Define) => true,
        (Token::Maquinas, Token::Maquinas) => true,
        (Token::Concentradores, Token::Concentradores) => true,
        (Token::Coaxial, Token::Coaxial) => true,
        (Token::Segmento, Token::Segmento) => true,
        (Token::Modulo, Token::Modulo) => true,
        (Token::Inicio, Token::Inicio) => true,
        (Token::Fin, Token::Fin) => true,
        (Token::Si, Token::Si) => true,
        (Token::Sino, Token::Sino) => true,
        (Token::Coloca, Token::Coloca) => true,
        (Token::ColocaCoaxial, Token::ColocaCoaxial) => true,
        (Token::ColocaCoaxialConcentrador, Token::ColocaCoaxialConcentrador) => true,
        (Token::UneMaquinaPuerto, Token::UneMaquinaPuerto) => true,
        (Token::AsignaPuerto, Token::AsignaPuerto) => true,
        (Token::MaquinaCoaxial, Token::MaquinaCoaxial) => true,
        (Token::AsignaMaquinaCoaxial, Token::AsignaMaquinaCoaxial) => true,
        (Token::Escribe, Token::Escribe) => true,
        (Token::Arriba, Token::Arriba) => true,
        (Token::Abajo, Token::Abajo) => true,
        (Token::Izquierda, Token::Izquierda) => true,
        (Token::Derecha, Token::Derecha) => true,
        (Token::Igual, Token::Igual) => true,
        (Token::Menor, Token::Menor) => true,
        (Token::Mayor, Token::Mayor) => true,
        (Token::MenorIgual, Token::MenorIgual) => true,
        (Token::MayorIgual, Token::MayorIgual) => true,
        (Token::Diferente, Token::Diferente) => true,
        (Token::And, Token::And) => true,
        (Token::Or, Token::Or) => true,
        (Token::Not, Token::Not) => true,
        (Token::Coma, Token::Coma) => true,
        (Token::PuntoYComa, Token::PuntoYComa) => true,
        (Token::Punto, Token::Punto) => true,
        (Token::ParenIzq, Token::ParenIzq) => true,
        (Token::ParenDer, Token::ParenDer) => true,
        (Token::CorcheteIzq, Token::CorcheteIzq) => true,
        (Token::CorcheteDer, Token::CorcheteDer) => true,
        (Token::Identificador(x), Token::Identificador(y)) => x@ == y@,
        (Token::Numero(x), Token::Numero(y)) => x == y,
        (Token::Cadena(x), Token::Cadena(y)) => x@ == y@,
        (Token::Whitespace, Token::Whitespace) => true,
        _ => false,
    }
}

/// Compares two tokens, literal payloads by content.
#[verifier::rlimit(50)]
pub fn token_eq(a: &Token, b: &Token) -> (r: bool)
    ensures
        r == spec_token_eq(*a, *b),
{
    match (a, b) {
        (Token::Programa, Token::Programa) => true,
        (Token::Define, Token::Define) => true,
        (Token::Maquinas, Token::Maquinas) => true,
        (Token::Concentradores, Token::Concentradores) => true,
        (Token::Coaxial, Token::Coaxial) => true,
        (Token::Segmento, Token::Segmento) => true,
        (Token::Modulo, Token::Modulo) => true,
        (Token::Inicio, Token::Inicio) => true,
        (Token::Fin, Token::Fin) => true,
        (Token::Si, Token::Si) => true,
        (Token::Sino, Token::Sino) => true,
        (Token::Coloca, Token::Coloca) => true,
        (Token::ColocaCoaxial, Token::ColocaCoaxial) => true,
        (Token::ColocaCoaxialConcentrador, Token::ColocaCoaxialConcentrador) => true,
        (Token::UneMaquinaPuerto, Token::UneMaquinaPuerto) => true,
        (Token::AsignaPuerto, Token::AsignaPuerto) => true,
        (Token::MaquinaCoaxial, Token::MaquinaCoaxial) => true,
        (Token::AsignaMaquinaCoaxial, Token::AsignaMaquinaCoaxial) => true,
        (Token::Escribe, Token::Escribe) => true,
        (Token::Arriba, Token::Arriba) => true,
        (Token::Abajo, Token::Abajo) => true,
        (Token::Izquierda, Token::Izquierda) => true,
        (Token::Derecha, Token::Derecha) => true,
        (Token::Igual, Token::Igual) => true,
        (Token::Menor, Token::Menor) => true,
        (Token::Mayor, Token::Mayor) => true,
        (Token::MenorIgual, Token::MenorIgual) => true,
        (Token::MayorIgual, Token::MayorIgual) => true,
        (Token::Diferente, Token::Diferente) => true,
        (Token::And, Token::And) => true,
        (Token::Or, Token::Or) => true,
        (Token::Not, Token::Not) => true,
        (Token::Coma, Token::Coma) => true,
        (Token::PuntoYComa, Token::PuntoYComa) => true,
        (Token::Punto, Token::Punto) => true,
        (Token::ParenIzq, Token::ParenIzq) => true,
        (Token::ParenDer, Token::ParenDer) => true,
        (Token::CorcheteIzq, Token::CorcheteIzq) => true,
        (Token::CorcheteDer, Token::CorcheteDer) => true,
        (Token::Identificador(x), Token::Identificador(y)) => x.eq(y),
        (Token::Numero(x), Token::Numero(y)) => *x == *y,
        (Token::Cadena(x), Token::Cadena(y)) => x.eq(y),
        (Token::Whitespace, Token::Whitespace) => true,
        _ => false,
    }
}

/// A token together with its source position and original text.
#[derive(Debug, Clone, PartialEq)]
pub struct TokenInfo {
    pub token: Token,
    pub line: usize,
    pub column: usize,
    pub length: usize,
    pub lexeme: String,
}

/// A lexical failure in the parser-facing vocabulary.
#[derive(Debug, Clone, PartialEq)]
pub struct LexerError {
    pub line: usize,
    pub column: usize,
    pub length: usize,
    pub message: String,
}

} // verus!
