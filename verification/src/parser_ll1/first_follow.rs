//! Statically supplied FIRST and FOLLOW sets for the LL(1) grammar: which
//! terminals can begin each non-terminal's expansion, and which can legally
//! follow it.

use vstd::prelude::*;
use crate::lexer::{spec_token_eq, token_eq, Token};

verus! {

use crate::parser_ll1::first_follow::NonTerminal as NT;


/// A grammar symbol: a terminal (compared by kind, with payload tokens
/// standing for their whole class), a non-terminal, the empty word, or the
/// end of the input.
#[derive(Debug, Clone, PartialEq, Eq, Hash)]
pub enum Symbol {
    Terminal(Token),
    NonTerminal(NonTerminal),
    Epsilon,
    Eof,
}

/// The non-terminals of the grammar.
#[derive(Debug, Clone, Copy, PartialEq, Eq, Hash, PartialOrd, Ord, Structural)]
pub enum NonTerminal {
    Programa,
    Definiciones,
    DefMaquinas,
    DefConcentradores,
    DefCoaxiales,
    TipoCoaxial,
    ListaMaquinas,
    ListaMaquinasPrime,
    ListaConcentradores,
    ListaConcentradoresPrime,
    DeclConcentrador,
    OpcionCoaxial,
    ListaCoaxiales,
    ListaCoaxialesPrime,
    DeclCoaxial,
    Modulos,
    Modulo,
    BloqueInicio,
    Sentencias,
    Sentencia,
    SentenciaColoca,
    SentenciaColocaCoaxial,
    SentenciaColocaCoaxialConcentrador,
    SentenciaUneMaquinaPuerto,
    SentenciaAsignaPuerto,
    SentenciaMaquinaCoaxial,
    SentenciaAsignaMaquinaCoaxial,
    SentenciaEscribe,
    SentenciaSi,
    OpcionSino,
    LlamadaModulo,
    Direccion,
    Expresion,
    ExpresionOr,
    ExpresionOrPrime,
    ExpresionAnd,
    ExpresionAndPrime,
    ExpresionRelacional,
    OpRelacional,
    OperadorRelacional,
    ExpresionNot,
    ExpresionPrimaria,
    Accesos,
    AccesoCampo,
    AccesoArreglo,
}

impl NonTerminal {
    /// The display name of the non-terminal.
    pub fn as_str(&self) -> (r: &'static str) {
        match self {
            NonTerminal::Programa => "Programa",
            NonTerminal::Definiciones => "Definiciones",
            NonTerminal::DefMaquinas => "DefMaquinas",
            NonTerminal::DefConcentradores => "DefConcentradores",
            NonTerminal::DefCoaxiales => "DefCoaxiales",
            NonTerminal::TipoCoaxial => "TipoCoaxial",
            NonTerminal::ListaMaquinas => "ListaMaquinas",
            NonTerminal::ListaMaquinasPrime => "ListaMaquinas'",
            NonTerminal::ListaConcentradores => "ListaConcentradores",
            NonTerminal::ListaConcentradoresPrime => "ListaConcentradores'",
            NonTerminal::DeclConcentrador => "DeclConcentrador",
            NonTerminal::OpcionCoaxial => "OpcionCoaxial",
            NonTerminal::ListaCoaxiales => "ListaCoaxiales",
            NonTerminal::ListaCoaxialesPrime => "ListaCoaxiales'",
            NonTerminal::DeclCoaxial => "DeclCoaxial",
            NonTerminal::Modulos => "Modulos",
            NonTerminal::Modulo => "Modulo",
            NonTerminal::BloqueInicio => "BloqueInicio",
            NonTerminal::Sentencias => "Sentencias",
            NonTerminal::Sentencia => "Sentencia",
            NonTerminal::SentenciaColoca => "SentenciaColoca",
            NonTerminal::SentenciaColocaCoaxial => "SentenciaColocaCoaxial",
            NonTerminal::SentenciaColocaCoaxialConcentrador => "SentenciaColocaCoaxialConcentrador",
            NonTerminal::SentenciaUneMaquinaPuerto => "SentenciaUneMaquinaPuerto",
            NonTerminal::SentenciaAsignaPuerto => "SentenciaAsignaPuerto",
            NonTerminal::SentenciaMaquinaCoaxial => "SentenciaMaquinaCoaxial",
            NonTerminal::SentenciaAsignaMaquinaCoaxial => "SentenciaAsignaMaquinaCoaxial",
            NonTerminal::SentenciaEscribe => "SentenciaEscribe",
            NonTerminal::SentenciaSi => "SentenciaSi",
            NonTerminal::OpcionSino => "OpcionSino",
            NonTerminal::LlamadaModulo => "LlamadaModulo",
            NonTerminal::Direccion => "Direccion",
            NonTerminal::Expresion => "Expresion",
            NonTerminal::ExpresionOr => "ExpresionOr",
            NonTerminal::ExpresionOrPrime => "ExpresionOr'",
            NonTerminal::ExpresionAnd => "ExpresionAnd",
            NonTerminal::ExpresionAndPrime => "ExpresionAnd'",
            NonTerminal::ExpresionRelacional => "ExpresionRelacional",
            NonTerminal::OpRelacional => "OpRelacional",
            NonTerminal::OperadorRelacional => "OperadorRelacional",
            NonTerminal::ExpresionNot => "ExpresionNot",
            NonTerminal::ExpresionPrimaria => "ExpresionPrimaria",
            NonTerminal::Accesos => "Accesos",
            NonTerminal::AccesoCampo => "AccesoCampo",
            NonTerminal::AccesoArreglo => "AccesoArreglo",
        }
    }
}

/// Whether two symbols are the same, terminals compared by `spec_token_eq`.
pub open spec fn spec_symbol_eq(a: Symbol, b: Symbol) -> bool {
    match (a, b) {
        (Symbol::Terminal(x), Symbol::Terminal(y)) => spec_token_eq(x, y),
        (Symbol::NonTerminal(p), Symbol::NonTerminal(q)) => p == q,
        (Symbol::Epsilon, Symbol::Epsilon) => true,
        (Symbol::Eof, Symbol::Eof) => true,
        _ => false,
    }
}

/// Compares two symbols.
pub fn symbol_eq(a: &Symbol, b: &Symbol) -> (r: bool)
    ensures
        r == spec_symbol_eq(*a, *b),
{
    match (a, b) {
        (Symbol::Terminal(x), Symbol::Terminal(y)) => token_eq(x, y),
        (Symbol::NonTerminal(p), Symbol::NonTerminal(q)) => *p == *q,
        (Symbol::Epsilon, Symbol::Epsilon) => true,
        (Symbol::Eof, Symbol::Eof) => true,
        _ => false,
    }
}

/// Whether a set of symbols holds `x`.
pub open spec fn spec_contiene(s: Seq<Symbol>, x: Symbol) -> bool {
    exists|i: int| 0 <= i < s.len() && spec_symbol_eq(s[i], x)
}

/// The first entry of an association list keyed by non-terminal.
pub open spec fn spec_buscar_conjunto(m: Seq<(NonTerminal, Vec<Symbol>)>, nt: NonTerminal) -> Option<
    Vec<Symbol>,
>
    decreases m.len(),
{
    if m.len() == 0 {
        None
    } else if m.first().0 == nt {
        Some(m.first().1)
    } else {
        spec_buscar_conjunto(m.drop_first(), nt)
    }
}

/// The FIRST set of a statement: its ten leading tokens.
pub open spec fn forma_sentencia(s: Seq<Symbol>) -> bool {
    &&& s.len() == 10
    &&& s[0] == Symbol::Terminal(Token::Coloca)
    &&& s[1] == Symbol::Terminal(Token::ColocaCoaxial)
    &&& s[2] == Symbol::Terminal(Token::ColocaCoaxialConcentrador)
    &&& s[3] == Symbol::Terminal(Token::UneMaquinaPuerto)
    &&& s[4] == Symbol::Terminal(Token::AsignaPuerto)
    &&& s[5] == Symbol::Terminal(Token::MaquinaCoaxial)
    &&& s[6] == Symbol::Terminal(Token::AsignaMaquinaCoaxial)
    &&& s[7] == Symbol::Terminal(Token::Escribe)
    &&& s[8] == Symbol::Terminal(Token::Si)
    &&& (s[9] matches Symbol::Terminal(t) && t is Identificador)
}

/// The FIRST set of a statement list: a statement's leading tokens or the empty word.
pub open spec fn forma_sentencia_eps(s: Seq<Symbol>) -> bool {
    &&& s.len() == 11
    &&& s[0] == Symbol::Terminal(Token::Coloca)
    &&& s[1] == Symbol::Terminal(Token::ColocaCoaxial)
    &&& s[2] == Symbol::Terminal(Token::ColocaCoaxialConcentrador)
    &&& s[3] == Symbol::Terminal(Token::UneMaquinaPuerto)
    &&& s[4] == Symbol::Terminal(Token::AsignaPuerto)
    &&& s[5] == Symbol::Terminal(Token::MaquinaCoaxial)
    &&& s[6] == Symbol::Terminal(Token::AsignaMaquinaCoaxial)
    &&& s[7] == Symbol::Terminal(Token::Escribe)
    &&& s[8] == Symbol::Terminal(Token::Si)
    &&& (s[9] matches Symbol::Terminal(t) && t is Identificador)
    &&& s[10] == Symbol::Epsilon
}

/// The FOLLOW set of a statement: the next statement's leading tokens or the closing `fin`.
pub open spec fn forma_seg_sentencia(s: Seq<Symbol>) -> bool {
    &&& s.len() == 11
    &&& s[0] == Symbol::Terminal(Token::Coloca)
    &&& s[1] == Symbol::Terminal(Token::ColocaCoaxial)
    &&& s[2] == Symbol::Terminal(Token::ColocaCoaxialConcentrador)
    &&& s[3] == Symbol::Terminal(Token::UneMaquinaPuerto)
    &&& s[4] == Symbol::Terminal(Token::AsignaPuerto)
    &&& s[5] == Symbol::Terminal(Token::MaquinaCoaxial)
    &&& s[6] == Symbol::Terminal(Token::AsignaMaquinaCoaxial)
    &&& s[7] == Symbol::Terminal(Token::Escribe)
    &&& s[8] == Symbol::Terminal(Token::Si)
    &&& (s[9] matches Symbol::Terminal(t) && t is Identificador)
    &&& s[10] == Symbol::Terminal(Token::Fin)
}

/// The FIRST set of an expression.
pub open spec fn forma_expr5(s: Seq<Symbol>) -> bool {
    &&& s.len() == 5
    &&& s[0] == Symbol::Terminal(Token::Not)
    &&& (s[1] matches Symbol::Terminal(t) && t is Numero)
    &&& (s[2] matches Symbol::Terminal(t) && t is Cadena)
    &&& (s[3] matches Symbol::Terminal(t) && t is Identificador)
    &&& s[4] == Symbol::Terminal(Token::ParenIzq)
}

/// The FIRST set of a primary expression.
pub open spec fn forma_expr4(s: Seq<Symbol>) -> bool {
    &&& s.len() == 4
    &&& (s[0] matches Symbol::Terminal(t) && t is Numero)
    &&& (s[1] matches Symbol::Terminal(t) && t is Cadena)
    &&& (s[2] matches Symbol::Terminal(t) && t is Identificador)
    &&& s[3] == Symbol::Terminal(Token::ParenIzq)
}

/// The FOLLOW set of a full expression.
pub open spec fn forma_seg_expr(s: Seq<Symbol>) -> bool {
    &&& s.len() == 5
    &&& s[0] == Symbol::Terminal(Token::ParenDer)
    &&& s[1] == Symbol::Terminal(Token::Coma)
    &&& s[2] == Symbol::Terminal(Token::CorcheteDer)
    &&& s[3] == Symbol::Terminal(Token::PuntoYComa)
    &&& s[4] == Symbol::Terminal(Token::Inicio)
}

/// The FOLLOW set of a conjunction.
pub open spec fn forma_seg_and(s: Seq<Symbol>) -> bool {
    &&& s.len() == 6
    &&& s[0] == Symbol::Terminal(Token::ParenDer)
    &&& s[1] == Symbol::Terminal(Token::Coma)
    &&& s[2] == Symbol::Terminal(Token::CorcheteDer)
    &&& s[3] == Symbol::Terminal(Token::PuntoYComa)
    &&& s[4] == Symbol::Terminal(Token::Inicio)
    &&& s[5] == Symbol::Terminal(Token::Or)
}

/// The FOLLOW set of a relational expression.
pub open spec fn forma_seg_rel(s: Seq<Symbol>) -> bool {
    &&& s.len() == 7
    &&& s[0] == Symbol::Terminal(Token::ParenDer)
    &&& s[1] == Symbol::Terminal(Token::Coma)
    &&& s[2] == Symbol::Terminal(Token::CorcheteDer)
    &&& s[3] == Symbol::Terminal(Token::PuntoYComa)
    &&& s[4] == Symbol::Terminal(Token::Inicio)
    &&& s[5] == Symbol::Terminal(Token::And)
    &&& s[6] == Symbol::Terminal(Token::Or)
}

/// The FOLLOW set of a negation or primary.
pub open spec fn forma_seg_not(s: Seq<Symbol>) -> bool {
    &&& s.len() == 13
    &&& s[0] == Symbol::Terminal(Token::Igual)
    &&& s[1] == Symbol::Terminal(Token::Diferente)
    &&& s[2] == Symbol::Terminal(Token::Menor)
    &&& s[3] == Symbol::Terminal(Token::Mayor)
    &&& s[4] == Symbol::Terminal(Token::MenorIgual)
    &&& s[5] == Symbol::Terminal(Token::MayorIgual)
    &&& s[6] == Symbol::Terminal(Token::And)
    &&& s[7] == Symbol::Terminal(Token::Or)
    &&& s[8] == Symbol::Terminal(Token::ParenDer)
    &&& s[9] == Symbol::Terminal(Token::Coma)
    &&& s[10] == Symbol::Terminal(Token::CorcheteDer)
    &&& s[11] == Symbol::Terminal(Token::PuntoYComa)
    &&& s[12] == Symbol::Terminal(Token::Inicio)
}

/// The complete content of the FIRST table, one clause per non-terminal.
pub open spec fn primeros_correctos(m: Seq<(NonTerminal, Vec<Symbol>)>) -> bool {
    &&& (spec_buscar_conjunto(m, NonTerminal::Programa) matches Some(s)
        && (s@.len() == 1 && s@[0] == Symbol::Terminal(Token::Programa)))
    &&& (spec_buscar_conjunto(m, NonTerminal::Definiciones) matches Some(s)
        && (s@.len() == 2 && s@[0] == Symbol::Terminal(Token::Define) && s@[1] == Symbol::Epsilon))
    &&& (spec_buscar_conjunto(m, NonTerminal::DefMaquinas) matches Some(s)
        && (s@.len() == 2 && s@[0] == Symbol::Terminal(Token::Define) && s@[1] == Symbol::Epsilon))
    &&& (spec_buscar_conjunto(m, NonTerminal::DefConcentradores) matches Some(s)
        && (s@.len() == 2 && s@[0] == Symbol::Terminal(Token::Define) && s@[1] == Symbol::Epsilon))
    &&& (spec_buscar_conjunto(m, NonTerminal::DefCoaxiales) matches Some(s)
        && (s@.len() == 2 && s@[0] == Symbol::Terminal(Token::Define) && s@[1] == Symbol::Epsilon))
    &&& (spec_buscar_conjunto(m, NonTerminal::TipoCoaxial) matches Some(s)
        && (s@.len() == 2 && s@[0] == Symbol::Terminal(Token::Coaxial) && s@[1] == Symbol::Terminal(Token::Segmento)))
    &&& (spec_buscar_conjunto(m, NonTerminal::ListaMaquinas) matches Some(s)
        && (s@.len() == 1 && (s@[0] matches Symbol::Terminal(t) && t is Identificador)))
    &&& (spec_buscar_conjunto(m, NonTerminal::ListaMaquinasPrime) matches Some(s)
        && (s@.len() == 2 && s@[0] == Symbol::Terminal(Token::Coma) && s@[1] == Symbol::Epsilon))
    &&& (spec_buscar_conjunto(m, NonTerminal::ListaConcentradores) matches Some(s)
        && (s@.len() == 1 && (s@[0] matches Symbol::Terminal(t) && t is Identificador)))
    &&& (spec_buscar_conjunto(m, NonTerminal::ListaConcentradoresPrime) matches Some(s)
        && (s@.len() == 2 && s@[0] == Symbol::Terminal(Token::Coma) && s@[1] == Symbol::Epsilon))
    &&& (spec_buscar_conjunto(m, NonTerminal::DeclConcentrador) matches Some(s)
        && (s@.len() == 1 && (s@[0] matches Symbol::Terminal(t) && t is Identificador)))
    &&& (spec_buscar_conjunto(m, NonTerminal::OpcionCoaxial) matches Some(s)
        && (s@.len() == 2 && s@[0] == Symbol::Terminal(Token::Punto) && s@[1] == Symbol::Epsilon))
    &&& (spec_buscar_conjunto(m, NonTerminal::ListaCoaxiales) matches Some(s)
        && (s@.len() == 1 && (s@[0] matches Symbol::Terminal(t) && t is Identificador)))
    &&& (spec_buscar_conjunto(m, NonTerminal::ListaCoaxialesPrime) matches Some(s)
        && (s@.len() == 2 && s@[0] == Symbol::Terminal(Token::Coma) && s@[1] == Symbol::Epsilon))
    &&& (spec_buscar_conjunto(m, NonTerminal::DeclCoaxial) matches Some(s)
        && (s@.len() == 1 && (s@[0] matches Symbol::Terminal(t) && t is Identificador)))
    &&& (spec_buscar_conjunto(m, NonTerminal::Modulos) matches Some(s)
        && (s@.len() == 2 && s@[0] == Symbol::Terminal(Token::Modulo) && s@[1] == Symbol::Epsilon))
    &&& (spec_buscar_conjunto(m, NonTerminal::Modulo) matches Some(s)
        && (s@.len() == 1 && s@[0] == Symbol::Terminal(Token::Modulo)))
    &&& (spec_buscar_conjunto(m, NonTerminal::BloqueInicio) matches Some(s)
        && (s@.len() == 1 && s@[0] == Symbol::Terminal(Token::Inicio)))
    &&& (spec_buscar_conjunto(m, NonTerminal::Sentencias) matches Some(s)
        && (forma_sentencia_eps(s@)))
    &&& (spec_buscar_conjunto(m, NonTerminal::Sentencia) matches Some(s)
        && (forma_sentencia(s@)))
    &&& (spec_buscar_conjunto(m, NonTerminal::SentenciaColoca) matches Some(s)
        && (s@.len() == 1 && s@[0] == Symbol::Terminal(Token::Coloca)))
    &&& (spec_buscar_conjunto(m, NonTerminal::SentenciaColocaCoaxial) matches Some(s)
        && (s@.len() == 1 && s@[0] == Symbol::Terminal(Token::ColocaCoaxial)))
    &&& (spec_buscar_conjunto(m, NonTerminal::SentenciaColocaCoaxialConcentrador) matches Some(s)
        && (s@.len() == 1 && s@[0] == Symbol::Terminal(Token::ColocaCoaxialConcentrador)))
    &&& (spec_buscar_conjunto(m, NonTerminal::SentenciaUneMaquinaPuerto) matches Some(s)
        && (s@.len() == 1 && s@[0] == Symbol::Terminal(Token::UneMaquinaPuerto)))
    &&& (spec_buscar_conjunto(m, NonTerminal::SentenciaAsignaPuerto) matches Some(s)
        && (s@.len() == 1 && s@[0] == Symbol::Terminal(Token::AsignaPuerto)))
    &&& (spec_buscar_conjunto(m, NonTerminal::SentenciaMaquinaCoaxial) matches Some(s)
        && (s@.len() == 1 && s@[0] == Symbol::Terminal(Token::MaquinaCoaxial)))
    &&& (spec_buscar_conjunto(m, NonTerminal::SentenciaAsignaMaquinaCoaxial) matches Some(s)
        && (s@.len() == 1 && s@[0] == Symbol::Terminal(Token::AsignaMaquinaCoaxial)))
    &&& (spec_buscar_conjunto(m, NonTerminal::SentenciaEscribe) matches Some(s)
        && (s@.len() == 1 && s@[0] == Symbol::Terminal(Token::Escribe)))
    &&& (spec_buscar_conjunto(m, NonTerminal::SentenciaSi) matches Some(s)
        && (s@.len() == 1 && s@[0] == Symbol::Terminal(Token::Si)))
    &&& (spec_buscar_conjunto(m, NonTerminal::OpcionSino) matches Some(s)
        && (s@.len() == 2 && s@[0] == Symbol::Terminal(Token::Sino) && s@[1] == Symbol::Epsilon))
    &&& (spec_buscar_conjunto(m, NonTerminal::LlamadaModulo) matches Some(s)
        && (s@.len() == 1 && (s@[0] matches Symbol::Terminal(t) && t is Identificador)))
    &&& (spec_buscar_conjunto(m, NonTerminal::Direccion) matches Some(s)
        && (s@.len() == 4 && s@[0] == Symbol::Terminal(Token::Arriba) && s@[1] == Symbol::Terminal(Token::Abajo) && s@[2] == Symbol::Terminal(Token::Izquierda) && s@[3] == Symbol::Terminal(Token::Derecha)))
    &&& (spec_buscar_conjunto(m, NonTerminal::Expresion) matches Some(s)
        && (forma_expr5(s@)))
    &&& (spec_buscar_conjunto(m, NonTerminal::ExpresionOr) matches Some(s)
        && (forma_expr5(s@)))
    &&& (spec_buscar_conjunto(m, NonTerminal::ExpresionOrPrime) matches Some(s)
        && (s@.len() == 2 && s@[0] == Symbol::Terminal(Token::Or) && s@[1] == Symbol::Epsilon))
    &&& (spec_buscar_conjunto(m, NonTerminal::ExpresionAnd) matches Some(s)
        && (forma_expr5(s@)))
    &&& (spec_buscar_conjunto(m, NonTerminal::ExpresionAndPrime) matches Some(s)
        && (s@.len() == 2 && s@[0] == Symbol::Terminal(Token::And) && s@[1] == Symbol::Epsilon))
    &&& (spec_buscar_conjunto(m, NonTerminal::ExpresionRelacional) matches Some(s)
        && (forma_expr5(s@)))
    &&& (spec_buscar_conjunto(m, NonTerminal::OpRelacional) matches Some(s)
        && (s@.len() == 7 && s@[0] == Symbol::Terminal(Token::Igual) && s@[1] == Symbol::Terminal(Token::Diferente) && s@[2] == Symbol::Terminal(Token::Menor) && s@[3] == Symbol::Terminal(Token::Mayor) && s@[4] == Symbol::Terminal(Token::MenorIgual) && s@[5] == Symbol::Terminal(Token::MayorIgual) && s@[6] == Symbol::Epsilon))
    &&& (spec_buscar_conjunto(m, NonTerminal::OperadorRelacional) matches Some(s)
        && (s@.len() == 6 && s@[0] == Symbol::Terminal(Token::Igual) && s@[1] == Symbol::Terminal(Token::Diferente) && s@[2] == Symbol::Terminal(Token::Menor) && s@[3] == Symbol::Terminal(Token::Mayor) && s@[4] == Symbol::Terminal(Token::MenorIgual) && s@[5] == Symbol::Terminal(Token::MayorIgual)))
    &&& (spec_buscar_conjunto(m, NonTerminal::ExpresionNot) matches Some(s)
        && (forma_expr5(s@)))
    &&& (spec_buscar_conjunto(m, NonTerminal::ExpresionPrimaria) matches Some(s)
        && (forma_expr4(s@)))
    &&& (spec_buscar_conjunto(m, NonTerminal::Accesos) matches Some(s)
        && (s@.len() == 3 && s@[0] == Symbol::Terminal(Token::Punto) && s@[1] == Symbol::Terminal(Token::CorcheteIzq) && s@[2] == Symbol::Epsilon))
    &&& (spec_buscar_conjunto(m, NonTerminal::AccesoCampo) matches Some(s)
        && (s@.len() == 1 && s@[0] == Symbol::Terminal(Token::Punto)))
    &&& (spec_buscar_conjunto(m, NonTerminal::AccesoArreglo) matches Some(s)
        && (s@.len() == 2 && s@[0] == Symbol::Terminal(Token::CorcheteIzq) && s@[1] == Symbol::Epsilon))
}

/// The complete content of the FOLLOW table, one clause per non-terminal.
pub open spec fn seguidores_correctos(m: Seq<(NonTerminal, Vec<Symbol>)>) -> bool {
    &&& (spec_buscar_conjunto(m, NonTerminal::Programa) matches Some(s)
        && (s@.len() == 1 && s@[0] == Symbol::Eof))
    &&& (spec_buscar_conjunto(m, NonTerminal::Definiciones) matches Some(s)
        && (s@.len() == 2 && s@[0] == Symbol::Terminal(Token::Modulo) && s@[1] == Symbol::Terminal(Token::Inicio)))
    &&& (spec_buscar_conjunto(m, NonTerminal::DefMaquinas) matches Some(s)
        && (s@.len() == 3 && s@[0] == Symbol::Terminal(Token::Define) && s@[1] == Symbol::Terminal(Token::Modulo) && s@[2] == Symbol::Terminal(Token::Inicio)))
    &&& (spec_buscar_conjunto(m, NonTerminal::DefConcentradores) matches Some(s)
        && (s@.len() == 3 && s@[0] == Symbol::Terminal(Token::Define) && s@[1] == Symbol::Terminal(Token::Modulo) && s@[2] == Symbol::Terminal(Token::Inicio)))
    &&& (spec_buscar_conjunto(m, NonTerminal::DefCoaxiales) matches Some(s)
        && (s@.len() == 2 && s@[0] == Symbol::Terminal(Token::Modulo) && s@[1] == Symbol::Terminal(Token::Inicio)))
    &&& (spec_buscar_conjunto(m, NonTerminal::TipoCoaxial) matches Some(s)
        && (s@.len() == 1 && (s@[0] matches Symbol::Terminal(t) && t is Identificador)))
    &&& (spec_buscar_conjunto(m, NonTerminal::ListaMaquinas) matches Some(s)
        && (s@.len() == 1 && s@[0] == Symbol::Terminal(Token::PuntoYComa)))
    &&& (spec_buscar_conjunto(m, NonTerminal::ListaMaquinasPrime) matches Some(s)
        && (s@.len() == 1 && s@[0] == Symbol::Terminal(Token::PuntoYComa)))
    &&& (spec_buscar_conjunto(m, NonTerminal::ListaConcentradores) matches Some(s)
        && (s@.len() == 1 && s@[0] == Symbol::Terminal(Token::PuntoYComa)))
    &&& (spec_buscar_conjunto(m, NonTerminal::ListaConcentradoresPrime) matches Some(s)
        && (s@.len() == 1 && s@[0] == Symbol::Terminal(Token::PuntoYComa)))
    &&& (spec_buscar_conjunto(m, NonTerminal::DeclConcentrador) matches Some(s)
        && (s@.len() == 2 && s@[0] == Symbol::Terminal(Token::Coma) && s@[1] == Symbol::Terminal(Token::PuntoYComa)))
    &&& (spec_buscar_conjunto(m, NonTerminal::OpcionCoaxial) matches Some(s)
        && (s@.len() == 2 && s@[0] == Symbol::Terminal(Token::Coma) && s@[1] == Symbol::Terminal(Token::PuntoYComa)))
    &&& (spec_buscar_conjunto(m, NonTerminal::ListaCoaxiales) matches Some(s)
        && (s@.len() == 1 && s@[0] == Symbol::Terminal(Token::PuntoYComa)))
    &&& (spec_buscar_conjunto(m, NonTerminal::ListaCoaxialesPrime) matches Some(s)
        && (s@.len() == 1 && s@[0] == Symbol::Terminal(Token::PuntoYComa)))
    &&& (spec_buscar_conjunto(m, NonTerminal::DeclCoaxial) matches Some(s)
        && (s@.len() == 2 && s@[0] == Symbol::Terminal(Token::Coma) && s@[1] == Symbol::Terminal(Token::PuntoYComa)))
    &&& (spec_buscar_conjunto(m, NonTerminal::Modulos) matches Some(s)
        && (s@.len() == 1 && s@[0] == Symbol::Terminal(Token::Inicio)))
    &&& (spec_buscar_conjunto(m, NonTerminal::Modulo) matches Some(s)
        && (s@.len() == 2 && s@[0] == Symbol::Terminal(Token::Modulo) && s@[1] == Symbol::Terminal(Token::Inicio)))
    &&& (spec_buscar_conjunto(m, NonTerminal::BloqueInicio) matches Some(s)
        && (s@.len() == 14 && s@[0] == Symbol::Terminal(Token::Punto) && s@[1] == Symbol::Terminal(Token::Modulo) && s@[2] == Symbol::Terminal(Token::Inicio) && s@[3] == Symbol::Terminal(Token::Fin) && s@[4] == Symbol::Terminal(Token::Coloca) && s@[5] == Symbol::Terminal(Token::ColocaCoaxial) && s@[6] == Symbol::Terminal(Token::ColocaCoaxialConcentrador) && s@[7] == Symbol::Terminal(Token::UneMaquinaPuerto) && s@[8] == Symbol::Terminal(Token::AsignaPuerto) && s@[9] == Symbol::Terminal(Token::MaquinaCoaxial) && s@[10] == Symbol::Terminal(Token::AsignaMaquinaCoaxial) && s@[11] == Symbol::Terminal(Token::Escribe) && s@[12] == Symbol::Terminal(Token::Si) && (s@[13] matches Symbol::Terminal(t) && t is Identificador)))
    &&& (spec_buscar_conjunto(m, NonTerminal::Sentencias) matches Some(s)
        && (s@.len() == 1 && s@[0] == Symbol::Terminal(Token::Fin)))
    &&& (spec_buscar_conjunto(m, NonTerminal::Sentencia) matches Some(s)
        && (forma_seg_sentencia(s@)))
    &&& (spec_buscar_conjunto(m, NonTerminal::SentenciaColoca) matches Some(s)
        && (forma_seg_sentencia(s@)))
    &&& (spec_buscar_conjunto(m, NonTerminal::SentenciaColocaCoaxial) matches Some(s)
        && (forma_seg_sentencia(s@)))
    &&& (spec_buscar_conjunto(m, NonTerminal::SentenciaColocaCoaxialConcentrador) matches Some(s)
        && (forma_seg_sentencia(s@)))
    &&& (spec_buscar_conjunto(m, NonTerminal::SentenciaUneMaquinaPuerto) matches Some(s)
        && (forma_seg_sentencia(s@)))
    &&& (spec_buscar_conjunto(m, NonTerminal::SentenciaAsignaPuerto) matches Some(s)
        && (forma_seg_sentencia(s@)))
    &&& (spec_buscar_conjunto(m, NonTerminal::SentenciaMaquinaCoaxial) matches Some(s)
        && (forma_seg_sentencia(s@)))
    &&& (spec_buscar_conjunto(m, NonTerminal::SentenciaAsignaMaquinaCoaxial) matches Some(s)
        && (forma_seg_sentencia(s@)))
    &&& (spec_buscar_conjunto(m, NonTerminal::SentenciaEscribe) matches Some(s)
        && (forma_seg_sentencia(s@)))
    &&& (spec_buscar_conjunto(m, NonTerminal::SentenciaSi) matches Some(s)
        && (forma_seg_sentencia(s@)))
    &&& (spec_buscar_conjunto(m, NonTerminal::OpcionSino) matches Some(s)
        && (forma_seg_sentencia(s@)))
    &&& (spec_buscar_conjunto(m, NonTerminal::LlamadaModulo) matches Some(s)
        && (forma_seg_sentencia(s@)))
    &&& (spec_buscar_conjunto(m, NonTerminal::Direccion) matches Some(s)
        && (s@.len() == 1 && s@[0] == Symbol::Terminal(Token::ParenDer)))
    &&& (spec_buscar_conjunto(m, NonTerminal::Expresion) matches Some(s)
        && (forma_seg_expr(s@)))
    &&& (spec_buscar_conjunto(m, NonTerminal::ExpresionOr) matches Some(s)
        && (forma_seg_expr(s@)))
    &&& (spec_buscar_conjunto(m, NonTerminal::ExpresionOrPrime) matches Some(s)
        && (forma_seg_expr(s@)))
    &&& (spec_buscar_conjunto(m, NonTerminal::ExpresionAnd) matches Some(s)
        && (forma_seg_and(s@)))
    &&& (spec_buscar_conjunto(m, NonTerminal::ExpresionAndPrime) matches Some(s)
        && (forma_seg_and(s@)))
    &&& (spec_buscar_conjunto(m, NonTerminal::ExpresionRelacional) matches Some(s)
        && (forma_seg_rel(s@)))
    &&& (spec_buscar_conjunto(m, NonTerminal::OpRelacional) matches Some(s)
        && (forma_seg_rel(s@)))
    &&& (spec_buscar_conjunto(m, NonTerminal::OperadorRelacional) matches Some(s)
        && (forma_expr5(s@)))
    &&& (spec_buscar_conjunto(m, NonTerminal::ExpresionNot) matches Some(s)
        && (forma_seg_not(s@)))
    &&& (spec_buscar_conjunto(m, NonTerminal::ExpresionPrimaria) matches Some(s)
        && (forma_seg_not(s@)))
    &&& (spec_buscar_conjunto(m, NonTerminal::Accesos) matches Some(s)
        && (forma_seg_not(s@)))
    &&& (spec_buscar_conjunto(m, NonTerminal::AccesoCampo) matches Some(s)
        && (forma_seg_not(s@)))
    &&& (spec_buscar_conjunto(m, NonTerminal::AccesoArreglo) matches Some(s)
        && (forma_seg_not(s@)))
}

/// The FIRST and FOLLOW sets of the grammar, one entry per non-terminal.
pub struct FirstFollowSets {
    pub first: Vec<(NonTerminal, Vec<Symbol>)>,
    pub follow: Vec<(NonTerminal, Vec<Symbol>)>,
}


/// Looking up in an extended table: hits stay hits, and the appended entry
/// answers for its own key.
proof fn lemma_conjunto_push(
    m: Seq<(NonTerminal, Vec<Symbol>)>,
    x: (NonTerminal, Vec<Symbol>),
    nt2: NonTerminal,
)
    ensures
        spec_buscar_conjunto(m.push(x), nt2) == (match spec_buscar_conjunto(m, nt2) {
            Some(v) => Some(v),
            None => if nt2 == x.0 {
                Some(x.1)
            } else {
                None
            },
        }),
    decreases m.len(),
{
    if m.len() == 0 {
        reveal_with_fuel(spec_buscar_conjunto, 2);
        assert(m.push(x).drop_first() =~= Seq::<(NonTerminal, Vec<Symbol>)>::empty());
        assert(m.push(x)[0] == x);
    } else {
        assert(m.push(x)[0] == m[0]);
        assert(m.push(x).drop_first() =~= m.drop_first().push(x));
        lemma_conjunto_push(m.drop_first(), x, nt2);
    }
}

/// Replacing the first entry of a key answers the new set for that key and
/// leaves every other key's answer alone.
proof fn lemma_conjunto_update(
    m: Seq<(NonTerminal, Vec<Symbol>)>,
    i: int,
    x: (NonTerminal, Vec<Symbol>),
    nt2: NonTerminal,
)
    requires
        0 <= i < m.len(),
        m[i].0 == x.0,
        forall|j: int| 0 <= j < i ==> (#[trigger] m[j]).0 != x.0,
    ensures
        spec_buscar_conjunto(m.update(i, x), nt2) == (if nt2 == x.0 {
            Some(x.1)
        } else {
            spec_buscar_conjunto(m, nt2)
        }),
    decreases m.len(),
{
    if i == 0 {
        assert(m.update(0, x)[0] == x);
        assert(m.update(0, x).drop_first() =~= m.drop_first());
    } else {
        assert(m.update(i, x)[0] == m[0]);
        assert(m.update(i, x).drop_first() =~= m.drop_first().update(i - 1, x));
        assert forall|j: int| 0 <= j < i - 1 implies (#[trigger] m.drop_first()[j]).0 != x.0 by {
            assert(m.drop_first()[j] == m[j + 1]);
        }
        lemma_conjunto_update(m.drop_first(), i - 1, x, nt2);
    }
}

/// A scan that matched no key agrees with the spec lookup.
proof fn lemma_conjunto_ninguno(m: Seq<(NonTerminal, Vec<Symbol>)>, nt: NonTerminal)
    requires
        forall|j: int| 0 <= j < m.len() ==> (#[trigger] m[j]).0 != nt,
    ensures
        spec_buscar_conjunto(m, nt) is None,
    decreases m.len(),
{
    if m.len() > 0 {
        lemma_conjunto_ninguno(m.drop_first(), nt);
    }
}

/// Stores a set under a key, replacing any earlier entry for it, which keeps
/// the keys unique: afterwards the key answers exactly this set and every
/// other key answers as before.
fn poner_conjunto(m: &mut Vec<(NonTerminal, Vec<Symbol>)>, nt: NonTerminal, s: Vec<Symbol>)
    requires
        forall|i: int, j: int| 0 <= i < j < old(m)@.len() ==> (#[trigger] old(m)@[i]).0 != (
        #[trigger] old(m)@[j]).0,
    ensures
        forall|i: int, j: int| 0 <= i < j < final(m)@.len() ==> (#[trigger] final(m)@[i]).0 != (
        #[trigger] final(m)@[j]).0,
        spec_buscar_conjunto(final(m)@, nt) == Some(s),
        forall|nt2: NonTerminal| nt2 != nt ==> #[trigger] spec_buscar_conjunto(final(m)@, nt2)
            == spec_buscar_conjunto(old(m)@, nt2),
{
    let mut i: usize = 0;
    while i < m.len()
        invariant
            i <= m@.len(),
            m@ == old(m)@,
            forall|j: int| 0 <= j < i ==> (#[trigger] m@[j]).0 != nt,
            forall|a: int, b: int| 0 <= a < b < m@.len() ==> (#[trigger] m@[a]).0 != (
            #[trigger] m@[b]).0,
        decreases m@.len() - i,
    {
        if m[i].0 == nt {
            let ghost vieja = m@;
            let ghost pos = i as int;
            m[i] = (nt, s);
            proof {
                assert forall|a: int, b: int| 0 <= a < b < m@.len() implies (
                    #[trigger] m@[a]).0 != (#[trigger] m@[b]).0 by {
                    if a != pos && b != pos {
                        assert(m@[a] == vieja[a] && m@[b] == vieja[b]);
                    } else if a == pos {
                        assert(m@[b] == vieja[b] && vieja[b].0 != vieja[pos].0);
                    } else {
                        assert(m@[a] == vieja[a] && vieja[a].0 != vieja[pos].0);
                    }
                }
                lemma_conjunto_update(vieja, pos, m@[pos], nt);
                assert forall|nt2: NonTerminal| nt2 != nt implies #[trigger] spec_buscar_conjunto(
                    m@, nt2) == spec_buscar_conjunto(vieja, nt2) by {
                    lemma_conjunto_update(vieja, pos, m@[pos], nt2);
                }
            }
            return;
        }
        i = i + 1;
    }
    let ghost vieja = m@;
    m.push((nt, s));
    proof {
        lemma_conjunto_ninguno(vieja, nt);
        lemma_conjunto_push(vieja, (nt, s), nt);
        assert forall|nt2: NonTerminal| nt2 != nt implies #[trigger] spec_buscar_conjunto(m@, nt2)
            == spec_buscar_conjunto(vieja, nt2) by {
            lemma_conjunto_push(vieja, (nt, s), nt2);
        }
    }
}

/// Looks a non-terminal up in an association list.
fn buscar_conjunto<'a>(m: &'a Vec<(NonTerminal, Vec<Symbol>)>, nt: NonTerminal) -> (r: Option<
    &'a Vec<Symbol>,
>)
    ensures
        match r {
            Some(s) => spec_buscar_conjunto(m@, nt) == Some(*s),
            None => spec_buscar_conjunto(m@, nt) is None,
        },
{
    let mut i: usize = 0;
    proof {
        assert(m@.subrange(0, m@.len() as int) =~= m@);
    }
    while i < m.len()
        invariant
            i <= m@.len(),
            spec_buscar_conjunto(m@, nt) == spec_buscar_conjunto(m@.subrange(i as int,
                m@.len() as int), nt),
        decreases m@.len() - i,
    {
        proof {
            assert(m@.subrange(i as int, m@.len() as int).drop_first() =~= m@.subrange(i + 1 as int,
                m@.len() as int));
        }
        if m[i].0 == nt {
            return Some(&m[i].1);
        }
        i = i + 1;
    }
    None
}

impl FirstFollowSets {
    /// Keys are unique in both tables.
    pub open spec fn wf(self) -> bool {
        &&& forall|i: int, j: int| 0 <= i < j < self.first@.len() ==> (
        #[trigger] self.first@[i]).0 != (#[trigger] self.first@[j]).0
        &&& forall|i: int, j: int| 0 <= i < j < self.follow@.len() ==> (
        #[trigger] self.follow@[i]).0 != (#[trigger] self.follow@[j]).0
    }

    /// Builds the statically known FIRST and FOLLOW sets of the grammar.
    pub fn new() -> (r: FirstFollowSets)
        ensures
            r.wf(),
            primeros_correctos(r.first@),
            seguidores_correctos(r.follow@),
    {
        let mut first: Vec<(NonTerminal, Vec<Symbol>)> = Vec::new();
        let mut follow: Vec<(NonTerminal, Vec<Symbol>)> = Vec::new();
        Self::initialize_first_sets(&mut first);
        Self::initialize_follow_sets(&mut follow);
        FirstFollowSets { first, follow }
    }

    /// The terminals that can begin each non-terminal's expansion, with the
    /// empty word where the non-terminal can vanish.
    #[verifier::rlimit(100)]
    #[verifier::spinoff_prover]
    fn initialize_first_sets(first: &mut Vec<(NonTerminal, Vec<Symbol>)>)
        requires
            forall|i: int, j: int| 0 <= i < j < old(first)@.len() ==> (
            #[trigger] old(first)@[i]).0 != (#[trigger] old(first)@[j]).0,
        ensures
            forall|i: int, j: int| 0 <= i < j < final(first)@.len() ==> (
            #[trigger] final(first)@[i]).0 != (#[trigger] final(first)@[j]).0,
            primeros_correctos(final(first)@),
    {
        poner_conjunto(first, NT::Programa, vec![Symbol::Terminal(Token::Programa)]);
        poner_conjunto(first, NT::Definiciones, vec![Symbol::Terminal(Token::Define),
            Symbol::Epsilon]);
        poner_conjunto(first, NT::DefMaquinas, vec![Symbol::Terminal(Token::Define),
            Symbol::Epsilon]);
        poner_conjunto(first, NT::DefConcentradores, vec![Symbol::Terminal(Token::Define),
            Symbol::Epsilon]);
        poner_conjunto(first, NT::DefCoaxiales, vec![Symbol::Terminal(Token::Define),
            Symbol::Epsilon]);
        poner_conjunto(first, NT::TipoCoaxial, vec![Symbol::Terminal(Token::Coaxial),
            Symbol::Terminal(Token::Segmento)]);
        poner_conjunto(first, NT::ListaMaquinas, vec![Symbol::Terminal(Token::Identificador(
            String::new()))]);
        poner_conjunto(first, NT::ListaMaquinasPrime, vec![Symbol::Terminal(Token::Coma),
            Symbol::Epsilon]);
        poner_conjunto(first, NT::ListaConcentradores, vec![Symbol::Terminal(Token::Identificador(
            String::new()))]);
        poner_conjunto(first, NT::ListaConcentradoresPrime, vec![Symbol::Terminal(Token::Coma),
            Symbol::Epsilon]);
        poner_conjunto(first, NT::DeclConcentrador, vec![Symbol::Terminal(Token::Identificador(
            String::new()))]);
        poner_conjunto(first, NT::OpcionCoaxial, vec![Symbol::Terminal(Token::Punto),
            Symbol::Epsilon]);
        poner_conjunto(first, NT::ListaCoaxiales, vec![Symbol::Terminal(Token::Identificador(
            String::new()))]);
        poner_conjunto(first, NT::ListaCoaxialesPrime, vec![Symbol::Terminal(Token::Coma),
            Symbol::Epsilon]);
        poner_conjunto(first, NT::DeclCoaxial, vec![Symbol::Terminal(Token::Identificador(
            String::new()))]);
        poner_conjunto(first, NT::Modulos, vec![Symbol::Terminal(Token::Modulo), Symbol::Epsilon]);
        poner_conjunto(first, NT::Modulo, vec![Symbol::Terminal(Token::Modulo)]);
        poner_conjunto(first, NT::BloqueInicio, vec![Symbol::Terminal(Token::Inicio)]);
        poner_conjunto(first, NT::Sentencias, Self::primeros_sentencia_con_epsilon());
        poner_conjunto(first, NT::Sentencia, Self::primeros_sentencia());
        poner_conjunto(first, NT::SentenciaColoca, vec![Symbol::Terminal(Token::Coloca)]);
        poner_conjunto(first, NT::SentenciaColocaCoaxial, vec![Symbol::Terminal(
            Token::ColocaCoaxial)]);
        poner_conjunto(first, NT::SentenciaColocaCoaxialConcentrador, vec![Symbol::Terminal(
            Token::ColocaCoaxialConcentrador)]);
        poner_conjunto(first, NT::SentenciaUneMaquinaPuerto, vec![Symbol::Terminal(
            Token::UneMaquinaPuerto)]);
        poner_conjunto(first, NT::SentenciaAsignaPuerto, vec![Symbol::Terminal(
            Token::AsignaPuerto)]);
        poner_conjunto(first, NT::SentenciaMaquinaCoaxial, vec![Symbol::Terminal(
            Token::MaquinaCoaxial)]);
        poner_conjunto(first, NT::SentenciaAsignaMaquinaCoaxial, vec![Symbol::Terminal(
            Token::AsignaMaquinaCoaxial)]);
        poner_conjunto(first, NT::SentenciaEscribe, vec![Symbol::Terminal(Token::Escribe)]);
        poner_conjunto(first, NT::SentenciaSi, vec![Symbol::Terminal(Token::Si)]);
        poner_conjunto(first, NT::OpcionSino, vec![Symbol::Terminal(Token::Sino), Symbol::Epsilon]);
        poner_conjunto(first, NT::LlamadaModulo, vec![Symbol::Terminal(Token::Identificador(
            String::new()))]);
        poner_conjunto(first, NT::Direccion, vec![Symbol::Terminal(Token::Arriba), Symbol::Terminal(
            Token::Abajo), Symbol::Terminal(Token::Izquierda), Symbol::Terminal(Token::Derecha)]);
        poner_conjunto(first, NT::Expresion, Self::primeros_expresion(true));
        poner_conjunto(first, NT::ExpresionOr, Self::primeros_expresion(true));
        poner_conjunto(first, NT::ExpresionOrPrime, vec![Symbol::Terminal(Token::Or),
            Symbol::Epsilon]);
        poner_conjunto(first, NT::ExpresionAnd, Self::primeros_expresion(true));
        poner_conjunto(first, NT::ExpresionAndPrime, vec![Symbol::Terminal(Token::And),
            Symbol::Epsilon]);
        poner_conjunto(first, NT::ExpresionRelacional, Self::primeros_expresion(true));
        poner_conjunto(first, NT::OpRelacional, vec![Symbol::Terminal(Token::Igual),
            Symbol::Terminal(Token::Diferente), Symbol::Terminal(Token::Menor), Symbol::Terminal(
            Token::Mayor), Symbol::Terminal(Token::MenorIgual), Symbol::Terminal(Token::MayorIgual),
            Symbol::Epsilon]);
        poner_conjunto(first, NT::OperadorRelacional, vec![Symbol::Terminal(Token::Igual),
            Symbol::Terminal(Token::Diferente), Symbol::Terminal(Token::Menor), Symbol::Terminal(
            Token::Mayor), Symbol::Terminal(Token::MenorIgual), Symbol::Terminal(
            Token::MayorIgual)]);
        poner_conjunto(first, NT::ExpresionNot, Self::primeros_expresion(true));
        poner_conjunto(first, NT::ExpresionPrimaria, Self::primeros_expresion(false));
        poner_conjunto(first, NT::Accesos, vec![Symbol::Terminal(Token::Punto), Symbol::Terminal(
            Token::CorcheteIzq), Symbol::Epsilon]);
        poner_conjunto(first, NT::AccesoCampo, vec![Symbol::Terminal(Token::Punto)]);
        poner_conjunto(first, NT::AccesoArreglo, vec![Symbol::Terminal(Token::CorcheteIzq),
            Symbol::Epsilon]);
    }

    /// The terminals that can follow each non-terminal.
    #[verifier::rlimit(100)]
    #[verifier::spinoff_prover]
    fn initialize_follow_sets(follow: &mut Vec<(NonTerminal, Vec<Symbol>)>)
        requires
            forall|i: int, j: int| 0 <= i < j < old(follow)@.len() ==> (
            #[trigger] old(follow)@[i]).0 != (#[trigger] old(follow)@[j]).0,
        ensures
            forall|i: int, j: int| 0 <= i < j < final(follow)@.len() ==> (
            #[trigger] final(follow)@[i]).0 != (#[trigger] final(follow)@[j]).0,
            seguidores_correctos(final(follow)@),
    {
        poner_conjunto(follow, NT::Programa, vec![Symbol::Eof]);
        poner_conjunto(follow, NT::Definiciones, vec![Symbol::Terminal(Token::Modulo),
            Symbol::Terminal(Token::Inicio)]);
        poner_conjunto(follow, NT::DefMaquinas, vec![Symbol::Terminal(Token::Define),
            Symbol::Terminal(Token::Modulo), Symbol::Terminal(Token::Inicio)]);
        poner_conjunto(follow, NT::DefConcentradores, vec![Symbol::Terminal(Token::Define),
            Symbol::Terminal(Token::Modulo), Symbol::Terminal(Token::Inicio)]);
        poner_conjunto(follow, NT::DefCoaxiales, vec![Symbol::Terminal(Token::Modulo),
            Symbol::Terminal(Token::Inicio)]);
        poner_conjunto(follow, NT::TipoCoaxial, vec![Symbol::Terminal(Token::Identificador(
            String::new()))]);
        poner_conjunto(follow, NT::ListaMaquinas, vec![Symbol::Terminal(Token::PuntoYComa)]);
        poner_conjunto(follow, NT::ListaMaquinasPrime, vec![Symbol::Terminal(Token::PuntoYComa)]);
        poner_conjunto(follow, NT::ListaConcentradores, vec![Symbol::Terminal(Token::PuntoYComa)]);
        poner_conjunto(follow, NT::ListaConcentradoresPrime, vec![Symbol::Terminal(
            Token::PuntoYComa)]);
        poner_conjunto(follow, NT::DeclConcentrador, vec![Symbol::Terminal(Token::Coma),
            Symbol::Terminal(Token::PuntoYComa)]);
        poner_conjunto(follow, NT::OpcionCoaxial, vec![Symbol::Terminal(Token::Coma),
            Symbol::Terminal(Token::PuntoYComa)]);
        poner_conjunto(follow, NT::ListaCoaxiales, vec![Symbol::Terminal(Token::PuntoYComa)]);
        poner_conjunto(follow, NT::ListaCoaxialesPrime, vec![Symbol::Terminal(Token::PuntoYComa)]);
        poner_conjunto(follow, NT::DeclCoaxial, vec![Symbol::Terminal(Token::Coma), Symbol::Terminal(
            Token::PuntoYComa)]);
        poner_conjunto(follow, NT::Modulos, vec![Symbol::Terminal(Token::Inicio)]);
        poner_conjunto(follow, NT::Modulo, vec![Symbol::Terminal(Token::Modulo), Symbol::Terminal(
            Token::Inicio)]);
        poner_conjunto(follow, NT::BloqueInicio, vec![Symbol::Terminal(Token::Punto),
            Symbol::Terminal(Token::Modulo), Symbol::Terminal(Token::Inicio), Symbol::Terminal(
            Token::Fin), Symbol::Terminal(Token::Coloca), Symbol::Terminal(Token::ColocaCoaxial),
            Symbol::Terminal(Token::ColocaCoaxialConcentrador), Symbol::Terminal(
            Token::UneMaquinaPuerto), Symbol::Terminal(Token::AsignaPuerto), Symbol::Terminal(
            Token::MaquinaCoaxial), Symbol::Terminal(Token::AsignaMaquinaCoaxial), Symbol::Terminal(
            Token::Escribe), Symbol::Terminal(Token::Si), Symbol::Terminal(Token::Identificador(
            String::new()))]);
        poner_conjunto(follow, NT::Sentencias, vec![Symbol::Terminal(Token::Fin)]);
        poner_conjunto(follow, NT::Sentencia, Self::seguidores_sentencia());
        poner_conjunto(follow, NT::SentenciaColoca, Self::seguidores_sentencia());
        poner_conjunto(follow, NT::SentenciaColocaCoaxial, Self::seguidores_sentencia());
        poner_conjunto(follow, NT::SentenciaColocaCoaxialConcentrador,
            Self::seguidores_sentencia());
        poner_conjunto(follow, NT::SentenciaUneMaquinaPuerto, Self::seguidores_sentencia());
        poner_conjunto(follow, NT::SentenciaAsignaPuerto, Self::seguidores_sentencia());
        poner_conjunto(follow, NT::SentenciaMaquinaCoaxial, Self::seguidores_sentencia());
        poner_conjunto(follow, NT::SentenciaAsignaMaquinaCoaxial, Self::seguidores_sentencia());
        poner_conjunto(follow, NT::SentenciaEscribe, Self::seguidores_sentencia());
        poner_conjunto(follow, NT::SentenciaSi, Self::seguidores_sentencia());
        poner_conjunto(follow, NT::OpcionSino, Self::seguidores_sentencia());
        poner_conjunto(follow, NT::LlamadaModulo, Self::seguidores_sentencia());
        poner_conjunto(follow, NT::Direccion, vec![Symbol::Terminal(Token::ParenDer)]);
        poner_conjunto(follow, NT::Expresion, Self::seguidores_expresion());
        poner_conjunto(follow, NT::ExpresionOr, Self::seguidores_expresion());
        poner_conjunto(follow, NT::ExpresionOrPrime, Self::seguidores_expresion());
        poner_conjunto(follow, NT::ExpresionAnd, Self::seguidores_and());
        poner_conjunto(follow, NT::ExpresionAndPrime, Self::seguidores_and());
        poner_conjunto(follow, NT::ExpresionRelacional, Self::seguidores_relacional());
        poner_conjunto(follow, NT::OpRelacional, Self::seguidores_relacional());
        poner_conjunto(follow, NT::OperadorRelacional, Self::primeros_expresion(true));
        poner_conjunto(follow, NT::ExpresionNot, Self::seguidores_not());
        poner_conjunto(follow, NT::ExpresionPrimaria, Self::seguidores_not());
        poner_conjunto(follow, NT::Accesos, Self::seguidores_not());
        poner_conjunto(follow, NT::AccesoCampo, Self::seguidores_not());
        poner_conjunto(follow, NT::AccesoArreglo, Self::seguidores_not());
    }

    /// FIRST of an expression: `!`, a number, a string, an identifier or an
    /// opening parenthesis; without `!` for a primary expression.
    fn primeros_expresion(con_not: bool) -> (r: Vec<Symbol>)
        ensures
            con_not ==> forma_expr5(r@),
            !con_not ==> forma_expr4(r@),
    {
        let mut s: Vec<Symbol> = Vec::new();
        if con_not {
            s.push(Symbol::Terminal(Token::Not));
        }
        s.push(Symbol::Terminal(Token::Numero(0)));
        s.push(Symbol::Terminal(Token::Cadena(String::new())));
        s.push(Symbol::Terminal(Token::Identificador(String::new())));
        s.push(Symbol::Terminal(Token::ParenIzq));
        s
    }

    /// FIRST of a statement.
    fn primeros_sentencia() -> (r: Vec<Symbol>)
        ensures
            forma_sentencia(r@),
    {
        let mut s: Vec<Symbol> = Vec::new();
        s.push(Symbol::Terminal(Token::Coloca));
        s.push(Symbol::Terminal(Token::ColocaCoaxial));
        s.push(Symbol::Terminal(Token::ColocaCoaxialConcentrador));
        s.push(Symbol::Terminal(Token::UneMaquinaPuerto));
        s.push(Symbol::Terminal(Token::AsignaPuerto));
        s.push(Symbol::Terminal(Token::MaquinaCoaxial));
        s.push(Symbol::Terminal(Token::AsignaMaquinaCoaxial));
        s.push(Symbol::Terminal(Token::Escribe));
        s.push(Symbol::Terminal(Token::Si));
        s.push(Symbol::Terminal(Token::Identificador(String::new())));
        s
    }

    /// FIRST of a statement list, which can also be empty.
    fn primeros_sentencia_con_epsilon() -> (r: Vec<Symbol>)
        ensures
            forma_sentencia_eps(r@),
    {
        let mut s = Self::primeros_sentencia();
        s.push(Symbol::Epsilon);
        s
    }

    /// FOLLOW of a statement: everything that can begin the next statement,
    /// or the closing `fin`.
    fn seguidores_sentencia() -> (r: Vec<Symbol>)
        ensures
            forma_seg_sentencia(r@),
    {
        let mut s = Self::primeros_sentencia();
        s.push(Symbol::Terminal(Token::Fin));
        s
    }

    /// FOLLOW of a full expression.
    fn seguidores_expresion() -> (r: Vec<Symbol>)
        ensures
            forma_seg_expr(r@),
    {
        let mut s: Vec<Symbol> = Vec::new();
        s.push(Symbol::Terminal(Token::ParenDer));
        s.push(Symbol::Terminal(Token::Coma));
        s.push(Symbol::Terminal(Token::CorcheteDer));
        s.push(Symbol::Terminal(Token::PuntoYComa));
        s.push(Symbol::Terminal(Token::Inicio));
        s
    }

    /// FOLLOW of a conjunction: an `||` may come next as well.
    fn seguidores_and() -> (r: Vec<Symbol>)
        ensures
            forma_seg_and(r@),
    {
        let mut s = Self::seguidores_expresion();
        s.push(Symbol::Terminal(Token::Or));
        s
    }

    /// FOLLOW of a relational expression: logical operators may come next.
    fn seguidores_relacional() -> (r: Vec<Symbol>)
        ensures
            forma_seg_rel(r@),
    {
        let mut s = Self::seguidores_expresion();
        s.push(Symbol::Terminal(Token::And));
        s.push(Symbol::Terminal(Token::Or));
        s
    }

    /// FOLLOW of a negation or primary: relational and logical operators and
    /// the expression followers.
    fn seguidores_not() -> (r: Vec<Symbol>)
        ensures
            forma_seg_not(r@),
    {
        let mut s: Vec<Symbol> = Vec::new();
        s.push(Symbol::Terminal(Token::Igual));
        s.push(Symbol::Terminal(Token::Diferente));
        s.push(Symbol::Terminal(Token::Menor));
        s.push(Symbol::Terminal(Token::Mayor));
        s.push(Symbol::Terminal(Token::MenorIgual));
        s.push(Symbol::Terminal(Token::MayorIgual));
        s.push(Symbol::Terminal(Token::And));
        s.push(Symbol::Terminal(Token::Or));
        s.push(Symbol::Terminal(Token::ParenDer));
        s.push(Symbol::Terminal(Token::Coma));
        s.push(Symbol::Terminal(Token::CorcheteDer));
        s.push(Symbol::Terminal(Token::PuntoYComa));
        s.push(Symbol::Terminal(Token::Inicio));
        s
    }

    /// The FIRST set of a non-terminal.
    pub fn first(&self, nt: NonTerminal) -> (r: Option<&Vec<Symbol>>)
        ensures
            match r {
                Some(s) => spec_buscar_conjunto(self.first@, nt) == Some(*s),
                None => spec_buscar_conjunto(self.first@, nt) is None,
            },
    {
        buscar_conjunto(&self.first, nt)
    }

    /// The FOLLOW set of a non-terminal.
    pub fn follow(&self, nt: NonTerminal) -> (r: Option<&Vec<Symbol>>)
        ensures
            match r {
                Some(s) => spec_buscar_conjunto(self.follow@, nt) == Some(*s),
                None => spec_buscar_conjunto(self.follow@, nt) is None,
            },
    {
        buscar_conjunto(&self.follow, nt)
    }

    /// Whether the symbol belongs to FIRST of the non-terminal.
    pub fn is_in_first(&self, nt: NonTerminal, symbol: &Symbol) -> (r: bool)
        ensures
            r == match spec_buscar_conjunto(self.first@, nt) {
                Some(s) => spec_contiene(s@, *symbol),
                None => false,
            },
    {
        match self.first(nt) {
            Some(s) => Self::contiene(s, symbol),
            None => false,
        }
    }

    /// Whether the symbol belongs to FOLLOW of the non-terminal.
    pub fn is_in_follow(&self, nt: NonTerminal, symbol: &Symbol) -> (r: bool)
        ensures
            r == match spec_buscar_conjunto(self.follow@, nt) {
                Some(s) => spec_contiene(s@, *symbol),
                None => false,
            },
    {
        match self.follow(nt) {
            Some(s) => Self::contiene(s, symbol),
            None => false,
        }
    }

    /// Membership in a symbol set.
    fn contiene(s: &Vec<Symbol>, x: &Symbol) -> (r: bool)
        ensures
            r == spec_contiene(s@, *x),
    {
        let mut i: usize = 0;
        while i < s.len()
            invariant
                i <= s@.len(),
                forall|j: int| 0 <= j < i ==> !spec_symbol_eq(s@[j], *x),
            decreases s@.len() - i,
        {
            if symbol_eq(&s[i], x) {
                return true;
            }
            i = i + 1;
        }
        false
    }
}

} // verus!
