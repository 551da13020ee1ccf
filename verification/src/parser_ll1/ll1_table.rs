//! The LL(1) predictive parsing table: the enumerated production list of the
//! grammar, and one production per (non-terminal, terminal-class) pair. The
//! table keeps its keys unique by construction, which is the defining LL(1)
//! invariant: at most one production applies to any pair.

use vstd::prelude::*;
use crate::lexer::Token;
use super::first_follow::{NonTerminal, Symbol};

verus! {

/// One production of the grammar: its number, its left-hand non-terminal and
/// its right-hand symbols.
#[derive(Debug, PartialEq)]
pub struct Production {
    pub id: usize,
    pub lhs: NonTerminal,
    pub rhs: Vec<Symbol>,
}

/// The terminal classes the table is keyed by: token kinds with the literal
/// payloads ignored, plus the end of the input.
#[derive(Debug, Clone, Copy, PartialEq, Eq, Hash, Structural)]
pub enum TokenClass {
    Programa,
    Define,
    Maquinas,
    Concentradores,
    Coaxial,
    Segmento,
    Modulo,
    Inicio,
    Fin,
    Si,
    Sino,
    Coloca,
    ColocaCoaxial,
    ColocaCoaxialConcentrador,
    UneMaquinaPuerto,
    AsignaPuerto,
    MaquinaCoaxial,
    AsignaMaquinaCoaxial,
    Escribe,
    Arriba,
    Abajo,
    Izquierda,
    Derecha,
    Igual,
    Menor,
    Mayor,
    MenorIgual,
    MayorIgual,
    Diferente,
    And,
    Or,
    Not,
    Coma,
    PuntoYComa,
    Punto,
    ParenIzq,
    ParenDer,
    CorcheteIzq,
    CorcheteDer,
    Identificador,
    Numero,
    Cadena,
    Eof,
}

/// The class of a token, payloads ignored. Blanks never reach the parser;
/// their class is the end-of-input class, which no real token maps to
/// otherwise.
pub open spec fn spec_clase_de(t: Token) -> TokenClass {
    match t {
        Token::Programa => TokenClass::Programa,
        Token::Define => TokenClass::Define,
        Token::Maquinas => TokenClass::Maquinas,
        Token::Concentradores => TokenClass::Concentradores,
        Token::Coaxial => TokenClass::Coaxial,
        Token::Segmento => TokenClass::Segmento,
        Token::Modulo => TokenClass::Modulo,
        Token::Inicio => TokenClass::Inicio,
        Token::Fin => TokenClass::Fin,
        Token::Si => TokenClass::Si,
        Token::Sino => TokenClass::Sino,
        Token::Coloca => TokenClass::Coloca,
        Token::ColocaCoaxial => TokenClass::ColocaCoaxial,
        Token::ColocaCoaxialConcentrador => TokenClass::ColocaCoaxialConcentrador,
        Token::UneMaquinaPuerto => TokenClass::UneMaquinaPuerto,
        Token::AsignaPuerto => TokenClass::AsignaPuerto,
        Token::MaquinaCoaxial => TokenClass::MaquinaCoaxial,
        Token::AsignaMaquinaCoaxial => TokenClass::AsignaMaquinaCoaxial,
        Token::Escribe => TokenClass::Escribe,
        Token::Arriba => TokenClass::Arriba,
        Token::Abajo => TokenClass::Abajo,
        Token::Izquierda => TokenClass::Izquierda,
        Token::Derecha => TokenClass::Derecha,
        Token::Igual => TokenClass::Igual,
        Token::Menor => TokenClass::Menor,
        Token::Mayor => TokenClass::Mayor,
        Token::MenorIgual => TokenClass::MenorIgual,
        Token::MayorIgual => TokenClass::MayorIgual,
        Token::Diferente => TokenClass::Diferente,
        Token::And => TokenClass::And,
        Token::Or => TokenClass::Or,
        Token::Not => TokenClass::Not,
        Token::Coma => TokenClass::Coma,
        Token::PuntoYComa => TokenClass::PuntoYComa,
        Token::Punto => TokenClass::Punto,
        Token::ParenIzq => TokenClass::ParenIzq,
        Token::ParenDer => TokenClass::ParenDer,
        Token::CorcheteIzq => TokenClass::CorcheteIzq,
        Token::CorcheteDer => TokenClass::CorcheteDer,
        Token::Identificador(_) => TokenClass::Identificador,
        Token::Numero(_) => TokenClass::Numero,
        Token::Cadena(_) => TokenClass::Cadena,
        Token::Whitespace => TokenClass::Eof,
    }
}

impl TokenClass {
    /// The class of a token; blanks never reach the parser.
    pub fn from_token(token: &Token) -> (r: TokenClass)
        requires
            !(token is Whitespace),
        ensures
            r == spec_clase_de(*token),
    {
        match token {
            Token::Programa => TokenClass::Programa,
            Token::Define => TokenClass::Define,
            Token::Maquinas => TokenClass::Maquinas,
            Token::Concentradores => TokenClass::Concentradores,
            Token::Coaxial => TokenClass::Coaxial,
            Token::Segmento => TokenClass::Segmento,
            Token::Modulo => TokenClass::Modulo,
            Token::Inicio => TokenClass::Inicio,
            Token::Fin => TokenClass::Fin,
            Token::Si => TokenClass::Si,
            Token::Sino => TokenClass::Sino,
            Token::Coloca => TokenClass::Coloca,
            Token::ColocaCoaxial => TokenClass::ColocaCoaxial,
            Token::ColocaCoaxialConcentrador => TokenClass::ColocaCoaxialConcentrador,
            Token::UneMaquinaPuerto => TokenClass::UneMaquinaPuerto,
            Token::AsignaPuerto => TokenClass::AsignaPuerto,
            Token::MaquinaCoaxial => TokenClass::MaquinaCoaxial,
            Token::AsignaMaquinaCoaxial => TokenClass::AsignaMaquinaCoaxial,
            Token::Escribe => TokenClass::Escribe,
            Token::Arriba => TokenClass::Arriba,
            Token::Abajo => TokenClass::Abajo,
            Token::Izquierda => TokenClass::Izquierda,
            Token::Derecha => TokenClass::Derecha,
            Token::Igual => TokenClass::Igual,
            Token::Menor => TokenClass::Menor,
            Token::Mayor => TokenClass::Mayor,
            Token::MenorIgual => TokenClass::MenorIgual,
            Token::MayorIgual => TokenClass::MayorIgual,
            Token::Diferente => TokenClass::Diferente,
            Token::And => TokenClass::And,
            Token::Or => TokenClass::Or,
            Token::Not => TokenClass::Not,
            Token::Coma => TokenClass::Coma,
            Token::PuntoYComa => TokenClass::PuntoYComa,
            Token::Punto => TokenClass::Punto,
            Token::ParenIzq => TokenClass::ParenIzq,
            Token::ParenDer => TokenClass::ParenDer,
            Token::CorcheteIzq => TokenClass::CorcheteIzq,
            Token::CorcheteDer => TokenClass::CorcheteDer,
            Token::Identificador(_) => TokenClass::Identificador,
            Token::Numero(_) => TokenClass::Numero,
            Token::Cadena(_) => TokenClass::Cadena,
            Token::Whitespace => TokenClass::Eof,
        }
    }

    /// The display name of the class.
    pub fn as_str(&self) -> (r: &'static str) {
        match self {
            TokenClass::Programa => "programa",
            TokenClass::Define => "define",
            TokenClass::Maquinas => "maquinas",
            TokenClass::Concentradores => "concentradores",
            TokenClass::Coaxial => "coaxial",
            TokenClass::Segmento => "segmento",
            TokenClass::Modulo => "modulo",
            TokenClass::Inicio => "inicio",
            TokenClass::Fin => "fin",
            TokenClass::Si => "si",
            TokenClass::Sino => "sino",
            TokenClass::Coloca => "coloca",
            TokenClass::ColocaCoaxial => "colocaCoaxial",
            TokenClass::ColocaCoaxialConcentrador => "colocaCoaxialConcentrador",
            TokenClass::UneMaquinaPuerto => "uneMaquinaPuerto",
            TokenClass::AsignaPuerto => "asignaPuerto",
            TokenClass::MaquinaCoaxial => "maquinaCoaxial",
            TokenClass::AsignaMaquinaCoaxial => "asignaMaquinaCoaxial",
            TokenClass::Escribe => "escribe",
            TokenClass::Arriba => "arriba",
            TokenClass::Abajo => "abajo",
            TokenClass::Izquierda => "izquierda",
            TokenClass::Derecha => "derecha",
            TokenClass::Igual => "=",
            TokenClass::Menor => "<",
            TokenClass::Mayor => ">",
            TokenClass::MenorIgual => "<=",
            TokenClass::MayorIgual => ">=",
            TokenClass::Diferente => "<>",
            TokenClass::And => "&&",
            TokenClass::Or => "||",
            TokenClass::Not => "!",
            TokenClass::Coma => ",",
            TokenClass::PuntoYComa => ";",
            TokenClass::Punto => ".",
            TokenClass::ParenIzq => "(",
            TokenClass::ParenDer => ")",
            TokenClass::CorcheteIzq => "[",
            TokenClass::CorcheteDer => "]",
            TokenClass::Identificador => "identificador",
            TokenClass::Numero => "numero",
            TokenClass::Cadena => "cadena",
            TokenClass::Eof => "$",
        }
    }
}

/// The first table entry for a key, as the index of its production.
pub open spec fn spec_buscar_entrada(
    t: Seq<(NonTerminal, TokenClass, usize)>,
    nt: NonTerminal,
    tc: TokenClass,
) -> Option<usize>
    decreases t.len(),
{
    if t.len() == 0 {
        None
    } else if t.first().0 == nt && t.first().1 == tc {
        Some(t.first().2)
    } else {
        spec_buscar_entrada(t.drop_first(), nt, tc)
    }
}


/// A scan that matched no key agrees with the spec lookup.
proof fn lemma_buscar_entrada_ninguna(
    t: Seq<(NonTerminal, TokenClass, usize)>,
    nt: NonTerminal,
    tc: TokenClass,
)
    requires
        forall|j: int| 0 <= j < t.len() ==> !((#[trigger] t[j]).0 == nt && t[j].1 == tc),
    ensures
        spec_buscar_entrada(t, nt, tc) is None,
    decreases t.len(),
{
    if t.len() > 0 {
        lemma_buscar_entrada_ninguna(t.drop_first(), nt, tc);
    }
}

/// Looking up in an extended table: hits stay hits, and the appended entry
/// answers exactly for its own key.
proof fn lemma_entrada_push(
    t: Seq<(NonTerminal, TokenClass, usize)>,
    x: (NonTerminal, TokenClass, usize),
    nt2: NonTerminal,
    tc2: TokenClass,
)
    ensures
        spec_buscar_entrada(t.push(x), nt2, tc2) == (match spec_buscar_entrada(t, nt2, tc2) {
            Some(v) => Some(v),
            None => if nt2 == x.0 && tc2 == x.1 {
                Some(x.2)
            } else {
                None
            },
        }),
    decreases t.len(),
{
    if t.len() == 0 {
        reveal_with_fuel(spec_buscar_entrada, 2);
        assert(t.push(x).drop_first() =~= Seq::<(NonTerminal, TokenClass, usize)>::empty());
        assert(t.push(x)[0] == x);
    } else {
        assert(t.push(x)[0] == t[0]);
        assert(t.push(x).drop_first() =~= t.drop_first().push(x));
        lemma_entrada_push(t.drop_first(), x, nt2, tc2);
    }
}

/// Replacing the first entry of a key answers the new index for that key
/// and leaves every other key's answer alone.
proof fn lemma_entrada_update(
    t: Seq<(NonTerminal, TokenClass, usize)>,
    i: int,
    x: (NonTerminal, TokenClass, usize),
    nt2: NonTerminal,
    tc2: TokenClass,
)
    requires
        0 <= i < t.len(),
        t[i].0 == x.0 && t[i].1 == x.1,
        forall|j: int| 0 <= j < i ==> !((#[trigger] t[j]).0 == x.0 && t[j].1 == x.1),
    ensures
        spec_buscar_entrada(t.update(i, x), nt2, tc2) == (if nt2 == x.0 && tc2 == x.1 {
            Some(x.2)
        } else {
            spec_buscar_entrada(t, nt2, tc2)
        }),
    decreases t.len(),
{
    if i == 0 {
        assert(t.update(0, x)[0] == x);
        assert(t.update(0, x).drop_first() =~= t.drop_first());
        if !(nt2 == x.0 && tc2 == x.1) {
            assert(!(t[0].0 == nt2 && t[0].1 == tc2) || spec_buscar_entrada(t, nt2, tc2) == Some(
                t[0].2));
        }
    } else {
        assert(t.update(i, x)[0] == t[0]);
        assert(t.update(i, x).drop_first() =~= t.drop_first().update(i - 1, x));
        assert forall|j: int| 0 <= j < i - 1 implies !((#[trigger] t.drop_first()[j]).0 == x.0
            && t.drop_first()[j].1 == x.1) by {
            assert(t.drop_first()[j] == t[j + 1]);
        }
        lemma_entrada_update(t.drop_first(), i - 1, x, nt2, tc2);
    }
}

/// The LL(1) table: the production list (production `i + 1` at index `i`)
/// and one production index per (non-terminal, terminal-class) key.
#[derive(Debug)]
pub struct LL1Table {
    pub table: Vec<(NonTerminal, TokenClass, usize)>,
    pub productions: Vec<Production>,
}

/// The grammar itself: the left-hand side and right-hand symbols of each
/// of the 84 productions, in order of their numbers. Identifier, number and
/// string terminals are placeholders and pinned by kind.
pub open spec fn producciones_correctas(ps: Seq<Production>) -> bool {
    &&& ps.len() == 84
    &&& ps[0].lhs == NonTerminal::Programa
    &&& ps[0].rhs@.len() == 7
    &&& ps[0].rhs@[0] == Symbol::Terminal(Token::Programa)
    &&& (ps[0].rhs@[1] matches Symbol::Terminal(t) && t is Identificador)
    &&& ps[0].rhs@[2] == Symbol::Terminal(Token::PuntoYComa)
    &&& ps[0].rhs@[3] == Symbol::NonTerminal(NonTerminal::Definiciones)
    &&& ps[0].rhs@[4] == Symbol::NonTerminal(NonTerminal::Modulos)
    &&& ps[0].rhs@[5] == Symbol::NonTerminal(NonTerminal::BloqueInicio)
    &&& ps[0].rhs@[6] == Symbol::Terminal(Token::Punto)
    &&& ps[1].lhs == NonTerminal::Definiciones
    &&& ps[1].rhs@.len() == 3
    &&& ps[1].rhs@[0] == Symbol::NonTerminal(NonTerminal::DefMaquinas)
    &&& ps[1].rhs@[1] == Symbol::NonTerminal(NonTerminal::DefConcentradores)
    &&& ps[1].rhs@[2] == Symbol::NonTerminal(NonTerminal::DefCoaxiales)
    &&& ps[2].lhs == NonTerminal::Definiciones
    &&& ps[2].rhs@.len() == 1
    &&& ps[2].rhs@[0] == Symbol::Epsilon
    &&& ps[3].lhs == NonTerminal::DefMaquinas
    &&& ps[3].rhs@.len() == 4
    &&& ps[3].rhs@[0] == Symbol::Terminal(Token::Define)
    &&& ps[3].rhs@[1] == Symbol::Terminal(Token::Maquinas)
    &&& ps[3].rhs@[2] == Symbol::NonTerminal(NonTerminal::ListaMaquinas)
    &&& ps[3].rhs@[3] == Symbol::Terminal(Token::PuntoYComa)
    &&& ps[4].lhs == NonTerminal::DefMaquinas
    &&& ps[4].rhs@.len() == 1
    &&& ps[4].rhs@[0] == Symbol::Epsilon
    &&& ps[5].lhs == NonTerminal::DefConcentradores
    &&& ps[5].rhs@.len() == 4
    &&& ps[5].rhs@[0] == Symbol::Terminal(Token::Define)
    &&& ps[5].rhs@[1] == Symbol::Terminal(Token::Concentradores)
    &&& ps[5].rhs@[2] == Symbol::NonTerminal(NonTerminal::ListaConcentradores)
    &&& ps[5].rhs@[3] == Symbol::Terminal(Token::PuntoYComa)
    &&& ps[6].lhs == NonTerminal::DefConcentradores
    &&& ps[6].rhs@.len() == 1
    &&& ps[6].rhs@[0] == Symbol::Epsilon
    &&& ps[7].lhs == NonTerminal::DefCoaxiales
    &&& ps[7].rhs@.len() == 4
    &&& ps[7].rhs@[0] == Symbol::Terminal(Token::Define)
    &&& ps[7].rhs@[1] == Symbol::NonTerminal(NonTerminal::TipoCoaxial)
    &&& ps[7].rhs@[2] == Symbol::NonTerminal(NonTerminal::ListaCoaxiales)
    &&& ps[7].rhs@[3] == Symbol::Terminal(Token::PuntoYComa)
    &&& ps[8].lhs == NonTerminal::DefCoaxiales
    &&& ps[8].rhs@.len() == 1
    &&& ps[8].rhs@[0] == Symbol::Epsilon
    &&& ps[9].lhs == NonTerminal::TipoCoaxial
    &&& ps[9].rhs@.len() == 1
    &&& ps[9].rhs@[0] == Symbol::Terminal(Token::Coaxial)
    &&& ps[10].lhs == NonTerminal::TipoCoaxial
    &&& ps[10].rhs@.len() == 1
    &&& ps[10].rhs@[0] == Symbol::Terminal(Token::Segmento)
    &&& ps[11].lhs == NonTerminal::ListaMaquinas
    &&& ps[11].rhs@.len() == 2
    &&& (ps[11].rhs@[0] matches Symbol::Terminal(t) && t is Identificador)
    &&& ps[11].rhs@[1] == Symbol::NonTerminal(NonTerminal::ListaMaquinasPrime)
    &&& ps[12].lhs == NonTerminal::ListaMaquinasPrime
    &&& ps[12].rhs@.len() == 3
    &&& ps[12].rhs@[0] == Symbol::Terminal(Token::Coma)
    &&& (ps[12].rhs@[1] matches Symbol::Terminal(t) && t is Identificador)
    &&& ps[12].rhs@[2] == Symbol::NonTerminal(NonTerminal::ListaMaquinasPrime)
    &&& ps[13].lhs == NonTerminal::ListaMaquinasPrime
    &&& ps[13].rhs@.len() == 1
    &&& ps[13].rhs@[0] == Symbol::Epsilon
    &&& ps[14].lhs == NonTerminal::ListaConcentradores
    &&& ps[14].rhs@.len() == 2
    &&& ps[14].rhs@[0] == Symbol::NonTerminal(NonTerminal::DeclConcentrador)
    &&& ps[14].rhs@[1] == Symbol::NonTerminal(NonTerminal::ListaConcentradoresPrime)
    &&& ps[15].lhs == NonTerminal::ListaConcentradoresPrime
    &&& ps[15].rhs@.len() == 3
    &&& ps[15].rhs@[0] == Symbol::Terminal(Token::Coma)
    &&& ps[15].rhs@[1] == Symbol::NonTerminal(NonTerminal::DeclConcentrador)
    &&& ps[15].rhs@[2] == Symbol::NonTerminal(NonTerminal::ListaConcentradoresPrime)
    &&& ps[16].lhs == NonTerminal::ListaConcentradoresPrime
    &&& ps[16].rhs@.len() == 1
    &&& ps[16].rhs@[0] == Symbol::Epsilon
    &&& ps[17].lhs == NonTerminal::DeclConcentrador
    &&& ps[17].rhs@.len() == 4
    &&& (ps[17].rhs@[0] matches Symbol::Terminal(t) && t is Identificador)
    &&& ps[17].rhs@[1] == Symbol::Terminal(Token::Igual)
    &&& (ps[17].rhs@[2] matches Symbol::Terminal(t) && t is Numero)
    &&& ps[17].rhs@[3] == Symbol::NonTerminal(NonTerminal::OpcionCoaxial)
    &&& ps[18].lhs == NonTerminal::OpcionCoaxial
    &&& ps[18].rhs@.len() == 2
    &&& ps[18].rhs@[0] == Symbol::Terminal(Token::Punto)
    &&& (ps[18].rhs@[1] matches Symbol::Terminal(t) && t is Numero)
    &&& ps[19].lhs == NonTerminal::OpcionCoaxial
    &&& ps[19].rhs@.len() == 1
    &&& ps[19].rhs@[0] == Symbol::Epsilon
    &&& ps[20].lhs == NonTerminal::ListaCoaxiales
    &&& ps[20].rhs@.len() == 2
    &&& ps[20].rhs@[0] == Symbol::NonTerminal(NonTerminal::DeclCoaxial)
    &&& ps[20].rhs@[1] == Symbol::NonTerminal(NonTerminal::ListaCoaxialesPrime)
    &&& ps[21].lhs == NonTerminal::ListaCoaxialesPrime
    &&& ps[21].rhs@.len() == 3
    &&& ps[21].rhs@[0] == Symbol::Terminal(Token::Coma)
    &&& ps[21].rhs@[1] == Symbol::NonTerminal(NonTerminal::DeclCoaxial)
    &&& ps[21].rhs@[2] == Symbol::NonTerminal(NonTerminal::ListaCoaxialesPrime)
    &&& ps[22].lhs == NonTerminal::ListaCoaxialesPrime
    &&& ps[22].rhs@.len() == 1
    &&& ps[22].rhs@[0] == Symbol::Epsilon
    &&& ps[23].lhs == NonTerminal::DeclCoaxial
    &&& ps[23].rhs@.len() == 3
    &&& (ps[23].rhs@[0] matches Symbol::Terminal(t) && t is Identificador)
    &&& ps[23].rhs@[1] == Symbol::Terminal(Token::Igual)
    &&& (ps[23].rhs@[2] matches Symbol::Terminal(t) && t is Numero)
    &&& ps[24].lhs == NonTerminal::Modulos
    &&& ps[24].rhs@.len() == 2
    &&& ps[24].rhs@[0] == Symbol::NonTerminal(NonTerminal::Modulo)
    &&& ps[24].rhs@[1] == Symbol::NonTerminal(NonTerminal::Modulos)
    &&& ps[25].lhs == NonTerminal::Modulos
    &&& ps[25].rhs@.len() == 1
    &&& ps[25].rhs@[0] == Symbol::Epsilon
    &&& ps[26].lhs == NonTerminal::Modulo
    &&& ps[26].rhs@.len() == 4
    &&& ps[26].rhs@[0] == Symbol::Terminal(Token::Modulo)
    &&& (ps[26].rhs@[1] matches Symbol::Terminal(t) && t is Identificador)
    &&& ps[26].rhs@[2] == Symbol::Terminal(Token::PuntoYComa)
    &&& ps[26].rhs@[3] == Symbol::NonTerminal(NonTerminal::BloqueInicio)
    &&& ps[27].lhs == NonTerminal::BloqueInicio
    &&& ps[27].rhs@.len() == 3
    &&& ps[27].rhs@[0] == Symbol::Terminal(Token::Inicio)
    &&& ps[27].rhs@[1] == Symbol::NonTerminal(NonTerminal::Sentencias)
    &&& ps[27].rhs@[2] == Symbol::Terminal(Token::Fin)
    &&& ps[28].lhs == NonTerminal::Sentencias
    &&& ps[28].rhs@.len() == 2
    &&& ps[28].rhs@[0] == Symbol::NonTerminal(NonTerminal::Sentencia)
    &&& ps[28].rhs@[1] == Symbol::NonTerminal(NonTerminal::Sentencias)
    &&& ps[29].lhs == NonTerminal::Sentencias
    &&& ps[29].rhs@.len() == 1
    &&& ps[29].rhs@[0] == Symbol::Epsilon
    &&& ps[30].lhs == NonTerminal::Sentencia
    &&& ps[30].rhs@.len() == 1
    &&& ps[30].rhs@[0] == Symbol::NonTerminal(NonTerminal::SentenciaColoca)
    &&& ps[31].lhs == NonTerminal::Sentencia
    &&& ps[31].rhs@.len() == 1
    &&& ps[31].rhs@[0] == Symbol::NonTerminal(NonTerminal::SentenciaColocaCoaxial)
    &&& ps[32].lhs == NonTerminal::Sentencia
    &&& ps[32].rhs@.len() == 1
    &&& ps[32].rhs@[0] == Symbol::NonTerminal(NonTerminal::SentenciaColocaCoaxialConcentrador)
    &&& ps[33].lhs == NonTerminal::Sentencia
    &&& ps[33].rhs@.len() == 1
    &&& ps[33].rhs@[0] == Symbol::NonTerminal(NonTerminal::SentenciaUneMaquinaPuerto)
    &&& ps[34].lhs == NonTerminal::Sentencia
    &&& ps[34].rhs@.len() == 1
    &&& ps[34].rhs@[0] == Symbol::NonTerminal(NonTerminal::SentenciaAsignaPuerto)
    &&& ps[35].lhs == NonTerminal::Sentencia
    &&& ps[35].rhs@.len() == 1
    &&& ps[35].rhs@[0] == Symbol::NonTerminal(NonTerminal::SentenciaMaquinaCoaxial)
    &&& ps[36].lhs == NonTerminal::Sentencia
    &&& ps[36].rhs@.len() == 1
    &&& ps[36].rhs@[0] == Symbol::NonTerminal(NonTerminal::SentenciaAsignaMaquinaCoaxial)
    &&& ps[37].lhs == NonTerminal::Sentencia
    &&& ps[37].rhs@.len() == 1
    &&& ps[37].rhs@[0] == Symbol::NonTerminal(NonTerminal::SentenciaEscribe)
    &&& ps[38].lhs == NonTerminal::Sentencia
    &&& ps[38].rhs@.len() == 1
    &&& ps[38].rhs@[0] == Symbol::NonTerminal(NonTerminal::SentenciaSi)
    &&& ps[39].lhs == NonTerminal::Sentencia
    &&& ps[39].rhs@.len() == 1
    &&& ps[39].rhs@[0] == Symbol::NonTerminal(NonTerminal::LlamadaModulo)
    &&& ps[40].lhs == NonTerminal::SentenciaColoca
    &&& ps[40].rhs@.len() == 9
    &&& ps[40].rhs@[0] == Symbol::Terminal(Token::Coloca)
    &&& ps[40].rhs@[1] == Symbol::Terminal(Token::ParenIzq)
    &&& (ps[40].rhs@[2] matches Symbol::Terminal(t) && t is Identificador)
    &&& ps[40].rhs@[3] == Symbol::Terminal(Token::Coma)
    &&& ps[40].rhs@[4] == Symbol::NonTerminal(NonTerminal::Expresion)
    &&& ps[40].rhs@[5] == Symbol::Terminal(Token::Coma)
    &&& ps[40].rhs@[6] == Symbol::NonTerminal(NonTerminal::Expresion)
    &&& ps[40].rhs@[7] == Symbol::Terminal(Token::ParenDer)
    &&& ps[40].rhs@[8] == Symbol::Terminal(Token::PuntoYComa)
    &&& ps[41].lhs == NonTerminal::SentenciaColocaCoaxial
    &&& ps[41].rhs@.len() == 11
    &&& ps[41].rhs@[0] == Symbol::Terminal(Token::ColocaCoaxial)
    &&& ps[41].rhs@[1] == Symbol::Terminal(Token::ParenIzq)
    &&& (ps[41].rhs@[2] matches Symbol::Terminal(t) && t is Identificador)
    &&& ps[41].rhs@[3] == Symbol::Terminal(Token::Coma)
    &&& ps[41].rhs@[4] == Symbol::NonTerminal(NonTerminal::Expresion)
    &&& ps[41].rhs@[5] == Symbol::Terminal(Token::Coma)
    &&& ps[41].rhs@[6] == Symbol::NonTerminal(NonTerminal::Expresion)
    &&& ps[41].rhs@[7] == Symbol::Terminal(Token::Coma)
    &&& ps[41].rhs@[8] == Symbol::NonTerminal(NonTerminal::Direccion)
    &&& ps[41].rhs@[9] == Symbol::Terminal(Token::ParenDer)
    &&& ps[41].rhs@[10] == Symbol::Terminal(Token::PuntoYComa)
    &&& ps[42].lhs == NonTerminal::SentenciaColocaCoaxialConcentrador
    &&& ps[42].rhs@.len() == 7
    &&& ps[42].rhs@[0] == Symbol::Terminal(Token::ColocaCoaxialConcentrador)
    &&& ps[42].rhs@[1] == Symbol::Terminal(Token::ParenIzq)
    &&& (ps[42].rhs@[2] matches Symbol::Terminal(t) && t is Identificador)
    &&& ps[42].rhs@[3] == Symbol::Terminal(Token::Coma)
    &&& (ps[42].rhs@[4] matches Symbol::Terminal(t) && t is Identificador)
    &&& ps[42].rhs@[5] == Symbol::Terminal(Token::ParenDer)
    &&& ps[42].rhs@[6] == Symbol::Terminal(Token::PuntoYComa)
    &&& ps[43].lhs == NonTerminal::SentenciaUneMaquinaPuerto
    &&& ps[43].rhs@.len() == 9
    &&& ps[43].rhs@[0] == Symbol::Terminal(Token::UneMaquinaPuerto)
    &&& ps[43].rhs@[1] == Symbol::Terminal(Token::ParenIzq)
    &&& (ps[43].rhs@[2] matches Symbol::Terminal(t) && t is Identificador)
    &&& ps[43].rhs@[3] == Symbol::Terminal(Token::Coma)
    &&& (ps[43].rhs@[4] matches Symbol::Terminal(t) && t is Identificador)
    &&& ps[43].rhs@[5] == Symbol::Terminal(Token::Coma)
    &&& ps[43].rhs@[6] == Symbol::NonTerminal(NonTerminal::Expresion)
    &&& ps[43].rhs@[7] == Symbol::Terminal(Token::ParenDer)
    &&& ps[43].rhs@[8] == Symbol::Terminal(Token::PuntoYComa)
    &&& ps[44].lhs == NonTerminal::SentenciaAsignaPuerto
    &&& ps[44].rhs@.len() == 7
    &&& ps[44].rhs@[0] == Symbol::Terminal(Token::AsignaPuerto)
    &&& ps[44].rhs@[1] == Symbol::Terminal(Token::ParenIzq)
    &&& (ps[44].rhs@[2] matches Symbol::Terminal(t) && t is Identificador)
    &&& ps[44].rhs@[3] == Symbol::Terminal(Token::Coma)
    &&& (ps[44].rhs@[4] matches Symbol::Terminal(t) && t is Identificador)
    &&& ps[44].rhs@[5] == Symbol::Terminal(Token::ParenDer)
    &&& ps[44].rhs@[6] == Symbol::Terminal(Token::PuntoYComa)
    &&& ps[45].lhs == NonTerminal::SentenciaMaquinaCoaxial
    &&& ps[45].rhs@.len() == 9
    &&& ps[45].rhs@[0] == Symbol::Terminal(Token::MaquinaCoaxial)
    &&& ps[45].rhs@[1] == Symbol::Terminal(Token::ParenIzq)
    &&& (ps[45].rhs@[2] matches Symbol::Terminal(t) && t is Identificador)
    &&& ps[45].rhs@[3] == Symbol::Terminal(Token::Coma)
    &&& (ps[45].rhs@[4] matches Symbol::Terminal(t) && t is Identificador)
    &&& ps[45].rhs@[5] == Symbol::Terminal(Token::Coma)
    &&& ps[45].rhs@[6] == Symbol::NonTerminal(NonTerminal::Expresion)
    &&& ps[45].rhs@[7] == Symbol::Terminal(Token::ParenDer)
    &&& ps[45].rhs@[8] == Symbol::Terminal(Token::PuntoYComa)
    &&& ps[46].lhs == NonTerminal::SentenciaAsignaMaquinaCoaxial
    &&& ps[46].rhs@.len() == 7
    &&& ps[46].rhs@[0] == Symbol::Terminal(Token::AsignaMaquinaCoaxial)
    &&& ps[46].rhs@[1] == Symbol::Terminal(Token::ParenIzq)
    &&& (ps[46].rhs@[2] matches Symbol::Terminal(t) && t is Identificador)
    &&& ps[46].rhs@[3] == Symbol::Terminal(Token::Coma)
    &&& (ps[46].rhs@[4] matches Symbol::Terminal(t) && t is Identificador)
    &&& ps[46].rhs@[5] == Symbol::Terminal(Token::ParenDer)
    &&& ps[46].rhs@[6] == Symbol::Terminal(Token::PuntoYComa)
    &&& ps[47].lhs == NonTerminal::SentenciaEscribe
    &&& ps[47].rhs@.len() == 5
    &&& ps[47].rhs@[0] == Symbol::Terminal(Token::Escribe)
    &&& ps[47].rhs@[1] == Symbol::Terminal(Token::ParenIzq)
    &&& ps[47].rhs@[2] == Symbol::NonTerminal(NonTerminal::Expresion)
    &&& ps[47].rhs@[3] == Symbol::Terminal(Token::ParenDer)
    &&& ps[47].rhs@[4] == Symbol::Terminal(Token::PuntoYComa)
    &&& ps[48].lhs == NonTerminal::SentenciaSi
    &&& ps[48].rhs@.len() == 6
    &&& ps[48].rhs@[0] == Symbol::Terminal(Token::Si)
    &&& ps[48].rhs@[1] == Symbol::NonTerminal(NonTerminal::Expresion)
    &&& ps[48].rhs@[2] == Symbol::Terminal(Token::Inicio)
    &&& ps[48].rhs@[3] == Symbol::NonTerminal(NonTerminal::Sentencias)
    &&& ps[48].rhs@[4] == Symbol::Terminal(Token::Fin)
    &&& ps[48].rhs@[5] == Symbol::NonTerminal(NonTerminal::OpcionSino)
    &&& ps[49].lhs == NonTerminal::OpcionSino
    &&& ps[49].rhs@.len() == 4
    &&& ps[49].rhs@[0] == Symbol::Terminal(Token::Sino)
    &&& ps[49].rhs@[1] == Symbol::Terminal(Token::Inicio)
    &&& ps[49].rhs@[2] == Symbol::NonTerminal(NonTerminal::Sentencias)
    &&& ps[49].rhs@[3] == Symbol::Terminal(Token::Fin)
    &&& ps[50].lhs == NonTerminal::OpcionSino
    &&& ps[50].rhs@.len() == 1
    &&& ps[50].rhs@[0] == Symbol::Epsilon
    &&& ps[51].lhs == NonTerminal::LlamadaModulo
    &&& ps[51].rhs@.len() == 2
    &&& (ps[51].rhs@[0] matches Symbol::Terminal(t) && t is Identificador)
    &&& ps[51].rhs@[1] == Symbol::Terminal(Token::PuntoYComa)
    &&& ps[52].lhs == NonTerminal::Direccion
    &&& ps[52].rhs@.len() == 1
    &&& ps[52].rhs@[0] == Symbol::Terminal(Token::Arriba)
    &&& ps[53].lhs == NonTerminal::Direccion
    &&& ps[53].rhs@.len() == 1
    &&& ps[53].rhs@[0] == Symbol::Terminal(Token::Abajo)
    &&& ps[54].lhs == NonTerminal::Direccion
    &&& ps[54].rhs@.len() == 1
    &&& ps[54].rhs@[0] == Symbol::Terminal(Token::Izquierda)
    &&& ps[55].lhs == NonTerminal::Direccion
    &&& ps[55].rhs@.len() == 1
    &&& ps[55].rhs@[0] == Symbol::Terminal(Token::Derecha)
    &&& ps[56].lhs == NonTerminal::Expresion
    &&& ps[56].rhs@.len() == 1
    &&& ps[56].rhs@[0] == Symbol::NonTerminal(NonTerminal::ExpresionOr)
    &&& ps[57].lhs == NonTerminal::ExpresionOr
    &&& ps[57].rhs@.len() == 2
    &&& ps[57].rhs@[0] == Symbol::NonTerminal(NonTerminal::ExpresionAnd)
    &&& ps[57].rhs@[1] == Symbol::NonTerminal(NonTerminal::ExpresionOrPrime)
    &&& ps[58].lhs == NonTerminal::ExpresionOrPrime
    &&& ps[58].rhs@.len() == 3
    &&& ps[58].rhs@[0] == Symbol::Terminal(Token::Or)
    &&& ps[58].rhs@[1] == Symbol::NonTerminal(NonTerminal::ExpresionAnd)
    &&& ps[58].rhs@[2] == Symbol::NonTerminal(NonTerminal::ExpresionOrPrime)
    &&& ps[59].lhs == NonTerminal::ExpresionOrPrime
    &&& ps[59].rhs@.len() == 1
    &&& ps[59].rhs@[0] == Symbol::Epsilon
    &&& ps[60].lhs == NonTerminal::ExpresionAnd
    &&& ps[60].rhs@.len() == 2
    &&& ps[60].rhs@[0] == Symbol::NonTerminal(NonTerminal::ExpresionRelacional)
    &&& ps[60].rhs@[1] == Symbol::NonTerminal(NonTerminal::ExpresionAndPrime)
    &&& ps[61].lhs == NonTerminal::ExpresionAndPrime
    &&& ps[61].rhs@.len() == 3
    &&& ps[61].rhs@[0] == Symbol::Terminal(Token::And)
    &&& ps[61].rhs@[1] == Symbol::NonTerminal(NonTerminal::ExpresionRelacional)
    &&& ps[61].rhs@[2] == Symbol::NonTerminal(NonTerminal::ExpresionAndPrime)
    &&& ps[62].lhs == NonTerminal::ExpresionAndPrime
    &&& ps[62].rhs@.len() == 1
    &&& ps[62].rhs@[0] == Symbol::Epsilon
    &&& ps[63].lhs == NonTerminal::ExpresionRelacional
    &&& ps[63].rhs@.len() == 2
    &&& ps[63].rhs@[0] == Symbol::NonTerminal(NonTerminal::ExpresionNot)
    &&& ps[63].rhs@[1] == Symbol::NonTerminal(NonTerminal::OpRelacional)
    &&& ps[64].lhs == NonTerminal::OpRelacional
    &&& ps[64].rhs@.len() == 2
    &&& ps[64].rhs@[0] == Symbol::NonTerminal(NonTerminal::OperadorRelacional)
    &&& ps[64].rhs@[1] == Symbol::NonTerminal(NonTerminal::ExpresionNot)
    &&& ps[65].lhs == NonTerminal::OpRelacional
    &&& ps[65].rhs@.len() == 1
    &&& ps[65].rhs@[0] == Symbol::Epsilon
    &&& ps[66].lhs == NonTerminal::OperadorRelacional
    &&& ps[66].rhs@.len() == 1
    &&& ps[66].rhs@[0] == Symbol::Terminal(Token::Igual)
    &&& ps[67].lhs == NonTerminal::OperadorRelacional
    &&& ps[67].rhs@.len() == 1
    &&& ps[67].rhs@[0] == Symbol::Terminal(Token::Diferente)
    &&& ps[68].lhs == NonTerminal::OperadorRelacional
    &&& ps[68].rhs@.len() == 1
    &&& ps[68].rhs@[0] == Symbol::Terminal(Token::Menor)
    &&& ps[69].lhs == NonTerminal::OperadorRelacional
    &&& ps[69].rhs@.len() == 1
    &&& ps[69].rhs@[0] == Symbol::Terminal(Token::Mayor)
    &&& ps[70].lhs == NonTerminal::OperadorRelacional
    &&& ps[70].rhs@.len() == 1
    &&& ps[70].rhs@[0] == Symbol::Terminal(Token::MenorIgual)
    &&& ps[71].lhs == NonTerminal::OperadorRelacional
    &&& ps[71].rhs@.len() == 1
    &&& ps[71].rhs@[0] == Symbol::Terminal(Token::MayorIgual)
    &&& ps[72].lhs == NonTerminal::ExpresionNot
    &&& ps[72].rhs@.len() == 2
    &&& ps[72].rhs@[0] == Symbol::Terminal(Token::Not)
    &&& ps[72].rhs@[1] == Symbol::NonTerminal(NonTerminal::ExpresionNot)
    &&& ps[73].lhs == NonTerminal::ExpresionNot
    &&& ps[73].rhs@.len() == 1
    &&& ps[73].rhs@[0] == Symbol::NonTerminal(NonTerminal::ExpresionPrimaria)
    &&& ps[74].lhs == NonTerminal::ExpresionPrimaria
    &&& ps[74].rhs@.len() == 1
    &&& (ps[74].rhs@[0] matches Symbol::Terminal(t) && t is Numero)
    &&& ps[75].lhs == NonTerminal::ExpresionPrimaria
    &&& ps[75].rhs@.len() == 1
    &&& (ps[75].rhs@[0] matches Symbol::Terminal(t) && t is Cadena)
    &&& ps[76].lhs == NonTerminal::ExpresionPrimaria
    &&& ps[76].rhs@.len() == 2
    &&& (ps[76].rhs@[0] matches Symbol::Terminal(t) && t is Identificador)
    &&& ps[76].rhs@[1] == Symbol::NonTerminal(NonTerminal::Accesos)
    &&& ps[77].lhs == NonTerminal::ExpresionPrimaria
    &&& ps[77].rhs@.len() == 3
    &&& ps[77].rhs@[0] == Symbol::Terminal(Token::ParenIzq)
    &&& ps[77].rhs@[1] == Symbol::NonTerminal(NonTerminal::Expresion)
    &&& ps[77].rhs@[2] == Symbol::Terminal(Token::ParenDer)
    &&& ps[78].lhs == NonTerminal::Accesos
    &&& ps[78].rhs@.len() == 1
    &&& ps[78].rhs@[0] == Symbol::NonTerminal(NonTerminal::AccesoCampo)
    &&& ps[79].lhs == NonTerminal::Accesos
    &&& ps[79].rhs@.len() == 1
    &&& ps[79].rhs@[0] == Symbol::NonTerminal(NonTerminal::AccesoArreglo)
    &&& ps[80].lhs == NonTerminal::Accesos
    &&& ps[80].rhs@.len() == 1
    &&& ps[80].rhs@[0] == Symbol::Epsilon
    &&& ps[81].lhs == NonTerminal::AccesoCampo
    &&& ps[81].rhs@.len() == 3
    &&& ps[81].rhs@[0] == Symbol::Terminal(Token::Punto)
    &&& (ps[81].rhs@[1] matches Symbol::Terminal(t) && t is Identificador)
    &&& ps[81].rhs@[2] == Symbol::NonTerminal(NonTerminal::AccesoArreglo)
    &&& ps[82].lhs == NonTerminal::AccesoArreglo
    &&& ps[82].rhs@.len() == 3
    &&& ps[82].rhs@[0] == Symbol::Terminal(Token::CorcheteIzq)
    &&& ps[82].rhs@[1] == Symbol::NonTerminal(NonTerminal::Expresion)
    &&& ps[82].rhs@[2] == Symbol::Terminal(Token::CorcheteDer)
    &&& ps[83].lhs == NonTerminal::AccesoArreglo
    &&& ps[83].rhs@.len() == 1
    &&& ps[83].rhs@[0] == Symbol::Epsilon
}

impl LL1Table {
    /// Productions are numbered sequentially from 1 in list order.
    pub open spec fn prods_secuenciales(self) -> bool {
        forall|i: int| 0 <= i < self.productions@.len() ==> (
        #[trigger] self.productions@[i]).id == i + 1
    }

    /// No two table entries share a key: the conflict-freedom invariant of an
    /// LL(1) table.
    pub open spec fn claves_unicas(self) -> bool {
        forall|i: int, j: int| 0 <= i < j < self.table@.len() ==> !((
        #[trigger] self.table@[i]).0 == (#[trigger] self.table@[j]).0 && self.table@[i].1
            == self.table@[j].1)
    }

    /// Every table entry points into the production list.
    pub open spec fn indices_validos(self) -> bool {
        forall|i: int| 0 <= i < self.table@.len() ==> (#[trigger] self.table@[i]).2
            < self.productions@.len()
    }

    pub open spec fn wf(self) -> bool {
        self.prods_secuenciales() && self.claves_unicas() && self.indices_validos()
    }

    /// Builds the complete table for the grammar.
    pub fn new() -> (r: LL1Table)
        ensures
            r.wf(),
            r.productions@.len() == 84,
            producciones_correctas(r.productions@),
            r.table@.len() > 0,
            r.tabla_correcta(),
    {
        let mut table = LL1Table { table: Vec::new(), productions: Vec::new() };
        table.initialize_productions();
        table.build_table();
        table
    }

    /// Adds one production; its number must continue the sequence.
    fn add_production(&mut self, id: usize, lhs: NonTerminal, rhs: Vec<Symbol>)
        requires
            id == old(self).productions@.len() + 1,
        ensures
            final(self).productions@.len() == old(self).productions@.len() + 1,
            final(self).table == old(self).table,
            forall|i: int| 0 <= i < old(self).productions@.len() ==> final(self).productions@[i]
                == old(self).productions@[i],
            final(self).productions@.last() == (Production { id, lhs, rhs }),
            old(self).prods_secuenciales() ==> final(self).prods_secuenciales(),
    {
        self.productions.push(Production { id, lhs, rhs });
        proof {
            if old(self).prods_secuenciales() {
                assert forall|i: int| 0 <= i < self.productions@.len() implies (
                    #[trigger] self.productions@[i]).id == i + 1 by {
                    if i < old(self).productions@.len() {
                        assert(self.productions@[i] == old(self).productions@[i]);
                    }
                }
            }
        }
    }

    /// Records the production for a (non-terminal, terminal-class) key,
    /// replacing any earlier entry, which keeps the keys unique: afterwards
    /// the key answers exactly this production and every other key answers
    /// as before.
    fn add_entry(&mut self, nt: NonTerminal, tc: TokenClass, prod_id: usize)
        requires
            old(self).wf(),
            1 <= prod_id <= old(self).productions@.len(),
        ensures
            final(self).wf(),
            final(self).productions == old(self).productions,
            final(self).table@.len() >= 1,
            final(self).table@.len() >= old(self).table@.len(),
            spec_buscar_entrada(final(self).table@, nt, tc) == Some((prod_id - 1) as usize),
            forall|nt2: NonTerminal, tc2: TokenClass|
                !(nt2 == nt && tc2 == tc) ==> #[trigger] spec_buscar_entrada(final(self).table@,
                    nt2, tc2) == spec_buscar_entrada(old(self).table@, nt2, tc2),
    {
        let idx = prod_id - 1;
        let mut i: usize = 0;
        while i < self.table.len()
            invariant
                i <= self.table@.len(),
                self.table@ == old(self).table@,
                self.productions == old(self).productions,
                old(self).wf(),
                self.wf(),
                idx < self.productions@.len(),
                idx == prod_id - 1,
                forall|j: int| 0 <= j < i ==> !((#[trigger] self.table@[j]).0 == nt
                    && self.table@[j].1 == tc),
            decreases self.table@.len() - i,
        {
            if self.table[i].0 == nt && self.table[i].1 == tc {
                let ghost vieja = self.table@;
                let ghost pos = i as int;
                self.table[i] = (nt, tc, idx);
                proof {
                    assert forall|a: int, b: int| 0 <= a < b < self.table@.len() implies !((
                        #[trigger] self.table@[a]).0 == (#[trigger] self.table@[b]).0
                        && self.table@[a].1 == self.table@[b].1) by {
                        if a != pos && b != pos {
                            assert(self.table@[a] == vieja[a] && self.table@[b] == vieja[b]);
                        } else if a == pos {
                            assert(self.table@[b] == vieja[b]);
                            assert(!(vieja[pos].0 == vieja[b].0 && vieja[pos].1 == vieja[b].1));
                        } else {
                            assert(self.table@[a] == vieja[a]);
                            assert(!(vieja[a].0 == vieja[pos].0 && vieja[a].1 == vieja[pos].1));
                        }
                    }
                    assert forall|nt2: NonTerminal, tc2: TokenClass|
                        !(nt2 == nt && tc2 == tc) implies #[trigger] spec_buscar_entrada(
                        self.table@, nt2, tc2) == spec_buscar_entrada(vieja, nt2, tc2) by {
                        lemma_entrada_update(vieja, pos, (nt, tc, idx), nt2, tc2);
                    }
                    lemma_entrada_update(vieja, pos, (nt, tc, idx), nt, tc);
                }
                return;
            }
            i = i + 1;
        }
        let ghost vieja = self.table@;
        self.table.push((nt, tc, idx));
        proof {
            lemma_entrada_push(vieja, (nt, tc, idx), nt, tc);
            lemma_buscar_entrada_ninguna(vieja, nt, tc);
            assert forall|nt2: NonTerminal, tc2: TokenClass|
                !(nt2 == nt && tc2 == tc) implies #[trigger] spec_buscar_entrada(self.table@,
                nt2, tc2) == spec_buscar_entrada(vieja, nt2, tc2) by {
                lemma_entrada_push(vieja, (nt, tc, idx), nt2, tc2);
            }
        }
    }

    /// The 84 productions of the grammar, in order of their numbers.
    #[verifier::rlimit(100)]
    #[verifier::spinoff_prover]
    fn initialize_productions(&mut self)
        requires
            old(self).productions@.len() == 0,
        ensures
            final(self).productions@.len() == 84,
            final(self).prods_secuenciales(),
            producciones_correctas(final(self).productions@),
            final(self).table == old(self).table,
    {
        self.add_production(1, NonTerminal::Programa, vec![
            Symbol::Terminal(Token::Programa),
            Symbol::Terminal(Token::Identificador(String::new())),
            Symbol::Terminal(Token::PuntoYComa),
            Symbol::NonTerminal(NonTerminal::Definiciones),
            Symbol::NonTerminal(NonTerminal::Modulos),
            Symbol::NonTerminal(NonTerminal::BloqueInicio),
            Symbol::Terminal(Token::Punto),
        ]);
        self.add_production(2, NonTerminal::Definiciones, vec![
            Symbol::NonTerminal(NonTerminal::DefMaquinas),
            Symbol::NonTerminal(NonTerminal::DefConcentradores),
            Symbol::NonTerminal(NonTerminal::DefCoaxiales),
        ]);
        self.add_production(3, NonTerminal::Definiciones, vec![
            Symbol::Epsilon,
        ]);
        self.add_production(4, NonTerminal::DefMaquinas, vec![
            Symbol::Terminal(Token::Define),
            Symbol::Terminal(Token::Maquinas),
            Symbol::NonTerminal(NonTerminal::ListaMaquinas),
            Symbol::Terminal(Token::PuntoYComa),
        ]);
        self.add_production(5, NonTerminal::DefMaquinas, vec![
            Symbol::Epsilon,
        ]);
        self.add_production(6, NonTerminal::DefConcentradores, vec![
            Symbol::Terminal(Token::Define),
            Symbol::Terminal(Token::Concentradores),
            Symbol::NonTerminal(NonTerminal::ListaConcentradores),
            Symbol::Terminal(Token::PuntoYComa),
        ]);
        self.add_production(7, NonTerminal::DefConcentradores, vec![
            Symbol::Epsilon,
        ]);
        self.add_production(8, NonTerminal::DefCoaxiales, vec![
            Symbol::Terminal(Token::Define),
            Symbol::NonTerminal(NonTerminal::TipoCoaxial),
            Symbol::NonTerminal(NonTerminal::ListaCoaxiales),
            Symbol::Terminal(Token::PuntoYComa),
        ]);
        self.add_production(9, NonTerminal::DefCoaxiales, vec![
            Symbol::Epsilon,
        ]);
        self.add_production(10, NonTerminal::TipoCoaxial, vec![
            Symbol::Terminal(Token::Coaxial),
        ]);
        self.add_production(11, NonTerminal::TipoCoaxial, vec![
            Symbol::Terminal(Token::Segmento),
        ]);
        self.add_production(12, NonTerminal::ListaMaquinas, vec![
            Symbol::Terminal(Token::Identificador(String::new())),
            Symbol::NonTerminal(NonTerminal::ListaMaquinasPrime),
        ]);
        self.add_production(13, NonTerminal::ListaMaquinasPrime, vec![
            Symbol::Terminal(Token::Coma),
            Symbol::Terminal(Token::Identificador(String::new())),
            Symbol::NonTerminal(NonTerminal::ListaMaquinasPrime),
        ]);
        self.add_production(14, NonTerminal::ListaMaquinasPrime, vec![
            Symbol::Epsilon,
        ]);
        self.add_production(15, NonTerminal::ListaConcentradores, vec![
            Symbol::NonTerminal(NonTerminal::DeclConcentrador),
            Symbol::NonTerminal(NonTerminal::ListaConcentradoresPrime),
        ]);
        self.add_production(16, NonTerminal::ListaConcentradoresPrime, vec![
            Symbol::Terminal(Token::Coma),
            Symbol::NonTerminal(NonTerminal::DeclConcentrador),
            Symbol::NonTerminal(NonTerminal::ListaConcentradoresPrime),
        ]);
        self.add_production(17, NonTerminal::ListaConcentradoresPrime, vec![
            Symbol::Epsilon,
        ]);
        self.add_production(18, NonTerminal::DeclConcentrador, vec![
            Symbol::Terminal(Token::Identificador(String::new())),
            Symbol::Terminal(Token::Igual),
            Symbol::Terminal(Token::Numero(0)),
            Symbol::NonTerminal(NonTerminal::OpcionCoaxial),
        ]);
        self.add_production(19, NonTerminal::OpcionCoaxial, vec![
            Symbol::Terminal(Token::Punto),
            Symbol::Terminal(Token::Numero(0)),
        ]);
        self.add_production(20, NonTerminal::OpcionCoaxial, vec![
            Symbol::Epsilon,
        ]);
        self.add_production(21, NonTerminal::ListaCoaxiales, vec![
            Symbol::NonTerminal(NonTerminal::DeclCoaxial),
            Symbol::NonTerminal(NonTerminal::ListaCoaxialesPrime),
        ]);
        self.add_production(22, NonTerminal::ListaCoaxialesPrime, vec![
            Symbol::Terminal(Token::Coma),
            Symbol::NonTerminal(NonTerminal::DeclCoaxial),
            Symbol::NonTerminal(NonTerminal::ListaCoaxialesPrime),
        ]);
        self.add_production(23, NonTerminal::ListaCoaxialesPrime, vec![
            Symbol::Epsilon,
        ]);
        self.add_production(24, NonTerminal::DeclCoaxial, vec![
            Symbol::Terminal(Token::Identificador(String::new())),
            Symbol::Terminal(Token::Igual),
            Symbol::Terminal(Token::Numero(0)),
        ]);
        self.add_production(25, NonTerminal::Modulos, vec![
            Symbol::NonTerminal(NonTerminal::Modulo),
            Symbol::NonTerminal(NonTerminal::Modulos),
        ]);
        self.add_production(26, NonTerminal::Modulos, vec![
            Symbol::Epsilon,
        ]);
        self.add_production(27, NonTerminal::Modulo, vec![
            Symbol::Terminal(Token::Modulo),
            Symbol::Terminal(Token::Identificador(String::new())),
            Symbol::Terminal(Token::PuntoYComa),
            Symbol::NonTerminal(NonTerminal::BloqueInicio),
        ]);
        self.add_production(28, NonTerminal::BloqueInicio, vec![
            Symbol::Terminal(Token::Inicio),
            Symbol::NonTerminal(NonTerminal::Sentencias),
            Symbol::Terminal(Token::Fin),
        ]);
        self.add_production(29, NonTerminal::Sentencias, vec![
            Symbol::NonTerminal(NonTerminal::Sentencia),
            Symbol::NonTerminal(NonTerminal::Sentencias),
        ]);
        self.add_production(30, NonTerminal::Sentencias, vec![
            Symbol::Epsilon,
        ]);
        self.add_production(31, NonTerminal::Sentencia, vec![
            Symbol::NonTerminal(NonTerminal::SentenciaColoca),
        ]);
        self.add_production(32, NonTerminal::Sentencia, vec![
            Symbol::NonTerminal(NonTerminal::SentenciaColocaCoaxial),
        ]);
        self.add_production(33, NonTerminal::Sentencia, vec![
            Symbol::NonTerminal(NonTerminal::SentenciaColocaCoaxialConcentrador),
        ]);
        self.add_production(34, NonTerminal::Sentencia, vec![
            Symbol::NonTerminal(NonTerminal::SentenciaUneMaquinaPuerto),
        ]);
        self.add_production(35, NonTerminal::Sentencia, vec![
            Symbol::NonTerminal(NonTerminal::SentenciaAsignaPuerto),
        ]);
        self.add_production(36, NonTerminal::Sentencia, vec![
            Symbol::NonTerminal(NonTerminal::SentenciaMaquinaCoaxial),
        ]);
        self.add_production(37, NonTerminal::Sentencia, vec![
            Symbol::NonTerminal(NonTerminal::SentenciaAsignaMaquinaCoaxial),
        ]);
        self.add_production(38, NonTerminal::Sentencia, vec![
            Symbol::NonTerminal(NonTerminal::SentenciaEscribe),
        ]);
        self.add_production(39, NonTerminal::Sentencia, vec![
            Symbol::NonTerminal(NonTerminal::SentenciaSi),
        ]);
        self.add_production(40, NonTerminal::Sentencia, vec![
            Symbol::NonTerminal(NonTerminal::LlamadaModulo),
        ]);
        self.add_production(41, NonTerminal::SentenciaColoca, vec![
            Symbol::Terminal(Token::Coloca),
            Symbol::Terminal(Token::ParenIzq),
            Symbol::Terminal(Token::Identificador(String::new())),
            Symbol::Terminal(Token::Coma),
            Symbol::NonTerminal(NonTerminal::Expresion),
            Symbol::Terminal(Token::Coma),
            Symbol::NonTerminal(NonTerminal::Expresion),
            Symbol::Terminal(Token::ParenDer),
            Symbol::Terminal(Token::PuntoYComa),
        ]);
        self.add_production(42, NonTerminal::SentenciaColocaCoaxial, vec![
            Symbol::Terminal(Token::ColocaCoaxial),
            Symbol::Terminal(Token::ParenIzq),
            Symbol::Terminal(Token::Identificador(String::new())),
            Symbol::Terminal(Token::Coma),
            Symbol::NonTerminal(NonTerminal::Expresion),
            Symbol::Terminal(Token::Coma),
            Symbol::NonTerminal(NonTerminal::Expresion),
            Symbol::Terminal(Token::Coma),
            Symbol::NonTerminal(NonTerminal::Direccion),
            Symbol::Terminal(Token::ParenDer),
            Symbol::Terminal(Token::PuntoYComa),
        ]);
        self.add_production(43, NonTerminal::SentenciaColocaCoaxialConcentrador, vec![
            Symbol::Terminal(Token::ColocaCoaxialConcentrador),
            Symbol::Terminal(Token::ParenIzq),
            Symbol::Terminal(Token::Identificador(String::new())),
            Symbol::Terminal(Token::Coma),
            Symbol::Terminal(Token::Identificador(String::new())),
            Symbol::Terminal(Token::ParenDer),
            Symbol::Terminal(Token::PuntoYComa),
        ]);
        self.add_production(44, NonTerminal::SentenciaUneMaquinaPuerto, vec![
            Symbol::Terminal(Token::UneMaquinaPuerto),
            Symbol::Terminal(Token::ParenIzq),
            Symbol::Terminal(Token::Identificador(String::new())),
            Symbol::Terminal(Token::Coma),
            Symbol::Terminal(Token::Identificador(String::new())),
            Symbol::Terminal(Token::Coma),
            Symbol::NonTerminal(NonTerminal::Expresion),
            Symbol::Terminal(Token::ParenDer),
            Symbol::Terminal(Token::PuntoYComa),
        ]);
        self.add_production(45, NonTerminal::SentenciaAsignaPuerto, vec![
            Symbol::Terminal(Token::AsignaPuerto),
            Symbol::Terminal(Token::ParenIzq),
            Symbol::Terminal(Token::Identificador(String::new())),
            Symbol::Terminal(Token::Coma),
            Symbol::Terminal(Token::Identificador(String::new())),
            Symbol::Terminal(Token::ParenDer),
            Symbol::Terminal(Token::PuntoYComa),
        ]);
        self.add_production(46, NonTerminal::SentenciaMaquinaCoaxial, vec![
            Symbol::Terminal(Token::MaquinaCoaxial),
            Symbol::Terminal(Token::ParenIzq),
            Symbol::Terminal(Token::Identificador(String::new())),
            Symbol::Terminal(Token::Coma),
            Symbol::Terminal(Token::Identificador(String::new())),
            Symbol::Terminal(Token::Coma),
            Symbol::NonTerminal(NonTerminal::Expresion),
            Symbol::Terminal(Token::ParenDer),
            Symbol::Terminal(Token::PuntoYComa),
        ]);
        self.add_production(47, NonTerminal::SentenciaAsignaMaquinaCoaxial, vec![
            Symbol::Terminal(Token::AsignaMaquinaCoaxial),
            Symbol::Terminal(Token::ParenIzq),
            Symbol::Terminal(Token::Identificador(String::new())),
            Symbol::Terminal(Token::Coma),
            Symbol::Terminal(Token::Identificador(String::new())),
            Symbol::Terminal(Token::ParenDer),
            Symbol::Terminal(Token::PuntoYComa),
        ]);
        self.add_production(48, NonTerminal::SentenciaEscribe, vec![
            Symbol::Terminal(Token::Escribe),
            Symbol::Terminal(Token::ParenIzq),
            Symbol::NonTerminal(NonTerminal::Expresion),
            Symbol::Terminal(Token::ParenDer),
            Symbol::Terminal(Token::PuntoYComa),
        ]);
        self.add_production(49, NonTerminal::SentenciaSi, vec![
            Symbol::Terminal(Token::Si),
            Symbol::NonTerminal(NonTerminal::Expresion),
            Symbol::Terminal(Token::Inicio),
            Symbol::NonTerminal(NonTerminal::Sentencias),
            Symbol::Terminal(Token::Fin),
            Symbol::NonTerminal(NonTerminal::OpcionSino),
        ]);
        self.add_production(50, NonTerminal::OpcionSino, vec![
            Symbol::Terminal(Token::Sino),
            Symbol::Terminal(Token::Inicio),
            Symbol::NonTerminal(NonTerminal::Sentencias),
            Symbol::Terminal(Token::Fin),
        ]);
        self.add_production(51, NonTerminal::OpcionSino, vec![
            Symbol::Epsilon,
        ]);
        self.add_production(52, NonTerminal::LlamadaModulo, vec![
            Symbol::Terminal(Token::Identificador(String::new())),
            Symbol::Terminal(Token::PuntoYComa),
        ]);
        self.add_production(53, NonTerminal::Direccion, vec![
            Symbol::Terminal(Token::Arriba),
        ]);
        self.add_production(54, NonTerminal::Direccion, vec![
            Symbol::Terminal(Token::Abajo),
        ]);
        self.add_production(55, NonTerminal::Direccion, vec![
            Symbol::Terminal(Token::Izquierda),
        ]);
        self.add_production(56, NonTerminal::Direccion, vec![
            Symbol::Terminal(Token::Derecha),
        ]);
        self.add_production(57, NonTerminal::Expresion, vec![
            Symbol::NonTerminal(NonTerminal::ExpresionOr),
        ]);
        self.add_production(58, NonTerminal::ExpresionOr, vec![
            Symbol::NonTerminal(NonTerminal::ExpresionAnd),
            Symbol::NonTerminal(NonTerminal::ExpresionOrPrime),
        ]);
        self.add_production(59, NonTerminal::ExpresionOrPrime, vec![
            Symbol::Terminal(Token::Or),
            Symbol::NonTerminal(NonTerminal::ExpresionAnd),
            Symbol::NonTerminal(NonTerminal::ExpresionOrPrime),
        ]);
        self.add_production(60, NonTerminal::ExpresionOrPrime, vec![
            Symbol::Epsilon,
        ]);
        self.add_production(61, NonTerminal::ExpresionAnd, vec![
            Symbol::NonTerminal(NonTerminal::ExpresionRelacional),
            Symbol::NonTerminal(NonTerminal::ExpresionAndPrime),
        ]);
        self.add_production(62, NonTerminal::ExpresionAndPrime, vec![
            Symbol::Terminal(Token::And),
            Symbol::NonTerminal(NonTerminal::ExpresionRelacional),
            Symbol::NonTerminal(NonTerminal::ExpresionAndPrime),
        ]);
        self.add_production(63, NonTerminal::ExpresionAndPrime, vec![
            Symbol::Epsilon,
        ]);
        self.add_production(64, NonTerminal::ExpresionRelacional, vec![
            Symbol::NonTerminal(NonTerminal::ExpresionNot),
            Symbol::NonTerminal(NonTerminal::OpRelacional),
        ]);
        self.add_production(65, NonTerminal::OpRelacional, vec![
            Symbol::NonTerminal(NonTerminal::OperadorRelacional),
            Symbol::NonTerminal(NonTerminal::ExpresionNot),
        ]);
        self.add_production(66, NonTerminal::OpRelacional, vec![
            Symbol::Epsilon,
        ]);
        self.add_production(67, NonTerminal::OperadorRelacional, vec![
            Symbol::Terminal(Token::Igual),
        ]);
        self.add_production(68, NonTerminal::OperadorRelacional, vec![
            Symbol::Terminal(Token::Diferente),
        ]);
        self.add_production(69, NonTerminal::OperadorRelacional, vec![
            Symbol::Terminal(Token::Menor),
        ]);
        self.add_production(70, NonTerminal::OperadorRelacional, vec![
            Symbol::Terminal(Token::Mayor),
        ]);
        self.add_production(71, NonTerminal::OperadorRelacional, vec![
            Symbol::Terminal(Token::MenorIgual),
        ]);
        self.add_production(72, NonTerminal::OperadorRelacional, vec![
            Symbol::Terminal(Token::MayorIgual),
        ]);
        self.add_production(73, NonTerminal::ExpresionNot, vec![
            Symbol::Terminal(Token::Not),
            Symbol::NonTerminal(NonTerminal::ExpresionNot),
        ]);
        self.add_production(74, NonTerminal::ExpresionNot, vec![
            Symbol::NonTerminal(NonTerminal::ExpresionPrimaria),
        ]);
        self.add_production(75, NonTerminal::ExpresionPrimaria, vec![
            Symbol::Terminal(Token::Numero(0)),
        ]);
        self.add_production(76, NonTerminal::ExpresionPrimaria, vec![
            Symbol::Terminal(Token::Cadena(String::new())),
        ]);
        self.add_production(77, NonTerminal::ExpresionPrimaria, vec![
            Symbol::Terminal(Token::Identificador(String::new())),
            Symbol::NonTerminal(NonTerminal::Accesos),
        ]);
        self.add_production(78, NonTerminal::ExpresionPrimaria, vec![
            Symbol::Terminal(Token::ParenIzq),
            Symbol::NonTerminal(NonTerminal::Expresion),
            Symbol::Terminal(Token::ParenDer),
        ]);
        self.add_production(79, NonTerminal::Accesos, vec![
            Symbol::NonTerminal(NonTerminal::AccesoCampo),
        ]);
        self.add_production(80, NonTerminal::Accesos, vec![
            Symbol::NonTerminal(NonTerminal::AccesoArreglo),
        ]);
        self.add_production(81, NonTerminal::Accesos, vec![
            Symbol::Epsilon,
        ]);
        self.add_production(82, NonTerminal::AccesoCampo, vec![
            Symbol::Terminal(Token::Punto),
            Symbol::Terminal(Token::Identificador(String::new())),
            Symbol::NonTerminal(NonTerminal::AccesoArreglo),
        ]);
        self.add_production(83, NonTerminal::AccesoArreglo, vec![
            Symbol::Terminal(Token::CorcheteIzq),
            Symbol::NonTerminal(NonTerminal::Expresion),
            Symbol::Terminal(Token::CorcheteDer),
        ]);
        self.add_production(84, NonTerminal::AccesoArreglo, vec![
            Symbol::Epsilon,
        ]);
    }

    /// The complete content of the parsing table: one clause per entry,
    /// giving the production stored for each exercised
    /// (non-terminal, terminal-class) pair.
    pub open spec fn tabla_correcta(self) -> bool {
        &&& spec_buscar_entrada(self.table@, NonTerminal::Programa, TokenClass::Programa) == Some(0usize)
        &&& spec_buscar_entrada(self.table@, NonTerminal::Definiciones, TokenClass::Define) == Some(1usize)
        &&& spec_buscar_entrada(self.table@, NonTerminal::Definiciones, TokenClass::Modulo) == Some(2usize)
        &&& spec_buscar_entrada(self.table@, NonTerminal::Definiciones, TokenClass::Inicio) == Some(2usize)
        &&& spec_buscar_entrada(self.table@, NonTerminal::DefMaquinas, TokenClass::Define) == Some(3usize)
        &&& spec_buscar_entrada(self.table@, NonTerminal::DefMaquinas, TokenClass::Modulo) == Some(4usize)
        &&& spec_buscar_entrada(self.table@, NonTerminal::DefMaquinas, TokenClass::Inicio) == Some(4usize)
        &&& spec_buscar_entrada(self.table@, NonTerminal::DefConcentradores, TokenClass::Define) == Some(5usize)
        &&& spec_buscar_entrada(self.table@, NonTerminal::DefConcentradores, TokenClass::Modulo) == Some(6usize)
        &&& spec_buscar_entrada(self.table@, NonTerminal::DefConcentradores, TokenClass::Inicio) == Some(6usize)
        &&& spec_buscar_entrada(self.table@, NonTerminal::DefCoaxiales, TokenClass::Define) == Some(7usize)
        &&& spec_buscar_entrada(self.table@, NonTerminal::DefCoaxiales, TokenClass::Modulo) == Some(8usize)
        &&& spec_buscar_entrada(self.table@, NonTerminal::DefCoaxiales, TokenClass::Inicio) == Some(8usize)
        &&& spec_buscar_entrada(self.table@, NonTerminal::TipoCoaxial, TokenClass::Coaxial) == Some(9usize)
        &&& spec_buscar_entrada(self.table@, NonTerminal::TipoCoaxial, TokenClass::Segmento) == Some(10usize)
        &&& spec_buscar_entrada(self.table@, NonTerminal::ListaMaquinas, TokenClass::Identificador) == Some(11usize)
        &&& spec_buscar_entrada(self.table@, NonTerminal::ListaMaquinasPrime, TokenClass::Coma) == Some(12usize)
        &&& spec_buscar_entrada(self.table@, NonTerminal::ListaMaquinasPrime, TokenClass::PuntoYComa) == Some(13usize)
        &&& spec_buscar_entrada(self.table@, NonTerminal::ListaConcentradores, TokenClass::Identificador) == Some(14usize)
        &&& spec_buscar_entrada(self.table@, NonTerminal::ListaConcentradoresPrime, TokenClass::Coma) == Some(15usize)
        &&& spec_buscar_entrada(self.table@, NonTerminal::ListaConcentradoresPrime, TokenClass::PuntoYComa) == Some(16usize)
        &&& spec_buscar_entrada(self.table@, NonTerminal::DeclConcentrador, TokenClass::Identificador) == Some(17usize)
        &&& spec_buscar_entrada(self.table@, NonTerminal::OpcionCoaxial, TokenClass::Punto) == Some(18usize)
        &&& spec_buscar_entrada(self.table@, NonTerminal::OpcionCoaxial, TokenClass::Coma) == Some(19usize)
        &&& spec_buscar_entrada(self.table@, NonTerminal::OpcionCoaxial, TokenClass::PuntoYComa) == Some(19usize)
        &&& spec_buscar_entrada(self.table@, NonTerminal::ListaCoaxiales, TokenClass::Identificador) == Some(20usize)
        &&& spec_buscar_entrada(self.table@, NonTerminal::ListaCoaxialesPrime, TokenClass::Coma) == Some(21usize)
        &&& spec_buscar_entrada(self.table@, NonTerminal::ListaCoaxialesPrime, TokenClass::PuntoYComa) == Some(22usize)
        &&& spec_buscar_entrada(self.table@, NonTerminal::DeclCoaxial, TokenClass::Identificador) == Some(23usize)
        &&& spec_buscar_entrada(self.table@, NonTerminal::Modulos, TokenClass::Modulo) == Some(24usize)
        &&& spec_buscar_entrada(self.table@, NonTerminal::Modulos, TokenClass::Inicio) == Some(25usize)
        &&& spec_buscar_entrada(self.table@, NonTerminal::Modulo, TokenClass::Modulo) == Some(26usize)
        &&& spec_buscar_entrada(self.table@, NonTerminal::BloqueInicio, TokenClass::Inicio) == Some(27usize)
        &&& spec_buscar_entrada(self.table@, NonTerminal::Sentencias, TokenClass::Coloca) == Some(28usize)
        &&& spec_buscar_entrada(self.table@, NonTerminal::Sentencias, TokenClass::ColocaCoaxial) == Some(28usize)
        &&& spec_buscar_entrada(self.table@, NonTerminal::Sentencias, TokenClass::ColocaCoaxialConcentrador) == Some(28usize)
        &&& spec_buscar_entrada(self.table@, NonTerminal::Sentencias, TokenClass::UneMaquinaPuerto) == Some(28usize)
        &&& spec_buscar_entrada(self.table@, NonTerminal::Sentencias, TokenClass::AsignaPuerto) == Some(28usize)
        &&& spec_buscar_entrada(self.table@, NonTerminal::Sentencias, TokenClass::MaquinaCoaxial) == Some(28usize)
        &&& spec_buscar_entrada(self.table@, NonTerminal::Sentencias, TokenClass::AsignaMaquinaCoaxial) == Some(28usize)
        &&& spec_buscar_entrada(self.table@, NonTerminal::Sentencias, TokenClass::Escribe) == Some(28usize)
        &&& spec_buscar_entrada(self.table@, NonTerminal::Sentencias, TokenClass::Si) == Some(28usize)
        &&& spec_buscar_entrada(self.table@, NonTerminal::Sentencias, TokenClass::Identificador) == Some(28usize)
        &&& spec_buscar_entrada(self.table@, NonTerminal::Sentencias, TokenClass::Fin) == Some(29usize)
        &&& spec_buscar_entrada(self.table@, NonTerminal::Sentencia, TokenClass::Coloca) == Some(30usize)
        &&& spec_buscar_entrada(self.table@, NonTerminal::Sentencia, TokenClass::ColocaCoaxial) == Some(31usize)
        &&& spec_buscar_entrada(self.table@, NonTerminal::Sentencia, TokenClass::ColocaCoaxialConcentrador) == Some(32usize)
        &&& spec_buscar_entrada(self.table@, NonTerminal::Sentencia, TokenClass::UneMaquinaPuerto) == Some(33usize)
        &&& spec_buscar_entrada(self.table@, NonTerminal::Sentencia, TokenClass::AsignaPuerto) == Some(34usize)
        &&& spec_buscar_entrada(self.table@, NonTerminal::Sentencia, TokenClass::MaquinaCoaxial) == Some(35usize)
        &&& spec_buscar_entrada(self.table@, NonTerminal::Sentencia, TokenClass::AsignaMaquinaCoaxial) == Some(36usize)
        &&& spec_buscar_entrada(self.table@, NonTerminal::Sentencia, TokenClass::Escribe) == Some(37usize)
        &&& spec_buscar_entrada(self.table@, NonTerminal::Sentencia, TokenClass::Si) == Some(38usize)
        &&& spec_buscar_entrada(self.table@, NonTerminal::Sentencia, TokenClass::Identificador) == Some(39usize)
        &&& spec_buscar_entrada(self.table@, NonTerminal::SentenciaColoca, TokenClass::Coloca) == Some(40usize)
        &&& spec_buscar_entrada(self.table@, NonTerminal::SentenciaColocaCoaxial, TokenClass::ColocaCoaxial) == Some(41usize)
        &&& spec_buscar_entrada(self.table@, NonTerminal::SentenciaColocaCoaxialConcentrador, TokenClass::ColocaCoaxialConcentrador) == Some(42usize)
        &&& spec_buscar_entrada(self.table@, NonTerminal::SentenciaUneMaquinaPuerto, TokenClass::UneMaquinaPuerto) == Some(43usize)
        &&& spec_buscar_entrada(self.table@, NonTerminal::SentenciaAsignaPuerto, TokenClass::AsignaPuerto) == Some(44usize)
        &&& spec_buscar_entrada(self.table@, NonTerminal::SentenciaMaquinaCoaxial, TokenClass::MaquinaCoaxial) == Some(45usize)
        &&& spec_buscar_entrada(self.table@, NonTerminal::SentenciaAsignaMaquinaCoaxial, TokenClass::AsignaMaquinaCoaxial) == Some(46usize)
        &&& spec_buscar_entrada(self.table@, NonTerminal::SentenciaEscribe, TokenClass::Escribe) == Some(47usize)
        &&& spec_buscar_entrada(self.table@, NonTerminal::SentenciaSi, TokenClass::Si) == Some(48usize)
        &&& spec_buscar_entrada(self.table@, NonTerminal::OpcionSino, TokenClass::Sino) == Some(49usize)
        &&& spec_buscar_entrada(self.table@, NonTerminal::OpcionSino, TokenClass::Coloca) == Some(50usize)
        &&& spec_buscar_entrada(self.table@, NonTerminal::OpcionSino, TokenClass::ColocaCoaxial) == Some(50usize)
        &&& spec_buscar_entrada(self.table@, NonTerminal::OpcionSino, TokenClass::ColocaCoaxialConcentrador) == Some(50usize)
        &&& spec_buscar_entrada(self.table@, NonTerminal::OpcionSino, TokenClass::UneMaquinaPuerto) == Some(50usize)
        &&& spec_buscar_entrada(self.table@, NonTerminal::OpcionSino, TokenClass::AsignaPuerto) == Some(50usize)
        &&& spec_buscar_entrada(self.table@, NonTerminal::OpcionSino, TokenClass::MaquinaCoaxial) == Some(50usize)
        &&& spec_buscar_entrada(self.table@, NonTerminal::OpcionSino, TokenClass::AsignaMaquinaCoaxial) == Some(50usize)
        &&& spec_buscar_entrada(self.table@, NonTerminal::OpcionSino, TokenClass::Escribe) == Some(50usize)
        &&& spec_buscar_entrada(self.table@, NonTerminal::OpcionSino, TokenClass::Si) == Some(50usize)
        &&& spec_buscar_entrada(self.table@, NonTerminal::OpcionSino, TokenClass::Identificador) == Some(50usize)
        &&& spec_buscar_entrada(self.table@, NonTerminal::OpcionSino, TokenClass::Fin) == Some(50usize)
        &&& spec_buscar_entrada(self.table@, NonTerminal::LlamadaModulo, TokenClass::Identificador) == Some(51usize)
        &&& spec_buscar_entrada(self.table@, NonTerminal::Direccion, TokenClass::Arriba) == Some(52usize)
        &&& spec_buscar_entrada(self.table@, NonTerminal::Direccion, TokenClass::Abajo) == Some(53usize)
        &&& spec_buscar_entrada(self.table@, NonTerminal::Direccion, TokenClass::Izquierda) == Some(54usize)
        &&& spec_buscar_entrada(self.table@, NonTerminal::Direccion, TokenClass::Derecha) == Some(55usize)
        &&& spec_buscar_entrada(self.table@, NonTerminal::Expresion, TokenClass::Not) == Some(56usize)
        &&& spec_buscar_entrada(self.table@, NonTerminal::Expresion, TokenClass::Numero) == Some(56usize)
        &&& spec_buscar_entrada(self.table@, NonTerminal::Expresion, TokenClass::Cadena) == Some(56usize)
        &&& spec_buscar_entrada(self.table@, NonTerminal::Expresion, TokenClass::Identificador) == Some(56usize)
        &&& spec_buscar_entrada(self.table@, NonTerminal::Expresion, TokenClass::ParenIzq) == Some(56usize)
        &&& spec_buscar_entrada(self.table@, NonTerminal::ExpresionOr, TokenClass::Not) == Some(57usize)
        &&& spec_buscar_entrada(self.table@, NonTerminal::ExpresionOr, TokenClass::Numero) == Some(57usize)
        &&& spec_buscar_entrada(self.table@, NonTerminal::ExpresionOr, TokenClass::Cadena) == Some(57usize)
        &&& spec_buscar_entrada(self.table@, NonTerminal::ExpresionOr, TokenClass::Identificador) == Some(57usize)
        &&& spec_buscar_entrada(self.table@, NonTerminal::ExpresionOr, TokenClass::ParenIzq) == Some(57usize)
        &&& spec_buscar_entrada(self.table@, NonTerminal::ExpresionOrPrime, TokenClass::Or) == Some(58usize)
        &&& spec_buscar_entrada(self.table@, NonTerminal::ExpresionOrPrime, TokenClass::ParenDer) == Some(59usize)
        &&& spec_buscar_entrada(self.table@, NonTerminal::ExpresionOrPrime, TokenClass::Coma) == Some(59usize)
        &&& spec_buscar_entrada(self.table@, NonTerminal::ExpresionOrPrime, TokenClass::CorcheteDer) == Some(59usize)
        &&& spec_buscar_entrada(self.table@, NonTerminal::ExpresionOrPrime, TokenClass::PuntoYComa) == Some(59usize)
        &&& spec_buscar_entrada(self.table@, NonTerminal::ExpresionOrPrime, TokenClass::Inicio) == Some(59usize)
        &&& spec_buscar_entrada(self.table@, NonTerminal::ExpresionAnd, TokenClass::Not) == Some(60usize)
        &&& spec_buscar_entrada(self.table@, NonTerminal::ExpresionAnd, TokenClass::Numero) == Some(60usize)
        &&& spec_buscar_entrada(self.table@, NonTerminal::ExpresionAnd, TokenClass::Cadena) == Some(60usize)
        &&& spec_buscar_entrada(self.table@, NonTerminal::ExpresionAnd, TokenClass::Identificador) == Some(60usize)
        &&& spec_buscar_entrada(self.table@, NonTerminal::ExpresionAnd, TokenClass::ParenIzq) == Some(60usize)
        &&& spec_buscar_entrada(self.table@, NonTerminal::ExpresionAndPrime, TokenClass::And) == Some(61usize)
        &&& spec_buscar_entrada(self.table@, NonTerminal::ExpresionAndPrime, TokenClass::Or) == Some(62usize)
        &&& spec_buscar_entrada(self.table@, NonTerminal::ExpresionAndPrime, TokenClass::ParenDer) == Some(62usize)
        &&& spec_buscar_entrada(self.table@, NonTerminal::ExpresionAndPrime, TokenClass::Coma) == Some(62usize)
        &&& spec_buscar_entrada(self.table@, NonTerminal::ExpresionAndPrime, TokenClass::CorcheteDer) == Some(62usize)
        &&& spec_buscar_entrada(self.table@, NonTerminal::ExpresionAndPrime, TokenClass::PuntoYComa) == Some(62usize)
        &&& spec_buscar_entrada(self.table@, NonTerminal::ExpresionAndPrime, TokenClass::Inicio) == Some(62usize)
        &&& spec_buscar_entrada(self.table@, NonTerminal::ExpresionRelacional, TokenClass::Not) == Some(63usize)
        &&& spec_buscar_entrada(self.table@, NonTerminal::ExpresionRelacional, TokenClass::Numero) == Some(63usize)
        &&& spec_buscar_entrada(self.table@, NonTerminal::ExpresionRelacional, TokenClass::Cadena) == Some(63usize)
        &&& spec_buscar_entrada(self.table@, NonTerminal::ExpresionRelacional, TokenClass::Identificador) == Some(63usize)
        &&& spec_buscar_entrada(self.table@, NonTerminal::ExpresionRelacional, TokenClass::ParenIzq) == Some(63usize)
        &&& spec_buscar_entrada(self.table@, NonTerminal::OpRelacional, TokenClass::Igual) == Some(64usize)
        &&& spec_buscar_entrada(self.table@, NonTerminal::OpRelacional, TokenClass::Diferente) == Some(64usize)
        &&& spec_buscar_entrada(self.table@, NonTerminal::OpRelacional, TokenClass::Menor) == Some(64usize)
        &&& spec_buscar_entrada(self.table@, NonTerminal::OpRelacional, TokenClass::Mayor) == Some(64usize)
        &&& spec_buscar_entrada(self.table@, NonTerminal::OpRelacional, TokenClass::MenorIgual) == Some(64usize)
        &&& spec_buscar_entrada(self.table@, NonTerminal::OpRelacional, TokenClass::MayorIgual) == Some(64usize)
        &&& spec_buscar_entrada(self.table@, NonTerminal::OpRelacional, TokenClass::And) == Some(65usize)
        &&& spec_buscar_entrada(self.table@, NonTerminal::OpRelacional, TokenClass::Or) == Some(65usize)
        &&& spec_buscar_entrada(self.table@, NonTerminal::OpRelacional, TokenClass::ParenDer) == Some(65usize)
        &&& spec_buscar_entrada(self.table@, NonTerminal::OpRelacional, TokenClass::Coma) == Some(65usize)
        &&& spec_buscar_entrada(self.table@, NonTerminal::OpRelacional, TokenClass::CorcheteDer) == Some(65usize)
        &&& spec_buscar_entrada(self.table@, NonTerminal::OpRelacional, TokenClass::PuntoYComa) == Some(65usize)
        &&& spec_buscar_entrada(self.table@, NonTerminal::OpRelacional, TokenClass::Inicio) == Some(65usize)
        &&& spec_buscar_entrada(self.table@, NonTerminal::OperadorRelacional, TokenClass::Igual) == Some(66usize)
        &&& spec_buscar_entrada(self.table@, NonTerminal::OperadorRelacional, TokenClass::Diferente) == Some(67usize)
        &&& spec_buscar_entrada(self.table@, NonTerminal::OperadorRelacional, TokenClass::Menor) == Some(68usize)
        &&& spec_buscar_entrada(self.table@, NonTerminal::OperadorRelacional, TokenClass::Mayor) == Some(69usize)
        &&& spec_buscar_entrada(self.table@, NonTerminal::OperadorRelacional, TokenClass::MenorIgual) == Some(70usize)
        &&& spec_buscar_entrada(self.table@, NonTerminal::OperadorRelacional, TokenClass::MayorIgual) == Some(71usize)
        &&& spec_buscar_entrada(self.table@, NonTerminal::ExpresionNot, TokenClass::Not) == Some(72usize)
        &&& spec_buscar_entrada(self.table@, NonTerminal::ExpresionNot, TokenClass::Numero) == Some(73usize)
        &&& spec_buscar_entrada(self.table@, NonTerminal::ExpresionNot, TokenClass::Cadena) == Some(73usize)
        &&& spec_buscar_entrada(self.table@, NonTerminal::ExpresionNot, TokenClass::Identificador) == Some(73usize)
        &&& spec_buscar_entrada(self.table@, NonTerminal::ExpresionNot, TokenClass::ParenIzq) == Some(73usize)
        &&& spec_buscar_entrada(self.table@, NonTerminal::ExpresionPrimaria, TokenClass::Numero) == Some(74usize)
        &&& spec_buscar_entrada(self.table@, NonTerminal::ExpresionPrimaria, TokenClass::Cadena) == Some(75usize)
        &&& spec_buscar_entrada(self.table@, NonTerminal::ExpresionPrimaria, TokenClass::Identificador) == Some(76usize)
        &&& spec_buscar_entrada(self.table@, NonTerminal::ExpresionPrimaria, TokenClass::ParenIzq) == Some(77usize)
        &&& spec_buscar_entrada(self.table@, NonTerminal::Accesos, TokenClass::Punto) == Some(78usize)
        &&& spec_buscar_entrada(self.table@, NonTerminal::Accesos, TokenClass::CorcheteIzq) == Some(79usize)
        &&& spec_buscar_entrada(self.table@, NonTerminal::Accesos, TokenClass::Igual) == Some(80usize)
        &&& spec_buscar_entrada(self.table@, NonTerminal::Accesos, TokenClass::Diferente) == Some(80usize)
        &&& spec_buscar_entrada(self.table@, NonTerminal::Accesos, TokenClass::Menor) == Some(80usize)
        &&& spec_buscar_entrada(self.table@, NonTerminal::Accesos, TokenClass::Mayor) == Some(80usize)
        &&& spec_buscar_entrada(self.table@, NonTerminal::Accesos, TokenClass::MenorIgual) == Some(80usize)
        &&& spec_buscar_entrada(self.table@, NonTerminal::Accesos, TokenClass::MayorIgual) == Some(80usize)
        &&& spec_buscar_entrada(self.table@, NonTerminal::Accesos, TokenClass::And) == Some(80usize)
        &&& spec_buscar_entrada(self.table@, NonTerminal::Accesos, TokenClass::Or) == Some(80usize)
        &&& spec_buscar_entrada(self.table@, NonTerminal::Accesos, TokenClass::ParenDer) == Some(80usize)
        &&& spec_buscar_entrada(self.table@, NonTerminal::Accesos, TokenClass::Coma) == Some(80usize)
        &&& spec_buscar_entrada(self.table@, NonTerminal::Accesos, TokenClass::CorcheteDer) == Some(80usize)
        &&& spec_buscar_entrada(self.table@, NonTerminal::Accesos, TokenClass::PuntoYComa) == Some(80usize)
        &&& spec_buscar_entrada(self.table@, NonTerminal::Accesos, TokenClass::Inicio) == Some(80usize)
        &&& spec_buscar_entrada(self.table@, NonTerminal::AccesoCampo, TokenClass::Punto) == Some(81usize)
        &&& spec_buscar_entrada(self.table@, NonTerminal::AccesoArreglo, TokenClass::CorcheteIzq) == Some(82usize)
        &&& spec_buscar_entrada(self.table@, NonTerminal::AccesoArreglo, TokenClass::Igual) == Some(83usize)
        &&& spec_buscar_entrada(self.table@, NonTerminal::AccesoArreglo, TokenClass::Diferente) == Some(83usize)
        &&& spec_buscar_entrada(self.table@, NonTerminal::AccesoArreglo, TokenClass::Menor) == Some(83usize)
        &&& spec_buscar_entrada(self.table@, NonTerminal::AccesoArreglo, TokenClass::Mayor) == Some(83usize)
        &&& spec_buscar_entrada(self.table@, NonTerminal::AccesoArreglo, TokenClass::MenorIgual) == Some(83usize)
        &&& spec_buscar_entrada(self.table@, NonTerminal::AccesoArreglo, TokenClass::MayorIgual) == Some(83usize)
        &&& spec_buscar_entrada(self.table@, NonTerminal::AccesoArreglo, TokenClass::And) == Some(83usize)
        &&& spec_buscar_entrada(self.table@, NonTerminal::AccesoArreglo, TokenClass::Or) == Some(83usize)
        &&& spec_buscar_entrada(self.table@, NonTerminal::AccesoArreglo, TokenClass::ParenDer) == Some(83usize)
        &&& spec_buscar_entrada(self.table@, NonTerminal::AccesoArreglo, TokenClass::Coma) == Some(83usize)
        &&& spec_buscar_entrada(self.table@, NonTerminal::AccesoArreglo, TokenClass::CorcheteDer) == Some(83usize)
        &&& spec_buscar_entrada(self.table@, NonTerminal::AccesoArreglo, TokenClass::PuntoYComa) == Some(83usize)
        &&& spec_buscar_entrada(self.table@, NonTerminal::AccesoArreglo, TokenClass::Inicio) == Some(83usize)
    }

    /// Fills the table: a production is stored at (A, t) when t begins an
    /// expansion of A, or when A can vanish and t can follow it. Afterwards
    /// the table holds exactly the entries of `tabla_correcta`.
    #[verifier::rlimit(100)]
    #[verifier::spinoff_prover]
    /// One stretch of the table construction; the pairs it writes answer
    /// their productions and every other pair answers as before.
    #[verifier::rlimit(100)]
    #[verifier::spinoff_prover]
    fn tabla_parte1(&mut self)
        requires
            old(self).wf(),
            old(self).productions@.len() == 84,
        ensures
            final(self).wf(),
            final(self).productions == old(self).productions,
            final(self).table@.len() >= old(self).table@.len(),
            final(self).table@.len() >= 1,
            spec_buscar_entrada(final(self).table@, NonTerminal::Programa, TokenClass::Programa) == Some(0usize),
            spec_buscar_entrada(final(self).table@, NonTerminal::Definiciones, TokenClass::Define) == Some(1usize),
            spec_buscar_entrada(final(self).table@, NonTerminal::Definiciones, TokenClass::Modulo) == Some(2usize),
            spec_buscar_entrada(final(self).table@, NonTerminal::Definiciones, TokenClass::Inicio) == Some(2usize),
            spec_buscar_entrada(final(self).table@, NonTerminal::DefMaquinas, TokenClass::Define) == Some(3usize),
            spec_buscar_entrada(final(self).table@, NonTerminal::DefMaquinas, TokenClass::Modulo) == Some(4usize),
            spec_buscar_entrada(final(self).table@, NonTerminal::DefMaquinas, TokenClass::Inicio) == Some(4usize),
            spec_buscar_entrada(final(self).table@, NonTerminal::DefConcentradores, TokenClass::Define) == Some(5usize),
            spec_buscar_entrada(final(self).table@, NonTerminal::DefConcentradores, TokenClass::Modulo) == Some(6usize),
            spec_buscar_entrada(final(self).table@, NonTerminal::DefConcentradores, TokenClass::Inicio) == Some(6usize),
            spec_buscar_entrada(final(self).table@, NonTerminal::DefCoaxiales, TokenClass::Define) == Some(7usize),
            spec_buscar_entrada(final(self).table@, NonTerminal::DefCoaxiales, TokenClass::Modulo) == Some(8usize),
            spec_buscar_entrada(final(self).table@, NonTerminal::DefCoaxiales, TokenClass::Inicio) == Some(8usize),
            spec_buscar_entrada(final(self).table@, NonTerminal::TipoCoaxial, TokenClass::Coaxial) == Some(9usize),
            spec_buscar_entrada(final(self).table@, NonTerminal::TipoCoaxial, TokenClass::Segmento) == Some(10usize),
            spec_buscar_entrada(final(self).table@, NonTerminal::ListaMaquinas, TokenClass::Identificador) == Some(11usize),
            spec_buscar_entrada(final(self).table@, NonTerminal::ListaMaquinasPrime, TokenClass::Coma) == Some(12usize),
            spec_buscar_entrada(final(self).table@, NonTerminal::ListaMaquinasPrime, TokenClass::PuntoYComa) == Some(13usize),
            spec_buscar_entrada(final(self).table@, NonTerminal::ListaConcentradores, TokenClass::Identificador) == Some(14usize),
            spec_buscar_entrada(final(self).table@, NonTerminal::ListaConcentradoresPrime, TokenClass::Coma) == Some(15usize),
            spec_buscar_entrada(final(self).table@, NonTerminal::ListaConcentradoresPrime, TokenClass::PuntoYComa) == Some(16usize),
            spec_buscar_entrada(final(self).table@, NonTerminal::DeclConcentrador, TokenClass::Identificador) == Some(17usize),
            spec_buscar_entrada(final(self).table@, NonTerminal::OpcionCoaxial, TokenClass::Punto) == Some(18usize),
            spec_buscar_entrada(final(self).table@, NonTerminal::OpcionCoaxial, TokenClass::Coma) == Some(19usize),
            spec_buscar_entrada(final(self).table@, NonTerminal::OpcionCoaxial, TokenClass::PuntoYComa) == Some(19usize),
            spec_buscar_entrada(final(self).table@, NonTerminal::ListaCoaxiales, TokenClass::Identificador) == Some(20usize),
            spec_buscar_entrada(final(self).table@, NonTerminal::ListaCoaxialesPrime, TokenClass::Coma) == Some(21usize),
            spec_buscar_entrada(final(self).table@, NonTerminal::ListaCoaxialesPrime, TokenClass::PuntoYComa) == Some(22usize),
            spec_buscar_entrada(final(self).table@, NonTerminal::DeclCoaxial, TokenClass::Identificador) == Some(23usize),
            spec_buscar_entrada(final(self).table@, NonTerminal::Modulos, TokenClass::Modulo) == Some(24usize),
            spec_buscar_entrada(final(self).table@, NonTerminal::Modulos, TokenClass::Inicio) == Some(25usize),
            spec_buscar_entrada(final(self).table@, NonTerminal::Modulo, TokenClass::Modulo) == Some(26usize),
            spec_buscar_entrada(final(self).table@, NonTerminal::BloqueInicio, TokenClass::Inicio) == Some(27usize),
            spec_buscar_entrada(final(self).table@, NonTerminal::Sentencias, TokenClass::Coloca) == Some(28usize),
            spec_buscar_entrada(final(self).table@, NonTerminal::Sentencias, TokenClass::ColocaCoaxial) == Some(28usize),
            forall|nt2: NonTerminal, tc2: TokenClass|
                !((nt2 == NonTerminal::Programa && tc2 == TokenClass::Programa) || (nt2 == NonTerminal::Definiciones && tc2 == TokenClass::Define) || (nt2 == NonTerminal::Definiciones && tc2 == TokenClass::Modulo) || (nt2 == NonTerminal::Definiciones && tc2 == TokenClass::Inicio) || (nt2 == NonTerminal::DefMaquinas && tc2 == TokenClass::Define) || (nt2 == NonTerminal::DefMaquinas && tc2 == TokenClass::Modulo) || (nt2 == NonTerminal::DefMaquinas && tc2 == TokenClass::Inicio) || (nt2 == NonTerminal::DefConcentradores && tc2 == TokenClass::Define) || (nt2 == NonTerminal::DefConcentradores && tc2 == TokenClass::Modulo) || (nt2 == NonTerminal::DefConcentradores && tc2 == TokenClass::Inicio) || (nt2 == NonTerminal::DefCoaxiales && tc2 == TokenClass::Define) || (nt2 == NonTerminal::DefCoaxiales && tc2 == TokenClass::Modulo) || (nt2 == NonTerminal::DefCoaxiales && tc2 == TokenClass::Inicio) || (nt2 == NonTerminal::TipoCoaxial && tc2 == TokenClass::Coaxial) || (nt2 == NonTerminal::TipoCoaxial && tc2 == TokenClass::Segmento) || (nt2 == NonTerminal::ListaMaquinas && tc2 == TokenClass::Identificador) || (nt2 == NonTerminal::ListaMaquinasPrime && tc2 == TokenClass::Coma) || (nt2 == NonTerminal::ListaMaquinasPrime && tc2 == TokenClass::PuntoYComa) || (nt2 == NonTerminal::ListaConcentradores && tc2 == TokenClass::Identificador) || (nt2 == NonTerminal::ListaConcentradoresPrime && tc2 == TokenClass::Coma) || (nt2 == NonTerminal::ListaConcentradoresPrime && tc2 == TokenClass::PuntoYComa) || (nt2 == NonTerminal::DeclConcentrador && tc2 == TokenClass::Identificador) || (nt2 == NonTerminal::OpcionCoaxial && tc2 == TokenClass::Punto) || (nt2 == NonTerminal::OpcionCoaxial && tc2 == TokenClass::Coma) || (nt2 == NonTerminal::OpcionCoaxial && tc2 == TokenClass::PuntoYComa) || (nt2 == NonTerminal::ListaCoaxiales && tc2 == TokenClass::Identificador) || (nt2 == NonTerminal::ListaCoaxialesPrime && tc2 == TokenClass::Coma) || (nt2 == NonTerminal::ListaCoaxialesPrime && tc2 == TokenClass::PuntoYComa) || (nt2 == NonTerminal::DeclCoaxial && tc2 == TokenClass::Identificador) || (nt2 == NonTerminal::Modulos && tc2 == TokenClass::Modulo) || (nt2 == NonTerminal::Modulos && tc2 == TokenClass::Inicio) || (nt2 == NonTerminal::Modulo && tc2 == TokenClass::Modulo) || (nt2 == NonTerminal::BloqueInicio && tc2 == TokenClass::Inicio) || (nt2 == NonTerminal::Sentencias && tc2 == TokenClass::Coloca) || (nt2 == NonTerminal::Sentencias && tc2 == TokenClass::ColocaCoaxial)) ==> #[trigger] spec_buscar_entrada(final(self).table@, nt2,
                tc2) == spec_buscar_entrada(old(self).table@, nt2, tc2),
    {
        self.add_entry(NonTerminal::Programa, TokenClass::Programa, 1);
        self.add_entry(NonTerminal::Definiciones, TokenClass::Define, 2);
        self.add_entry(NonTerminal::Definiciones, TokenClass::Modulo, 3);
        self.add_entry(NonTerminal::Definiciones, TokenClass::Inicio, 3);
        self.add_entry(NonTerminal::DefMaquinas, TokenClass::Define, 4);
        self.add_entry(NonTerminal::DefMaquinas, TokenClass::Modulo, 5);
        self.add_entry(NonTerminal::DefMaquinas, TokenClass::Inicio, 5);
        self.add_entry(NonTerminal::DefConcentradores, TokenClass::Define, 6);
        self.add_entry(NonTerminal::DefConcentradores, TokenClass::Modulo, 7);
        self.add_entry(NonTerminal::DefConcentradores, TokenClass::Inicio, 7);
        self.add_entry(NonTerminal::DefCoaxiales, TokenClass::Define, 8);
        self.add_entry(NonTerminal::DefCoaxiales, TokenClass::Modulo, 9);
        self.add_entry(NonTerminal::DefCoaxiales, TokenClass::Inicio, 9);
        self.add_entry(NonTerminal::TipoCoaxial, TokenClass::Coaxial, 10);
        self.add_entry(NonTerminal::TipoCoaxial, TokenClass::Segmento, 11);
        self.add_entry(NonTerminal::ListaMaquinas, TokenClass::Identificador, 12);
        self.add_entry(NonTerminal::ListaMaquinasPrime, TokenClass::Coma, 13);
        self.add_entry(NonTerminal::ListaMaquinasPrime, TokenClass::PuntoYComa, 14);
        self.add_entry(NonTerminal::ListaConcentradores, TokenClass::Identificador, 15);
        self.add_entry(NonTerminal::ListaConcentradoresPrime, TokenClass::Coma, 16);
        self.add_entry(NonTerminal::ListaConcentradoresPrime, TokenClass::PuntoYComa, 17);
        self.add_entry(NonTerminal::DeclConcentrador, TokenClass::Identificador, 18);
        self.add_entry(NonTerminal::OpcionCoaxial, TokenClass::Punto, 19);
        self.add_entry(NonTerminal::OpcionCoaxial, TokenClass::Coma, 20);
        self.add_entry(NonTerminal::OpcionCoaxial, TokenClass::PuntoYComa, 20);
        self.add_entry(NonTerminal::ListaCoaxiales, TokenClass::Identificador, 21);
        self.add_entry(NonTerminal::ListaCoaxialesPrime, TokenClass::Coma, 22);
        self.add_entry(NonTerminal::ListaCoaxialesPrime, TokenClass::PuntoYComa, 23);
        self.add_entry(NonTerminal::DeclCoaxial, TokenClass::Identificador, 24);
        self.add_entry(NonTerminal::Modulos, TokenClass::Modulo, 25);
        self.add_entry(NonTerminal::Modulos, TokenClass::Inicio, 26);
        self.add_entry(NonTerminal::Modulo, TokenClass::Modulo, 27);
        self.add_entry(NonTerminal::BloqueInicio, TokenClass::Inicio, 28);
        self.add_entry(NonTerminal::Sentencias, TokenClass::Coloca, 29);
        self.add_entry(NonTerminal::Sentencias, TokenClass::ColocaCoaxial, 29);
    }

    /// One stretch of the table construction; the pairs it writes answer
    /// their productions and every other pair answers as before.
    #[verifier::rlimit(100)]
    #[verifier::spinoff_prover]
    fn tabla_parte2(&mut self)
        requires
            old(self).wf(),
            old(self).productions@.len() == 84,
        ensures
            final(self).wf(),
            final(self).productions == old(self).productions,
            final(self).table@.len() >= old(self).table@.len(),
            final(self).table@.len() >= 1,
            spec_buscar_entrada(final(self).table@, NonTerminal::Sentencias, TokenClass::ColocaCoaxialConcentrador) == Some(28usize),
            spec_buscar_entrada(final(self).table@, NonTerminal::Sentencias, TokenClass::UneMaquinaPuerto) == Some(28usize),
            spec_buscar_entrada(final(self).table@, NonTerminal::Sentencias, TokenClass::AsignaPuerto) == Some(28usize),
            spec_buscar_entrada(final(self).table@, NonTerminal::Sentencias, TokenClass::MaquinaCoaxial) == Some(28usize),
            spec_buscar_entrada(final(self).table@, NonTerminal::Sentencias, TokenClass::AsignaMaquinaCoaxial) == Some(28usize),
            spec_buscar_entrada(final(self).table@, NonTerminal::Sentencias, TokenClass::Escribe) == Some(28usize),
            spec_buscar_entrada(final(self).table@, NonTerminal::Sentencias, TokenClass::Si) == Some(28usize),
            spec_buscar_entrada(final(self).table@, NonTerminal::Sentencias, TokenClass::Identificador) == Some(28usize),
            spec_buscar_entrada(final(self).table@, NonTerminal::Sentencias, TokenClass::Fin) == Some(29usize),
            spec_buscar_entrada(final(self).table@, NonTerminal::Sentencia, TokenClass::Coloca) == Some(30usize),
            spec_buscar_entrada(final(self).table@, NonTerminal::Sentencia, TokenClass::ColocaCoaxial) == Some(31usize),
            spec_buscar_entrada(final(self).table@, NonTerminal::Sentencia, TokenClass::ColocaCoaxialConcentrador) == Some(32usize),
            spec_buscar_entrada(final(self).table@, NonTerminal::Sentencia, TokenClass::UneMaquinaPuerto) == Some(33usize),
            spec_buscar_entrada(final(self).table@, NonTerminal::Sentencia, TokenClass::AsignaPuerto) == Some(34usize),
            spec_buscar_entrada(final(self).table@, NonTerminal::Sentencia, TokenClass::MaquinaCoaxial) == Some(35usize),
            spec_buscar_entrada(final(self).table@, NonTerminal::Sentencia, TokenClass::AsignaMaquinaCoaxial) == Some(36usize),
            spec_buscar_entrada(final(self).table@, NonTerminal::Sentencia, TokenClass::Escribe) == Some(37usize),
            spec_buscar_entrada(final(self).table@, NonTerminal::Sentencia, TokenClass::Si) == Some(38usize),
            spec_buscar_entrada(final(self).table@, NonTerminal::Sentencia, TokenClass::Identificador) == Some(39usize),
            spec_buscar_entrada(final(self).table@, NonTerminal::SentenciaColoca, TokenClass::Coloca) == Some(40usize),
            spec_buscar_entrada(final(self).table@, NonTerminal::SentenciaColocaCoaxial, TokenClass::ColocaCoaxial) == Some(41usize),
            spec_buscar_entrada(final(self).table@, NonTerminal::SentenciaColocaCoaxialConcentrador, TokenClass::ColocaCoaxialConcentrador) == Some(42usize),
            spec_buscar_entrada(final(self).table@, NonTerminal::SentenciaUneMaquinaPuerto, TokenClass::UneMaquinaPuerto) == Some(43usize),
            spec_buscar_entrada(final(self).table@, NonTerminal::SentenciaAsignaPuerto, TokenClass::AsignaPuerto) == Some(44usize),
            spec_buscar_entrada(final(self).table@, NonTerminal::SentenciaMaquinaCoaxial, TokenClass::MaquinaCoaxial) == Some(45usize),
            spec_buscar_entrada(final(self).table@, NonTerminal::SentenciaAsignaMaquinaCoaxial, TokenClass::AsignaMaquinaCoaxial) == Some(46usize),
            spec_buscar_entrada(final(self).table@, NonTerminal::SentenciaEscribe, TokenClass::Escribe) == Some(47usize),
            spec_buscar_entrada(final(self).table@, NonTerminal::SentenciaSi, TokenClass::Si) == Some(48usize),
            spec_buscar_entrada(final(self).table@, NonTerminal::OpcionSino, TokenClass::Sino) == Some(49usize),
            spec_buscar_entrada(final(self).table@, NonTerminal::OpcionSino, TokenClass::Coloca) == Some(50usize),
            spec_buscar_entrada(final(self).table@, NonTerminal::OpcionSino, TokenClass::ColocaCoaxial) == Some(50usize),
            spec_buscar_entrada(final(self).table@, NonTerminal::OpcionSino, TokenClass::ColocaCoaxialConcentrador) == Some(50usize),
            spec_buscar_entrada(final(self).table@, NonTerminal::OpcionSino, TokenClass::UneMaquinaPuerto) == Some(50usize),
            spec_buscar_entrada(final(self).table@, NonTerminal::OpcionSino, TokenClass::AsignaPuerto) == Some(50usize),
            spec_buscar_entrada(final(self).table@, NonTerminal::OpcionSino, TokenClass::MaquinaCoaxial) == Some(50usize),
            forall|nt2: NonTerminal, tc2: TokenClass|
                !((nt2 == NonTerminal::Sentencias && tc2 == TokenClass::ColocaCoaxialConcentrador) || (nt2 == NonTerminal::Sentencias && tc2 == TokenClass::UneMaquinaPuerto) || (nt2 == NonTerminal::Sentencias && tc2 == TokenClass::AsignaPuerto) || (nt2 == NonTerminal::Sentencias && tc2 == TokenClass::MaquinaCoaxial) || (nt2 == NonTerminal::Sentencias && tc2 == TokenClass::AsignaMaquinaCoaxial) || (nt2 == NonTerminal::Sentencias && tc2 == TokenClass::Escribe) || (nt2 == NonTerminal::Sentencias && tc2 == TokenClass::Si) || (nt2 == NonTerminal::Sentencias && tc2 == TokenClass::Identificador) || (nt2 == NonTerminal::Sentencias && tc2 == TokenClass::Fin) || (nt2 == NonTerminal::Sentencia && tc2 == TokenClass::Coloca) || (nt2 == NonTerminal::Sentencia && tc2 == TokenClass::ColocaCoaxial) || (nt2 == NonTerminal::Sentencia && tc2 == TokenClass::ColocaCoaxialConcentrador) || (nt2 == NonTerminal::Sentencia && tc2 == TokenClass::UneMaquinaPuerto) || (nt2 == NonTerminal::Sentencia && tc2 == TokenClass::AsignaPuerto) || (nt2 == NonTerminal::Sentencia && tc2 == TokenClass::MaquinaCoaxial) || (nt2 == NonTerminal::Sentencia && tc2 == TokenClass::AsignaMaquinaCoaxial) || (nt2 == NonTerminal::Sentencia && tc2 == TokenClass::Escribe) || (nt2 == NonTerminal::Sentencia && tc2 == TokenClass::Si) || (nt2 == NonTerminal::Sentencia && tc2 == TokenClass::Identificador) || (nt2 == NonTerminal::SentenciaColoca && tc2 == TokenClass::Coloca) || (nt2 == NonTerminal::SentenciaColocaCoaxial && tc2 == TokenClass::ColocaCoaxial) || (nt2 == NonTerminal::SentenciaColocaCoaxialConcentrador && tc2 == TokenClass::ColocaCoaxialConcentrador) || (nt2 == NonTerminal::SentenciaUneMaquinaPuerto && tc2 == TokenClass::UneMaquinaPuerto) || (nt2 == NonTerminal::SentenciaAsignaPuerto && tc2 == TokenClass::AsignaPuerto) || (nt2 == NonTerminal::SentenciaMaquinaCoaxial && tc2 == TokenClass::MaquinaCoaxial) || (nt2 == NonTerminal::SentenciaAsignaMaquinaCoaxial && tc2 == TokenClass::AsignaMaquinaCoaxial) || (nt2 == NonTerminal::SentenciaEscribe && tc2 == TokenClass::Escribe) || (nt2 == NonTerminal::SentenciaSi && tc2 == TokenClass::Si) || (nt2 == NonTerminal::OpcionSino && tc2 == TokenClass::Sino) || (nt2 == NonTerminal::OpcionSino && tc2 == TokenClass::Coloca) || (nt2 == NonTerminal::OpcionSino && tc2 == TokenClass::ColocaCoaxial) || (nt2 == NonTerminal::OpcionSino && tc2 == TokenClass::ColocaCoaxialConcentrador) || (nt2 == NonTerminal::OpcionSino && tc2 == TokenClass::UneMaquinaPuerto) || (nt2 == NonTerminal::OpcionSino && tc2 == TokenClass::AsignaPuerto) || (nt2 == NonTerminal::OpcionSino && tc2 == TokenClass::MaquinaCoaxial)) ==> #[trigger] spec_buscar_entrada(final(self).table@, nt2,
                tc2) == spec_buscar_entrada(old(self).table@, nt2, tc2),
    {
        self.add_entry(NonTerminal::Sentencias, TokenClass::ColocaCoaxialConcentrador, 29);
        self.add_entry(NonTerminal::Sentencias, TokenClass::UneMaquinaPuerto, 29);
        self.add_entry(NonTerminal::Sentencias, TokenClass::AsignaPuerto, 29);
        self.add_entry(NonTerminal::Sentencias, TokenClass::MaquinaCoaxial, 29);
        self.add_entry(NonTerminal::Sentencias, TokenClass::AsignaMaquinaCoaxial, 29);
        self.add_entry(NonTerminal::Sentencias, TokenClass::Escribe, 29);
        self.add_entry(NonTerminal::Sentencias, TokenClass::Si, 29);
        self.add_entry(NonTerminal::Sentencias, TokenClass::Identificador, 29);
        self.add_entry(NonTerminal::Sentencias, TokenClass::Fin, 30);
        self.add_entry(NonTerminal::Sentencia, TokenClass::Coloca, 31);
        self.add_entry(NonTerminal::Sentencia, TokenClass::ColocaCoaxial, 32);
        self.add_entry(NonTerminal::Sentencia, TokenClass::ColocaCoaxialConcentrador, 33);
        self.add_entry(NonTerminal::Sentencia, TokenClass::UneMaquinaPuerto, 34);
        self.add_entry(NonTerminal::Sentencia, TokenClass::AsignaPuerto, 35);
        self.add_entry(NonTerminal::Sentencia, TokenClass::MaquinaCoaxial, 36);
        self.add_entry(NonTerminal::Sentencia, TokenClass::AsignaMaquinaCoaxial, 37);
        self.add_entry(NonTerminal::Sentencia, TokenClass::Escribe, 38);
        self.add_entry(NonTerminal::Sentencia, TokenClass::Si, 39);
        self.add_entry(NonTerminal::Sentencia, TokenClass::Identificador, 40);
        self.add_entry(NonTerminal::SentenciaColoca, TokenClass::Coloca, 41);
        self.add_entry(NonTerminal::SentenciaColocaCoaxial, TokenClass::ColocaCoaxial, 42);
        self.add_entry(NonTerminal::SentenciaColocaCoaxialConcentrador, TokenClass::ColocaCoaxialConcentrador, 43);
        self.add_entry(NonTerminal::SentenciaUneMaquinaPuerto, TokenClass::UneMaquinaPuerto, 44);
        self.add_entry(NonTerminal::SentenciaAsignaPuerto, TokenClass::AsignaPuerto, 45);
        self.add_entry(NonTerminal::SentenciaMaquinaCoaxial, TokenClass::MaquinaCoaxial, 46);
        self.add_entry(NonTerminal::SentenciaAsignaMaquinaCoaxial, TokenClass::AsignaMaquinaCoaxial, 47);
        self.add_entry(NonTerminal::SentenciaEscribe, TokenClass::Escribe, 48);
        self.add_entry(NonTerminal::SentenciaSi, TokenClass::Si, 49);
        self.add_entry(NonTerminal::OpcionSino, TokenClass::Sino, 50);
        self.add_entry(NonTerminal::OpcionSino, TokenClass::Coloca, 51);
        self.add_entry(NonTerminal::OpcionSino, TokenClass::ColocaCoaxial, 51);
        self.add_entry(NonTerminal::OpcionSino, TokenClass::ColocaCoaxialConcentrador, 51);
        self.add_entry(NonTerminal::OpcionSino, TokenClass::UneMaquinaPuerto, 51);
        self.add_entry(NonTerminal::OpcionSino, TokenClass::AsignaPuerto, 51);
        self.add_entry(NonTerminal::OpcionSino, TokenClass::MaquinaCoaxial, 51);
    }

    /// One stretch of the table construction; the pairs it writes answer
    /// their productions and every other pair answers as before.
    #[verifier::rlimit(100)]
    #[verifier::spinoff_prover]
    fn tabla_parte3(&mut self)
        requires
            old(self).wf(),
            old(self).productions@.len() == 84,
        ensures
            final(self).wf(),
            final(self).productions == old(self).productions,
            final(self).table@.len() >= old(self).table@.len(),
            final(self).table@.len() >= 1,
            spec_buscar_entrada(final(self).table@, NonTerminal::OpcionSino, TokenClass::AsignaMaquinaCoaxial) == Some(50usize),
            spec_buscar_entrada(final(self).table@, NonTerminal::OpcionSino, TokenClass::Escribe) == Some(50usize),
            spec_buscar_entrada(final(self).table@, NonTerminal::OpcionSino, TokenClass::Si) == Some(50usize),
            spec_buscar_entrada(final(self).table@, NonTerminal::OpcionSino, TokenClass::Identificador) == Some(50usize),
            spec_buscar_entrada(final(self).table@, NonTerminal::OpcionSino, TokenClass::Fin) == Some(50usize),
            spec_buscar_entrada(final(self).table@, NonTerminal::LlamadaModulo, TokenClass::Identificador) == Some(51usize),
            spec_buscar_entrada(final(self).table@, NonTerminal::Direccion, TokenClass::Arriba) == Some(52usize),
            spec_buscar_entrada(final(self).table@, NonTerminal::Direccion, TokenClass::Abajo) == Some(53usize),
            spec_buscar_entrada(final(self).table@, NonTerminal::Direccion, TokenClass::Izquierda) == Some(54usize),
            spec_buscar_entrada(final(self).table@, NonTerminal::Direccion, TokenClass::Derecha) == Some(55usize),
            spec_buscar_entrada(final(self).table@, NonTerminal::Expresion, TokenClass::Not) == Some(56usize),
            spec_buscar_entrada(final(self).table@, NonTerminal::Expresion, TokenClass::Numero) == Some(56usize),
            spec_buscar_entrada(final(self).table@, NonTerminal::Expresion, TokenClass::Cadena) == Some(56usize),
            spec_buscar_entrada(final(self).table@, NonTerminal::Expresion, TokenClass::Identificador) == Some(56usize),
            spec_buscar_entrada(final(self).table@, NonTerminal::Expresion, TokenClass::ParenIzq) == Some(56usize),
            spec_buscar_entrada(final(self).table@, NonTerminal::ExpresionOr, TokenClass::Not) == Some(57usize),
            spec_buscar_entrada(final(self).table@, NonTerminal::ExpresionOr, TokenClass::Numero) == Some(57usize),
            spec_buscar_entrada(final(self).table@, NonTerminal::ExpresionOr, TokenClass::Cadena) == Some(57usize),
            spec_buscar_entrada(final(self).table@, NonTerminal::ExpresionOr, TokenClass::Identificador) == Some(57usize),
            spec_buscar_entrada(final(self).table@, NonTerminal::ExpresionOr, TokenClass::ParenIzq) == Some(57usize),
            spec_buscar_entrada(final(self).table@, NonTerminal::ExpresionOrPrime, TokenClass::Or) == Some(58usize),
            spec_buscar_entrada(final(self).table@, NonTerminal::ExpresionOrPrime, TokenClass::ParenDer) == Some(59usize),
            spec_buscar_entrada(final(self).table@, NonTerminal::ExpresionOrPrime, TokenClass::Coma) == Some(59usize),
            spec_buscar_entrada(final(self).table@, NonTerminal::ExpresionOrPrime, TokenClass::CorcheteDer) == Some(59usize),
            spec_buscar_entrada(final(self).table@, NonTerminal::ExpresionOrPrime, TokenClass::PuntoYComa) == Some(59usize),
            spec_buscar_entrada(final(self).table@, NonTerminal::ExpresionOrPrime, TokenClass::Inicio) == Some(59usize),
            spec_buscar_entrada(final(self).table@, NonTerminal::ExpresionAnd, TokenClass::Not) == Some(60usize),
            spec_buscar_entrada(final(self).table@, NonTerminal::ExpresionAnd, TokenClass::Numero) == Some(60usize),
            spec_buscar_entrada(final(self).table@, NonTerminal::ExpresionAnd, TokenClass::Cadena) == Some(60usize),
            spec_buscar_entrada(final(self).table@, NonTerminal::ExpresionAnd, TokenClass::Identificador) == Some(60usize),
            spec_buscar_entrada(final(self).table@, NonTerminal::ExpresionAnd, TokenClass::ParenIzq) == Some(60usize),
            spec_buscar_entrada(final(self).table@, NonTerminal::ExpresionAndPrime, TokenClass::And) == Some(61usize),
            spec_buscar_entrada(final(self).table@, NonTerminal::ExpresionAndPrime, TokenClass::Or) == Some(62usize),
            spec_buscar_entrada(final(self).table@, NonTerminal::ExpresionAndPrime, TokenClass::ParenDer) == Some(62usize),
            spec_buscar_entrada(final(self).table@, NonTerminal::ExpresionAndPrime, TokenClass::Coma) == Some(62usize),
            forall|nt2: NonTerminal, tc2: TokenClass|
                !((nt2 == NonTerminal::OpcionSino && tc2 == TokenClass::AsignaMaquinaCoaxial) || (nt2 == NonTerminal::OpcionSino && tc2 == TokenClass::Escribe) || (nt2 == NonTerminal::OpcionSino && tc2 == TokenClass::Si) || (nt2 == NonTerminal::OpcionSino && tc2 == TokenClass::Identificador) || (nt2 == NonTerminal::OpcionSino && tc2 == TokenClass::Fin) || (nt2 == NonTerminal::LlamadaModulo && tc2 == TokenClass::Identificador) || (nt2 == NonTerminal::Direccion && tc2 == TokenClass::Arriba) || (nt2 == NonTerminal::Direccion && tc2 == TokenClass::Abajo) || (nt2 == NonTerminal::Direccion && tc2 == TokenClass::Izquierda) || (nt2 == NonTerminal::Direccion && tc2 == TokenClass::Derecha) || (nt2 == NonTerminal::Expresion && tc2 == TokenClass::Not) || (nt2 == NonTerminal::Expresion && tc2 == TokenClass::Numero) || (nt2 == NonTerminal::Expresion && tc2 == TokenClass::Cadena) || (nt2 == NonTerminal::Expresion && tc2 == TokenClass::Identificador) || (nt2 == NonTerminal::Expresion && tc2 == TokenClass::ParenIzq) || (nt2 == NonTerminal::ExpresionOr && tc2 == TokenClass::Not) || (nt2 == NonTerminal::ExpresionOr && tc2 == TokenClass::Numero) || (nt2 == NonTerminal::ExpresionOr && tc2 == TokenClass::Cadena) || (nt2 == NonTerminal::ExpresionOr && tc2 == TokenClass::Identificador) || (nt2 == NonTerminal::ExpresionOr && tc2 == TokenClass::ParenIzq) || (nt2 == NonTerminal::ExpresionOrPrime && tc2 == TokenClass::Or) || (nt2 == NonTerminal::ExpresionOrPrime && tc2 == TokenClass::ParenDer) || (nt2 == NonTerminal::ExpresionOrPrime && tc2 == TokenClass::Coma) || (nt2 == NonTerminal::ExpresionOrPrime && tc2 == TokenClass::CorcheteDer) || (nt2 == NonTerminal::ExpresionOrPrime && tc2 == TokenClass::PuntoYComa) || (nt2 == NonTerminal::ExpresionOrPrime && tc2 == TokenClass::Inicio) || (nt2 == NonTerminal::ExpresionAnd && tc2 == TokenClass::Not) || (nt2 == NonTerminal::ExpresionAnd && tc2 == TokenClass::Numero) || (nt2 == NonTerminal::ExpresionAnd && tc2 == TokenClass::Cadena) || (nt2 == NonTerminal::ExpresionAnd && tc2 == TokenClass::Identificador) || (nt2 == NonTerminal::ExpresionAnd && tc2 == TokenClass::ParenIzq) || (nt2 == NonTerminal::ExpresionAndPrime && tc2 == TokenClass::And) || (nt2 == NonTerminal::ExpresionAndPrime && tc2 == TokenClass::Or) || (nt2 == NonTerminal::ExpresionAndPrime && tc2 == TokenClass::ParenDer) || (nt2 == NonTerminal::ExpresionAndPrime && tc2 == TokenClass::Coma)) ==> #[trigger] spec_buscar_entrada(final(self).table@, nt2,
                tc2) == spec_buscar_entrada(old(self).table@, nt2, tc2),
    {
        self.add_entry(NonTerminal::OpcionSino, TokenClass::AsignaMaquinaCoaxial, 51);
        self.add_entry(NonTerminal::OpcionSino, TokenClass::Escribe, 51);
        self.add_entry(NonTerminal::OpcionSino, TokenClass::Si, 51);
        self.add_entry(NonTerminal::OpcionSino, TokenClass::Identificador, 51);
        self.add_entry(NonTerminal::OpcionSino, TokenClass::Fin, 51);
        self.add_entry(NonTerminal::LlamadaModulo, TokenClass::Identificador, 52);
        self.add_entry(NonTerminal::Direccion, TokenClass::Arriba, 53);
        self.add_entry(NonTerminal::Direccion, TokenClass::Abajo, 54);
        self.add_entry(NonTerminal::Direccion, TokenClass::Izquierda, 55);
        self.add_entry(NonTerminal::Direccion, TokenClass::Derecha, 56);
        self.add_entry(NonTerminal::Expresion, TokenClass::Not, 57);
        self.add_entry(NonTerminal::Expresion, TokenClass::Numero, 57);
        self.add_entry(NonTerminal::Expresion, TokenClass::Cadena, 57);
        self.add_entry(NonTerminal::Expresion, TokenClass::Identificador, 57);
        self.add_entry(NonTerminal::Expresion, TokenClass::ParenIzq, 57);
        self.add_entry(NonTerminal::ExpresionOr, TokenClass::Not, 58);
        self.add_entry(NonTerminal::ExpresionOr, TokenClass::Numero, 58);
        self.add_entry(NonTerminal::ExpresionOr, TokenClass::Cadena, 58);
        self.add_entry(NonTerminal::ExpresionOr, TokenClass::Identificador, 58);
        self.add_entry(NonTerminal::ExpresionOr, TokenClass::ParenIzq, 58);
        self.add_entry(NonTerminal::ExpresionOrPrime, TokenClass::Or, 59);
        self.add_entry(NonTerminal::ExpresionOrPrime, TokenClass::ParenDer, 60);
        self.add_entry(NonTerminal::ExpresionOrPrime, TokenClass::Coma, 60);
        self.add_entry(NonTerminal::ExpresionOrPrime, TokenClass::CorcheteDer, 60);
        self.add_entry(NonTerminal::ExpresionOrPrime, TokenClass::PuntoYComa, 60);
        self.add_entry(NonTerminal::ExpresionOrPrime, TokenClass::Inicio, 60);
        self.add_entry(NonTerminal::ExpresionAnd, TokenClass::Not, 61);
        self.add_entry(NonTerminal::ExpresionAnd, TokenClass::Numero, 61);
        self.add_entry(NonTerminal::ExpresionAnd, TokenClass::Cadena, 61);
        self.add_entry(NonTerminal::ExpresionAnd, TokenClass::Identificador, 61);
        self.add_entry(NonTerminal::ExpresionAnd, TokenClass::ParenIzq, 61);
        self.add_entry(NonTerminal::ExpresionAndPrime, TokenClass::And, 62);
        self.add_entry(NonTerminal::ExpresionAndPrime, TokenClass::Or, 63);
        self.add_entry(NonTerminal::ExpresionAndPrime, TokenClass::ParenDer, 63);
        self.add_entry(NonTerminal::ExpresionAndPrime, TokenClass::Coma, 63);
    }

    /// One stretch of the table construction; the pairs it writes answer
    /// their productions and every other pair answers as before.
    #[verifier::rlimit(100)]
    #[verifier::spinoff_prover]
    fn tabla_parte4(&mut self)
        requires
            old(self).wf(),
            old(self).productions@.len() == 84,
        ensures
            final(self).wf(),
            final(self).productions == old(self).productions,
            final(self).table@.len() >= old(self).table@.len(),
            final(self).table@.len() >= 1,
            spec_buscar_entrada(final(self).table@, NonTerminal::ExpresionAndPrime, TokenClass::CorcheteDer) == Some(62usize),
            spec_buscar_entrada(final(self).table@, NonTerminal::ExpresionAndPrime, TokenClass::PuntoYComa) == Some(62usize),
            spec_buscar_entrada(final(self).table@, NonTerminal::ExpresionAndPrime, TokenClass::Inicio) == Some(62usize),
            spec_buscar_entrada(final(self).table@, NonTerminal::ExpresionRelacional, TokenClass::Not) == Some(63usize),
            spec_buscar_entrada(final(self).table@, NonTerminal::ExpresionRelacional, TokenClass::Numero) == Some(63usize),
            spec_buscar_entrada(final(self).table@, NonTerminal::ExpresionRelacional, TokenClass::Cadena) == Some(63usize),
            spec_buscar_entrada(final(self).table@, NonTerminal::ExpresionRelacional, TokenClass::Identificador) == Some(63usize),
            spec_buscar_entrada(final(self).table@, NonTerminal::ExpresionRelacional, TokenClass::ParenIzq) == Some(63usize),
            spec_buscar_entrada(final(self).table@, NonTerminal::OpRelacional, TokenClass::Igual) == Some(64usize),
            spec_buscar_entrada(final(self).table@, NonTerminal::OpRelacional, TokenClass::Diferente) == Some(64usize),
            spec_buscar_entrada(final(self).table@, NonTerminal::OpRelacional, TokenClass::Menor) == Some(64usize),
            spec_buscar_entrada(final(self).table@, NonTerminal::OpRelacional, TokenClass::Mayor) == Some(64usize),
            spec_buscar_entrada(final(self).table@, NonTerminal::OpRelacional, TokenClass::MenorIgual) == Some(64usize),
            spec_buscar_entrada(final(self).table@, NonTerminal::OpRelacional, TokenClass::MayorIgual) == Some(64usize),
            spec_buscar_entrada(final(self).table@, NonTerminal::OpRelacional, TokenClass::And) == Some(65usize),
            spec_buscar_entrada(final(self).table@, NonTerminal::OpRelacional, TokenClass::Or) == Some(65usize),
            spec_buscar_entrada(final(self).table@, NonTerminal::OpRelacional, TokenClass::ParenDer) == Some(65usize),
            spec_buscar_entrada(final(self).table@, NonTerminal::OpRelacional, TokenClass::Coma) == Some(65usize),
            spec_buscar_entrada(final(self).table@, NonTerminal::OpRelacional, TokenClass::CorcheteDer) == Some(65usize),
            spec_buscar_entrada(final(self).table@, NonTerminal::OpRelacional, TokenClass::PuntoYComa) == Some(65usize),
            spec_buscar_entrada(final(self).table@, NonTerminal::OpRelacional, TokenClass::Inicio) == Some(65usize),
            spec_buscar_entrada(final(self).table@, NonTerminal::OperadorRelacional, TokenClass::Igual) == Some(66usize),
            spec_buscar_entrada(final(self).table@, NonTerminal::OperadorRelacional, TokenClass::Diferente) == Some(67usize),
            spec_buscar_entrada(final(self).table@, NonTerminal::OperadorRelacional, TokenClass::Menor) == Some(68usize),
            spec_buscar_entrada(final(self).table@, NonTerminal::OperadorRelacional, TokenClass::Mayor) == Some(69usize),
            spec_buscar_entrada(final(self).table@, NonTerminal::OperadorRelacional, TokenClass::MenorIgual) == Some(70usize),
            spec_buscar_entrada(final(self).table@, NonTerminal::OperadorRelacional, TokenClass::MayorIgual) == Some(71usize),
            spec_buscar_entrada(final(self).table@, NonTerminal::ExpresionNot, TokenClass::Not) == Some(72usize),
            spec_buscar_entrada(final(self).table@, NonTerminal::ExpresionNot, TokenClass::Numero) == Some(73usize),
            spec_buscar_entrada(final(self).table@, NonTerminal::ExpresionNot, TokenClass::Cadena) == Some(73usize),
            spec_buscar_entrada(final(self).table@, NonTerminal::ExpresionNot, TokenClass::Identificador) == Some(73usize),
            spec_buscar_entrada(final(self).table@, NonTerminal::ExpresionNot, TokenClass::ParenIzq) == Some(73usize),
            spec_buscar_entrada(final(self).table@, NonTerminal::ExpresionPrimaria, TokenClass::Numero) == Some(74usize),
            spec_buscar_entrada(final(self).table@, NonTerminal::ExpresionPrimaria, TokenClass::Cadena) == Some(75usize),
            spec_buscar_entrada(final(self).table@, NonTerminal::ExpresionPrimaria, TokenClass::Identificador) == Some(76usize),
            forall|nt2: NonTerminal, tc2: TokenClass|
                !((nt2 == NonTerminal::ExpresionAndPrime && tc2 == TokenClass::CorcheteDer) || (nt2 == NonTerminal::ExpresionAndPrime && tc2 == TokenClass::PuntoYComa) || (nt2 == NonTerminal::ExpresionAndPrime && tc2 == TokenClass::Inicio) || (nt2 == NonTerminal::ExpresionRelacional && tc2 == TokenClass::Not) || (nt2 == NonTerminal::ExpresionRelacional && tc2 == TokenClass::Numero) || (nt2 == NonTerminal::ExpresionRelacional && tc2 == TokenClass::Cadena) || (nt2 == NonTerminal::ExpresionRelacional && tc2 == TokenClass::Identificador) || (nt2 == NonTerminal::ExpresionRelacional && tc2 == TokenClass::ParenIzq) || (nt2 == NonTerminal::OpRelacional && tc2 == TokenClass::Igual) || (nt2 == NonTerminal::OpRelacional && tc2 == TokenClass::Diferente) || (nt2 == NonTerminal::OpRelacional && tc2 == TokenClass::Menor) || (nt2 == NonTerminal::OpRelacional && tc2 == TokenClass::Mayor) || (nt2 == NonTerminal::OpRelacional && tc2 == TokenClass::MenorIgual) || (nt2 == NonTerminal::OpRelacional && tc2 == TokenClass::MayorIgual) || (nt2 == NonTerminal::OpRelacional && tc2 == TokenClass::And) || (nt2 == NonTerminal::OpRelacional && tc2 == TokenClass::Or) || (nt2 == NonTerminal::OpRelacional && tc2 == TokenClass::ParenDer) || (nt2 == NonTerminal::OpRelacional && tc2 == TokenClass::Coma) || (nt2 == NonTerminal::OpRelacional && tc2 == TokenClass::CorcheteDer) || (nt2 == NonTerminal::OpRelacional && tc2 == TokenClass::PuntoYComa) || (nt2 == NonTerminal::OpRelacional && tc2 == TokenClass::Inicio) || (nt2 == NonTerminal::OperadorRelacional && tc2 == TokenClass::Igual) || (nt2 == NonTerminal::OperadorRelacional && tc2 == TokenClass::Diferente) || (nt2 == NonTerminal::OperadorRelacional && tc2 == TokenClass::Menor) || (nt2 == NonTerminal::OperadorRelacional && tc2 == TokenClass::Mayor) || (nt2 == NonTerminal::OperadorRelacional && tc2 == TokenClass::MenorIgual) || (nt2 == NonTerminal::OperadorRelacional && tc2 == TokenClass::MayorIgual) || (nt2 == NonTerminal::ExpresionNot && tc2 == TokenClass::Not) || (nt2 == NonTerminal::ExpresionNot && tc2 == TokenClass::Numero) || (nt2 == NonTerminal::ExpresionNot && tc2 == TokenClass::Cadena) || (nt2 == NonTerminal::ExpresionNot && tc2 == TokenClass::Identificador) || (nt2 == NonTerminal::ExpresionNot && tc2 == TokenClass::ParenIzq) || (nt2 == NonTerminal::ExpresionPrimaria && tc2 == TokenClass::Numero) || (nt2 == NonTerminal::ExpresionPrimaria && tc2 == TokenClass::Cadena) || (nt2 == NonTerminal::ExpresionPrimaria && tc2 == TokenClass::Identificador)) ==> #[trigger] spec_buscar_entrada(final(self).table@, nt2,
                tc2) == spec_buscar_entrada(old(self).table@, nt2, tc2),
    {
        self.add_entry(NonTerminal::ExpresionAndPrime, TokenClass::CorcheteDer, 63);
        self.add_entry(NonTerminal::ExpresionAndPrime, TokenClass::PuntoYComa, 63);
        self.add_entry(NonTerminal::ExpresionAndPrime, TokenClass::Inicio, 63);
        self.add_entry(NonTerminal::ExpresionRelacional, TokenClass::Not, 64);
        self.add_entry(NonTerminal::ExpresionRelacional, TokenClass::Numero, 64);
        self.add_entry(NonTerminal::ExpresionRelacional, TokenClass::Cadena, 64);
        self.add_entry(NonTerminal::ExpresionRelacional, TokenClass::Identificador, 64);
        self.add_entry(NonTerminal::ExpresionRelacional, TokenClass::ParenIzq, 64);
        self.add_entry(NonTerminal::OpRelacional, TokenClass::Igual, 65);
        self.add_entry(NonTerminal::OpRelacional, TokenClass::Diferente, 65);
        self.add_entry(NonTerminal::OpRelacional, TokenClass::Menor, 65);
        self.add_entry(NonTerminal::OpRelacional, TokenClass::Mayor, 65);
        self.add_entry(NonTerminal::OpRelacional, TokenClass::MenorIgual, 65);
        self.add_entry(NonTerminal::OpRelacional, TokenClass::MayorIgual, 65);
        self.add_entry(NonTerminal::OpRelacional, TokenClass::And, 66);
        self.add_entry(NonTerminal::OpRelacional, TokenClass::Or, 66);
        self.add_entry(NonTerminal::OpRelacional, TokenClass::ParenDer, 66);
        self.add_entry(NonTerminal::OpRelacional, TokenClass::Coma, 66);
        self.add_entry(NonTerminal::OpRelacional, TokenClass::CorcheteDer, 66);
        self.add_entry(NonTerminal::OpRelacional, TokenClass::PuntoYComa, 66);
        self.add_entry(NonTerminal::OpRelacional, TokenClass::Inicio, 66);
        self.add_entry(NonTerminal::OperadorRelacional, TokenClass::Igual, 67);
        self.add_entry(NonTerminal::OperadorRelacional, TokenClass::Diferente, 68);
        self.add_entry(NonTerminal::OperadorRelacional, TokenClass::Menor, 69);
        self.add_entry(NonTerminal::OperadorRelacional, TokenClass::Mayor, 70);
        self.add_entry(NonTerminal::OperadorRelacional, TokenClass::MenorIgual, 71);
        self.add_entry(NonTerminal::OperadorRelacional, TokenClass::MayorIgual, 72);
        self.add_entry(NonTerminal::ExpresionNot, TokenClass::Not, 73);
        self.add_entry(NonTerminal::ExpresionNot, TokenClass::Numero, 74);
        self.add_entry(NonTerminal::ExpresionNot, TokenClass::Cadena, 74);
        self.add_entry(NonTerminal::ExpresionNot, TokenClass::Identificador, 74);
        self.add_entry(NonTerminal::ExpresionNot, TokenClass::ParenIzq, 74);
        self.add_entry(NonTerminal::ExpresionPrimaria, TokenClass::Numero, 75);
        self.add_entry(NonTerminal::ExpresionPrimaria, TokenClass::Cadena, 76);
        self.add_entry(NonTerminal::ExpresionPrimaria, TokenClass::Identificador, 77);
    }

    /// One stretch of the table construction; the pairs it writes answer
    /// their productions and every other pair answers as before.
    #[verifier::rlimit(100)]
    #[verifier::spinoff_prover]
    fn tabla_parte5(&mut self)
        requires
            old(self).wf(),
            old(self).productions@.len() == 84,
        ensures
            final(self).wf(),
            final(self).productions == old(self).productions,
            final(self).table@.len() >= old(self).table@.len(),
            final(self).table@.len() >= 1,
            spec_buscar_entrada(final(self).table@, NonTerminal::ExpresionPrimaria, TokenClass::ParenIzq) == Some(77usize),
            spec_buscar_entrada(final(self).table@, NonTerminal::Accesos, TokenClass::Punto) == Some(78usize),
            spec_buscar_entrada(final(self).table@, NonTerminal::Accesos, TokenClass::CorcheteIzq) == Some(79usize),
            spec_buscar_entrada(final(self).table@, NonTerminal::Accesos, TokenClass::Igual) == Some(80usize),
            spec_buscar_entrada(final(self).table@, NonTerminal::Accesos, TokenClass::Diferente) == Some(80usize),
            spec_buscar_entrada(final(self).table@, NonTerminal::Accesos, TokenClass::Menor) == Some(80usize),
            spec_buscar_entrada(final(self).table@, NonTerminal::Accesos, TokenClass::Mayor) == Some(80usize),
            spec_buscar_entrada(final(self).table@, NonTerminal::Accesos, TokenClass::MenorIgual) == Some(80usize),
            spec_buscar_entrada(final(self).table@, NonTerminal::Accesos, TokenClass::MayorIgual) == Some(80usize),
            spec_buscar_entrada(final(self).table@, NonTerminal::Accesos, TokenClass::And) == Some(80usize),
            spec_buscar_entrada(final(self).table@, NonTerminal::Accesos, TokenClass::Or) == Some(80usize),
            spec_buscar_entrada(final(self).table@, NonTerminal::Accesos, TokenClass::ParenDer) == Some(80usize),
            spec_buscar_entrada(final(self).table@, NonTerminal::Accesos, TokenClass::Coma) == Some(80usize),
            spec_buscar_entrada(final(self).table@, NonTerminal::Accesos, TokenClass::CorcheteDer) == Some(80usize),
            spec_buscar_entrada(final(self).table@, NonTerminal::Accesos, TokenClass::PuntoYComa) == Some(80usize),
            spec_buscar_entrada(final(self).table@, NonTerminal::Accesos, TokenClass::Inicio) == Some(80usize),
            spec_buscar_entrada(final(self).table@, NonTerminal::AccesoCampo, TokenClass::Punto) == Some(81usize),
            spec_buscar_entrada(final(self).table@, NonTerminal::AccesoArreglo, TokenClass::CorcheteIzq) == Some(82usize),
            spec_buscar_entrada(final(self).table@, NonTerminal::AccesoArreglo, TokenClass::Igual) == Some(83usize),
            spec_buscar_entrada(final(self).table@, NonTerminal::AccesoArreglo, TokenClass::Diferente) == Some(83usize),
            spec_buscar_entrada(final(self).table@, NonTerminal::AccesoArreglo, TokenClass::Menor) == Some(83usize),
            spec_buscar_entrada(final(self).table@, NonTerminal::AccesoArreglo, TokenClass::Mayor) == Some(83usize),
            spec_buscar_entrada(final(self).table@, NonTerminal::AccesoArreglo, TokenClass::MenorIgual) == Some(83usize),
            spec_buscar_entrada(final(self).table@, NonTerminal::AccesoArreglo, TokenClass::MayorIgual) == Some(83usize),
            spec_buscar_entrada(final(self).table@, NonTerminal::AccesoArreglo, TokenClass::And) == Some(83usize),
            spec_buscar_entrada(final(self).table@, NonTerminal::AccesoArreglo, TokenClass::Or) == Some(83usize),
            spec_buscar_entrada(final(self).table@, NonTerminal::AccesoArreglo, TokenClass::ParenDer) == Some(83usize),
            spec_buscar_entrada(final(self).table@, NonTerminal::AccesoArreglo, TokenClass::Coma) == Some(83usize),
            spec_buscar_entrada(final(self).table@, NonTerminal::AccesoArreglo, TokenClass::CorcheteDer) == Some(83usize),
            spec_buscar_entrada(final(self).table@, NonTerminal::AccesoArreglo, TokenClass::PuntoYComa) == Some(83usize),
            spec_buscar_entrada(final(self).table@, NonTerminal::AccesoArreglo, TokenClass::Inicio) == Some(83usize),
            forall|nt2: NonTerminal, tc2: TokenClass|
                !((nt2 == NonTerminal::ExpresionPrimaria && tc2 == TokenClass::ParenIzq) || (nt2 == NonTerminal::Accesos && tc2 == TokenClass::Punto) || (nt2 == NonTerminal::Accesos && tc2 == TokenClass::CorcheteIzq) || (nt2 == NonTerminal::Accesos && tc2 == TokenClass::Igual) || (nt2 == NonTerminal::Accesos && tc2 == TokenClass::Diferente) || (nt2 == NonTerminal::Accesos && tc2 == TokenClass::Menor) || (nt2 == NonTerminal::Accesos && tc2 == TokenClass::Mayor) || (nt2 == NonTerminal::Accesos && tc2 == TokenClass::MenorIgual) || (nt2 == NonTerminal::Accesos && tc2 == TokenClass::MayorIgual) || (nt2 == NonTerminal::Accesos && tc2 == TokenClass::And) || (nt2 == NonTerminal::Accesos && tc2 == TokenClass::Or) || (nt2 == NonTerminal::Accesos && tc2 == TokenClass::ParenDer) || (nt2 == NonTerminal::Accesos && tc2 == TokenClass::Coma) || (nt2 == NonTerminal::Accesos && tc2 == TokenClass::CorcheteDer) || (nt2 == NonTerminal::Accesos && tc2 == TokenClass::PuntoYComa) || (nt2 == NonTerminal::Accesos && tc2 == TokenClass::Inicio) || (nt2 == NonTerminal::AccesoCampo && tc2 == TokenClass::Punto) || (nt2 == NonTerminal::AccesoArreglo && tc2 == TokenClass::CorcheteIzq) || (nt2 == NonTerminal::AccesoArreglo && tc2 == TokenClass::Igual) || (nt2 == NonTerminal::AccesoArreglo && tc2 == TokenClass::Diferente) || (nt2 == NonTerminal::AccesoArreglo && tc2 == TokenClass::Menor) || (nt2 == NonTerminal::AccesoArreglo && tc2 == TokenClass::Mayor) || (nt2 == NonTerminal::AccesoArreglo && tc2 == TokenClass::MenorIgual) || (nt2 == NonTerminal::AccesoArreglo && tc2 == TokenClass::MayorIgual) || (nt2 == NonTerminal::AccesoArreglo && tc2 == TokenClass::And) || (nt2 == NonTerminal::AccesoArreglo && tc2 == TokenClass::Or) || (nt2 == NonTerminal::AccesoArreglo && tc2 == TokenClass::ParenDer) || (nt2 == NonTerminal::AccesoArreglo && tc2 == TokenClass::Coma) || (nt2 == NonTerminal::AccesoArreglo && tc2 == TokenClass::CorcheteDer) || (nt2 == NonTerminal::AccesoArreglo && tc2 == TokenClass::PuntoYComa) || (nt2 == NonTerminal::AccesoArreglo && tc2 == TokenClass::Inicio)) ==> #[trigger] spec_buscar_entrada(final(self).table@, nt2,
                tc2) == spec_buscar_entrada(old(self).table@, nt2, tc2),
    {
        self.add_entry(NonTerminal::ExpresionPrimaria, TokenClass::ParenIzq, 78);
        self.add_entry(NonTerminal::Accesos, TokenClass::Punto, 79);
        self.add_entry(NonTerminal::Accesos, TokenClass::CorcheteIzq, 80);
        self.add_entry(NonTerminal::Accesos, TokenClass::Igual, 81);
        self.add_entry(NonTerminal::Accesos, TokenClass::Diferente, 81);
        self.add_entry(NonTerminal::Accesos, TokenClass::Menor, 81);
        self.add_entry(NonTerminal::Accesos, TokenClass::Mayor, 81);
        self.add_entry(NonTerminal::Accesos, TokenClass::MenorIgual, 81);
        self.add_entry(NonTerminal::Accesos, TokenClass::MayorIgual, 81);
        self.add_entry(NonTerminal::Accesos, TokenClass::And, 81);
        self.add_entry(NonTerminal::Accesos, TokenClass::Or, 81);
        self.add_entry(NonTerminal::Accesos, TokenClass::ParenDer, 81);
        self.add_entry(NonTerminal::Accesos, TokenClass::Coma, 81);
        self.add_entry(NonTerminal::Accesos, TokenClass::CorcheteDer, 81);
        self.add_entry(NonTerminal::Accesos, TokenClass::PuntoYComa, 81);
        self.add_entry(NonTerminal::Accesos, TokenClass::Inicio, 81);
        self.add_entry(NonTerminal::AccesoCampo, TokenClass::Punto, 82);
        self.add_entry(NonTerminal::AccesoArreglo, TokenClass::CorcheteIzq, 83);
        self.add_entry(NonTerminal::AccesoArreglo, TokenClass::Igual, 84);
        self.add_entry(NonTerminal::AccesoArreglo, TokenClass::Diferente, 84);
        self.add_entry(NonTerminal::AccesoArreglo, TokenClass::Menor, 84);
        self.add_entry(NonTerminal::AccesoArreglo, TokenClass::Mayor, 84);
        self.add_entry(NonTerminal::AccesoArreglo, TokenClass::MenorIgual, 84);
        self.add_entry(NonTerminal::AccesoArreglo, TokenClass::MayorIgual, 84);
        self.add_entry(NonTerminal::AccesoArreglo, TokenClass::And, 84);
        self.add_entry(NonTerminal::AccesoArreglo, TokenClass::Or, 84);
        self.add_entry(NonTerminal::AccesoArreglo, TokenClass::ParenDer, 84);
        self.add_entry(NonTerminal::AccesoArreglo, TokenClass::Coma, 84);
        self.add_entry(NonTerminal::AccesoArreglo, TokenClass::CorcheteDer, 84);
        self.add_entry(NonTerminal::AccesoArreglo, TokenClass::PuntoYComa, 84);
        self.add_entry(NonTerminal::AccesoArreglo, TokenClass::Inicio, 84);
    }

    /// Fills the table: a production is stored at (A, t) when t begins an
    /// expansion of A, or when A can vanish and t can follow it. Afterwards
    /// the table holds exactly the entries of `tabla_correcta`.
    #[verifier::rlimit(100)]
    #[verifier::spinoff_prover]
    fn build_table(&mut self)
        requires
            old(self).wf(),
            old(self).productions@.len() == 84,
        ensures
            final(self).wf(),
            final(self).productions == old(self).productions,
            final(self).table@.len() > 0,
            final(self).tabla_correcta(),
    {
        self.tabla_parte1();
        self.tabla_parte2();
        self.tabla_parte3();
        self.tabla_parte4();
        self.tabla_parte5();
    }

    /// Looks the table up for a non-terminal and the class of the given
    /// token.
    pub fn get<'a>(&'a self, nt: NonTerminal, token: &Token) -> (r: Option<&'a Production>)
        requires
            self.wf(),
            !(token is Whitespace),
        ensures
            match r {
                Some(p) => spec_buscar_entrada(self.table@, nt, spec_clase_de(*token)) matches
                    Some(k) && k < self.productions@.len() && *p == self.productions@[k as int],
                None => spec_buscar_entrada(self.table@, nt, spec_clase_de(*token)) is None,
            },
    {
        let tc = TokenClass::from_token(token);
        let mut i: usize = 0;
        proof {
            assert(self.table@.subrange(0, self.table@.len() as int) =~= self.table@);
        }
        while i < self.table.len()
            invariant
                i <= self.table@.len(),
                self.wf(),
                tc == spec_clase_de(*token),
                spec_buscar_entrada(self.table@, nt, tc) == spec_buscar_entrada(
                    self.table@.subrange(i as int, self.table@.len() as int), nt, tc),
            decreases self.table@.len() - i,
        {
            proof {
                assert(self.table@.subrange(i as int, self.table@.len() as int).drop_first() =~=
                    self.table@.subrange(i + 1 as int, self.table@.len() as int));
            }
            if self.table[i].0 == nt && self.table[i].1 == tc {
                return Some(&self.productions[self.table[i].2]);
            }
            i = i + 1;
        }
        None
    }


    /// A human-readable dump of the table: one line per entry in storage
    /// order, then the numbered production list.
    pub fn export_table(&self) -> (r: String)
        requires
            self.wf(),
        ensures
            r@.len() > 0,
    {
        let mut salida = String::from_str("TABLA DE ANÁLISIS PREDICTIVO LL(1)\n");
        proof {
            reveal_strlit("TABLA DE ANÁLISIS PREDICTIVO LL(1)\n");
        }
        salida = salida.concat("Formato: M[NoTerminal, Terminal] = [número] producción\n\n");
        let mut i: usize = 0;
        while i < self.table.len()
            invariant
                self.wf(),
                i <= self.table@.len(),
                salida@.len() > 0,
            decreases self.table@.len() - i,
        {
            let (nt, tc, idx) = (self.table[i].0, self.table[i].1, self.table[i].2);
            let prod = &self.productions[idx];
            salida = salida.concat("M[").concat(nt.as_str()).concat(", ").concat(
                tc.as_str()).concat("] = [").concat(crate::texto::usize_a_cadena(
                prod.id).as_str()).concat("] ").concat(prod.lhs.as_str()).concat(" → ").concat(
                Self::format_rhs(&prod.rhs).as_str()).concat("\n");
            i = i + 1;
        }
        salida = salida.concat("\nLISTA COMPLETA DE PRODUCCIONES\n");
        let mut j: usize = 0;
        while j < self.productions.len()
            invariant
                self.wf(),
                j <= self.productions@.len(),
                salida@.len() > 0,
            decreases self.productions@.len() - j,
        {
            let prod = &self.productions[j];
            salida = salida.concat("[").concat(crate::texto::usize_a_cadena(
                prod.id).as_str()).concat("] ").concat(prod.lhs.as_str()).concat(" → ").concat(
                Self::format_rhs(&prod.rhs).as_str()).concat("\n");
            j = j + 1;
        }
        salida
    }

    /// The right-hand side of a production, symbols separated by spaces; the
    /// empty word shows as its conventional letter.
    fn format_rhs(rhs: &Vec<Symbol>) -> String {
        if rhs.len() == 0 {
            return String::from_str("ε");
        }
        if rhs.len() == 1 {
            let solo_epsilon = match &rhs[0] {
                Symbol::Epsilon => true,
                _ => false,
            };
            if solo_epsilon {
                return String::from_str("ε");
            }
        }
        let mut salida = String::new();
        let mut i: usize = 0;
        while i < rhs.len()
            decreases rhs@.len() - i,
        {
            if i > 0 {
                salida = salida.concat(" ");
            }
            let pieza = match &rhs[i] {
                Symbol::Terminal(t) => Self::format_terminal(t),
                Symbol::NonTerminal(nt) => String::from_str(nt.as_str()),
                Symbol::Epsilon => String::from_str("ε"),
                Symbol::Eof => String::from_str("$"),
            };
            salida = salida.concat(pieza.as_str());
            i = i + 1;
        }
        salida
    }

    /// The display form of a terminal, payload tokens by their class name.
    fn format_terminal(token: &Token) -> String {
        match token {
            Token::Programa => String::from_str("PROGRAMA"),
            Token::Define => String::from_str("DEFINE"),
            Token::Maquinas => String::from_str("MAQUINAS"),
            Token::Concentradores => String::from_str("CONCENTRADORES"),
            Token::Coaxial => String::from_str("COAXIAL"),
            Token::Segmento => String::from_str("SEGMENTO"),
            Token::Modulo => String::from_str("MODULO"),
            Token::Inicio => String::from_str("INICIO"),
            Token::Fin => String::from_str("FIN"),
            Token::Si => String::from_str("SI"),
            Token::Sino => String::from_str("SINO"),
            Token::Coloca => String::from_str("coloca"),
            Token::ColocaCoaxial => String::from_str("colocaCoaxial"),
            Token::ColocaCoaxialConcentrador => String::from_str("colocaCoaxialConcentrador"),
            Token::UneMaquinaPuerto => String::from_str("uneMaquinaPuerto"),
            Token::AsignaPuerto => String::from_str("asignaPuerto"),
            Token::MaquinaCoaxial => String::from_str("maquinaCoaxial"),
            Token::AsignaMaquinaCoaxial => String::from_str("asignaMaquinaCoaxial"),
            Token::Escribe => String::from_str("escribe"),
            Token::Arriba => String::from_str("arriba"),
            Token::Abajo => String::from_str("abajo"),
            Token::Izquierda => String::from_str("izquierda"),
            Token::Derecha => String::from_str("derecha"),
            Token::Igual => String::from_str("="),
            Token::Menor => String::from_str("<"),
            Token::Mayor => String::from_str(">"),
            Token::MenorIgual => String::from_str("<="),
            Token::MayorIgual => String::from_str(">="),
            Token::Diferente => String::from_str("<>"),
            Token::And => String::from_str("&&"),
            Token::Or => String::from_str("||"),
            Token::Not => String::from_str("!"),
            Token::Coma => String::from_str(","),
            Token::PuntoYComa => String::from_str(";"),
            Token::Punto => String::from_str("."),
            Token::ParenIzq => String::from_str("("),
            Token::ParenDer => String::from_str(")"),
            Token::CorcheteIzq => String::from_str("["),
            Token::CorcheteDer => String::from_str("]"),
            Token::Identificador(_) => String::from_str("IDENTIFICADOR"),
            Token::Numero(_) => String::from_str("NUMERO"),
            Token::Cadena(_) => String::from_str("CADENA"),
            Token::Whitespace => String::from_str("WHITESPACE"),
        }
    }

    /// The production with the given number, if it exists.
    pub fn get_production<'a>(&'a self, id: usize) -> (r: Option<&'a Production>)
        requires
            self.wf(),
        ensures
            match r {
                Some(p) => 1 <= id <= self.productions@.len() && *p == self.productions@[id - 1],
                None => id == 0 || id > self.productions@.len(),
            },
    {
        if id >= 1 && id <= self.productions.len() {
            Some(&self.productions[id - 1])
        } else {
            None
        }
    }
}

/// The defining LL(1) invariant, spelled out: in a well-formed table any two
/// entries for the same (non-terminal, terminal-class) pair are the same
/// entry, so at most one production is stored per pair.
pub proof fn lemma_tabla_sin_conflicto(t: LL1Table)
    requires
        t.claves_unicas(),
    ensures
        forall|i: int, j: int|
            0 <= i < t.table@.len() && 0 <= j < t.table@.len() && (#[trigger] t.table@[i]).0 == (
            #[trigger] t.table@[j]).0 && t.table@[i].1 == t.table@[j].1 ==> i == j,
{
    assert forall|i: int, j: int|
        0 <= i < t.table@.len() && 0 <= j < t.table@.len() && (#[trigger] t.table@[i]).0 == (
        #[trigger] t.table@[j]).0 && t.table@[i].1 == t.table@[j].1 implies i == j by {
        if i < j {
            assert(!(t.table@[i].0 == t.table@[j].0 && t.table@[i].1 == t.table@[j].1));
        } else if j < i {
            assert(!(t.table@[j].0 == t.table@[i].0 && t.table@[j].1 == t.table@[i].1));
        }
    }
}

} // verus!
