//! The predictive validator (the first pass): a stack machine over the LL(1)
//! table that checks the token stream belongs to the grammar before any tree
//! is built. On success the second pass re-consumes the same tokens and
//! builds the syntax tree.

use vstd::prelude::*;
use crate::ast::Program;
use crate::lexer::{Token, TokenInfo};
use crate::parser::spec_tok;
use crate::parser::Parser as RecursiveParser;
use crate::texto::usize_a_cadena;
use super::first_follow::{NonTerminal, Symbol};
use super::ll1_table::{spec_buscar_entrada, spec_clase_de, LL1Table, TokenClass};

verus! {

/// Whether a token may stand where the grammar expects an identifier: the
/// reserved words that double as field names are accepted there too.
pub open spec fn spec_es_nombre_de_campo(t: Token) -> bool {
    ||| t == Token::Coaxial
    ||| t == Token::Segmento
    ||| t == Token::Maquinas
    ||| t == Token::Concentradores
    ||| t == Token::Derecha
    ||| t == Token::Izquierda
    ||| t == Token::Arriba
    ||| t == Token::Abajo
    ||| t == Token::Modulo
}

/// When a terminal of the grammar matches an input token: literals by class
/// only, an expected identifier also by the field-name exception, everything
/// else by kind.
pub open spec fn spec_tokens_match(expected: Token, actual: Token) -> bool {
    match (expected, actual) {
        (Token::Identificador(_), Token::Identificador(_)) => true,
        (Token::Numero(_), Token::Numero(_)) => true,
        (Token::Cadena(_), Token::Cadena(_)) => true,
        (Token::Identificador(_), a) => spec_es_nombre_de_campo(a),
        (e, a) => spec_clase_de(e) == spec_clase_de(a),
    }
}

/// No blank token stands in the stream; the scanner discards them before
/// tokens reach the parsers, and the table has no class for them.
pub open spec fn spec_sin_blancos(tokens: Seq<TokenInfo>) -> bool {
    forall|i: int| 0 <= i < tokens.len() ==> !((#[trigger] tokens[i]).token is Whitespace)
}

/// One step of the predictive walk: the continuation with the new stack and
/// cursor, acceptance, or rejection.
pub ghost enum PasoValidacion {
    Sigue(Seq<Symbol>, int),
    Acepta,
    Rechaza,
}

/// One step of the predictive algorithm, on the symbol atop the stack: the
/// empty word is discarded; the end marker accepts exactly at the end of the
/// input; a terminal must match the current token; a non-terminal is
/// replaced by the right-hand side of the table's production, pushed in
/// reverse. Beyond the last token the cursor reads as the final period.
pub open spec fn paso_validacion(
    t: LL1Table,
    tokens: Seq<TokenInfo>,
    stack: Seq<Symbol>,
    pos: int,
) -> PasoValidacion {
    if stack.len() == 0 {
        PasoValidacion::Rechaza
    } else {
        let tope = stack.last();
        let resto = stack.drop_last();
        match tope {
            Symbol::Epsilon => PasoValidacion::Sigue(resto, pos),
            Symbol::Eof => if pos >= tokens.len() {
                PasoValidacion::Acepta
            } else {
                PasoValidacion::Rechaza
            },
            Symbol::Terminal(esperado) => {
                if spec_tokens_match(esperado, spec_tok(tokens, pos)) {
                    PasoValidacion::Sigue(
                        resto,
                        if pos < tokens.len() {
                            pos + 1
                        } else {
                            pos
                        },
                    )
                } else {
                    PasoValidacion::Rechaza
                }
            },
            Symbol::NonTerminal(nt) => {
                match spec_buscar_entrada(t.table@, nt, spec_clase_de(spec_tok(tokens, pos))) {
                    Some(k) => if k < t.productions@.len() {
                        PasoValidacion::Sigue(resto + t.productions@[k as int].rhs@.reverse(), pos)
                    } else {
                        PasoValidacion::Rechaza
                    },
                    None => PasoValidacion::Rechaza,
                }
            },
        }
    }
}

/// The outcome of the predictive walk within a step budget: acceptance,
/// rejection, or an exhausted budget.
pub open spec fn resultado_validacion(
    t: LL1Table,
    tokens: Seq<TokenInfo>,
    stack: Seq<Symbol>,
    pos: int,
    combustible: nat,
) -> Option<bool>
    decreases combustible,
{
    if combustible == 0 {
        None
    } else {
        match paso_validacion(t, tokens, stack, pos) {
            PasoValidacion::Acepta => Some(true),
            PasoValidacion::Rechaza => Some(false),
            PasoValidacion::Sigue(s2, p2) => resultado_validacion(t, tokens, s2, p2, (
            combustible - 1) as nat),
        }
    }
}

/// The initial stack of the walk: the end marker under the start symbol.
pub open spec fn pila_inicial() -> Seq<Symbol> {
    seq![Symbol::Eof, Symbol::NonTerminal(NonTerminal::Programa)]
}

/// The step budget for a token stream.
pub open spec fn presupuesto(n: nat) -> nat {
    10000 + 200 * n
}

/// The stack-based LL(1) validator.
pub struct PredictiveParser {
    pub table: LL1Table,
    pub tokens: Vec<TokenInfo>,
    pub position: usize,
    pub stack: Vec<Symbol>,
    pub errors: Vec<String>,
}

impl PredictiveParser {
    /// A fresh validator over a token stream, its stack holding the
    /// end-of-input marker under the start symbol.
    pub fn new(tokens: Vec<TokenInfo>) -> (r: PredictiveParser)
        ensures
            r.table.wf(),
            r.table.productions@.len() == 84,
            r.table.table@.len() > 0,
            r.tokens == tokens,
            r.position == 0,
            r.stack@.len() == 2,
            r.stack@[0] == Symbol::Eof,
            r.stack@[1] == Symbol::NonTerminal(NonTerminal::Programa),
            r.errors@.len() == 0,
    {
        let mut stack: Vec<Symbol> = Vec::new();
        stack.push(Symbol::Eof);
        stack.push(Symbol::NonTerminal(NonTerminal::Programa));
        PredictiveParser {
            table: LL1Table::new(),
            tokens,
            position: 0,
            stack,
            errors: Vec::new(),
        }
    }

    /// Moves past the current token; the cursor never leaves the stream.
    fn advance(&mut self)
        ensures
            final(self).tokens == old(self).tokens,
            final(self).table == old(self).table,
            final(self).stack == old(self).stack,
            final(self).errors == old(self).errors,
            old(self).position < old(self).tokens@.len() ==> final(self).position == old(
                self).position + 1,
            old(self).position >= old(self).tokens@.len() ==> final(self).position == old(
                self).position,
    {
        if self.position < self.tokens.len() {
            self.position = self.position + 1;
        }
    }

    /// Records an error message.
    fn error(&mut self, msg: String)
        ensures
            final(self).tokens == old(self).tokens,
            final(self).table == old(self).table,
            final(self).stack == old(self).stack,
            final(self).position == old(self).position,
            final(self).errors@ == old(self).errors@.push(msg),
    {
        self.errors.push(msg);
    }

    /// Whether a terminal of the grammar matches an input token.
    pub fn tokens_match(expected: &Token, actual: &Token) -> (r: bool)
        ensures
            r == spec_tokens_match(*expected, *actual),
    {
        match (expected, actual) {
            (Token::Identificador(_), Token::Identificador(_)) => true,
            (Token::Numero(_), Token::Numero(_)) => true,
            (Token::Cadena(_), Token::Cadena(_)) => true,
            (Token::Identificador(_), a) => Self::is_valid_field_name(a),
            (e, a) => {
                let ce = if matches!(e, Token::Whitespace) {
                    TokenClass::Eof
                } else {
                    TokenClass::from_token(e)
                };
                let ca = if matches!(a, Token::Whitespace) {
                    TokenClass::Eof
                } else {
                    TokenClass::from_token(a)
                };
                ce == ca
            }
        }
    }

    /// Whether a reserved word may stand as a field name.
    fn is_valid_field_name(token: &Token) -> (r: bool)
        ensures
            r == spec_es_nombre_de_campo(*token),
    {
        match token {
            Token::Coaxial | Token::Segmento | Token::Maquinas | Token::Concentradores
                | Token::Derecha | Token::Izquierda | Token::Arriba | Token::Abajo
                | Token::Modulo => true,
            _ => false,
        }
    }

    /// The accumulated error messages.
    pub fn get_errors(&self) -> (r: &Vec<String>)
        ensures
            r == &self.errors,
    {
        &self.errors
    }

    /// Validates the token stream against the LL(1) table. On success the
    /// whole input was consumed by a derivation from the start symbol; on
    /// failure the message names the mismatch. The walk is bounded by a step
    /// budget far beyond any derivation of this grammar; exhausting it is
    /// reported as an internal error.
    pub fn validate_syntax(&mut self) -> (r: Result<(), String>)
        requires
            old(self).table.wf(),
            spec_sin_blancos(old(self).tokens@),
        ensures
            final(self).tokens == old(self).tokens,
            final(self).table == old(self).table,
            r is Ok ==> final(self).position == final(self).tokens@.len(),
            (r is Ok) == (resultado_validacion(old(self).table, old(self).tokens@, pila_inicial(),
                0, presupuesto(old(self).tokens@.len())) == Some(true)),
    {
        self.position = 0;
        self.stack = Vec::new();
        self.stack.push(Symbol::Eof);
        self.stack.push(Symbol::NonTerminal(NonTerminal::Programa));
        self.errors = Vec::new();
        proof {
            assert(self.stack@ =~= pila_inicial());
        }

        let limite: u128 = 10000 + 200 * (self.tokens.len() as u128);
        let mut pasos: u128 = 0;
        proof {
            assert(limite as nat == presupuesto(self.tokens@.len()));
        }

        while self.stack.len() > 0 && pasos < limite
            invariant
                self.table.wf(),
                self.tokens == old(self).tokens,
                self.table == old(self).table,
                spec_sin_blancos(self.tokens@),
                self.position <= self.tokens@.len(),
                pasos <= limite,
                limite as nat == presupuesto(old(self).tokens@.len()),
                resultado_validacion(old(self).table, old(self).tokens@, pila_inicial(), 0,
                    presupuesto(old(self).tokens@.len())) == resultado_validacion(old(self).table,
                    old(self).tokens@, self.stack@, self.position as int, (limite - pasos) as nat),
            decreases limite - pasos,
        {
            let ghost pila_antes = self.stack@;
            let ghost pos_antes = self.position as int;
            let ghost gas = (limite - pasos) as nat;
            pasos = pasos + 1;
            let top = match self.stack.pop() {
                Some(s) => s,
                None => {
                    return Err(String::from_str("Error interno: pila vacía"));
                }
            };
            proof {
                assert(top == pila_antes.last());
                assert(self.stack@ == pila_antes.drop_last());
            }

            match top {
                Symbol::Epsilon => {
                    // The empty word: nothing to match.
                    proof {
                        assert(paso_validacion(old(self).table, old(self).tokens@, pila_antes,
                            pos_antes) == PasoValidacion::Sigue(self.stack@, pos_antes));
                    }
                }
                Symbol::Eof => {
                    if self.position >= self.tokens.len() {
                        proof {
                            assert(paso_validacion(old(self).table, old(self).tokens@, pila_antes,
                                pos_antes) == PasoValidacion::Acepta);
                        }
                        return Ok(());
                    } else {
                        proof {
                            assert(paso_validacion(old(self).table, old(self).tokens@, pila_antes,
                                pos_antes) == PasoValidacion::Rechaza);
                        }
                        let msg = String::from_str(
                            "Se esperaba el fin del programa en la posición ").concat(
                            usize_a_cadena(self.position).as_str());
                        self.error(msg);
                        return Err(self.primer_error());
                    }
                }
                Symbol::Terminal(expected) => {
                    let punto = Token::Punto;
                    let coincide = if self.position < self.tokens.len() {
                        Self::tokens_match(&expected, &self.tokens[self.position].token)
                    } else {
                        Self::tokens_match(&expected, &punto)
                    };
                    proof {
                        assert(coincide == spec_tokens_match(expected, spec_tok(old(self).tokens@,
                            pos_antes)));
                    }
                    if coincide {
                        self.advance();
                        proof {
                            assert(paso_validacion(old(self).table, old(self).tokens@, pila_antes,
                                pos_antes) == PasoValidacion::Sigue(self.stack@,
                                self.position as int));
                        }
                    } else {
                        proof {
                            assert(paso_validacion(old(self).table, old(self).tokens@, pila_antes,
                                pos_antes) == PasoValidacion::Rechaza);
                        }
                        let msg = String::from_str(
                            "Error de sintaxis: el token en la posición ").concat(usize_a_cadena(
                            self.position).as_str()).concat(" no es el esperado");
                        self.error(msg);
                        return Err(self.primer_error());
                    }
                }
                Symbol::NonTerminal(nt) => {
                    let punto = Token::Punto;
                    let produccion = if self.position < self.tokens.len() {
                        self.table.get(nt, &self.tokens[self.position].token)
                    } else {
                        self.table.get(nt, &punto)
                    };
                    match produccion {
                        Some(production) => {
                            // Push the right-hand side in reverse order.
                            let ghost resto = self.stack@;
                            let rhs = &production.rhs;
                            let n = rhs.len();
                            let mut k: usize = n;
                            let mut nuevos: Vec<Symbol> = Vec::new();
                            while k > 0
                                invariant
                                    k <= n,
                                    n == rhs@.len(),
                                    nuevos@.len() == n - k,
                                    forall|j: int| 0 <= j < n - k ==> nuevos@[j] == rhs@[
                                        n - 1 - j],
                                decreases k,
                            {
                                k = k - 1;
                                nuevos.push(Self::clonar_simbolo(&rhs[k]));
                            }
                            proof {
                                assert(nuevos@ =~= rhs@.reverse());
                            }
                            let mut m: usize = 0;
                            let cuantos = nuevos.len();
                            while m < cuantos
                                invariant
                                    m <= cuantos,
                                    cuantos == nuevos@.len(),
                                    self.table.wf(),
                                    self.tokens == old(self).tokens,
                                    self.table == old(self).table,
                                    self.position == pos_antes,
                                    self.position <= self.tokens@.len(),
                                    self.stack@ == resto + nuevos@.subrange(0, m as int),
                                decreases cuantos - m,
                            {
                                let s = Self::clonar_simbolo(&nuevos[m]);
                                self.stack.push(s);
                                m = m + 1;
                                proof {
                                    assert(self.stack@ =~= resto + nuevos@.subrange(0, m as int));
                                }
                            }
                            proof {
                                assert(nuevos@.subrange(0, nuevos@.len() as int) =~= nuevos@);
                                assert(self.stack@ == resto + rhs@.reverse());
                                assert(paso_validacion(old(self).table, old(self).tokens@,
                                    pila_antes, pos_antes) == PasoValidacion::Sigue(self.stack@,
                                    pos_antes));
                            }
                        }
                        None => {
                            proof {
                                assert(paso_validacion(old(self).table, old(self).tokens@,
                                    pila_antes, pos_antes) == PasoValidacion::Rechaza);
                            }
                            let msg = String::from_str(
                                "Error de sintaxis: no hay producción para ").concat(
                                nt.as_str()).concat(" en la posición ").concat(usize_a_cadena(
                                self.position).as_str());
                            self.error(msg);
                            return Err(self.primer_error());
                        }
                    }
                }
            }
        }

        proof {
            if self.stack@.len() == 0 {
                if pasos < limite {
                    assert(paso_validacion(old(self).table, old(self).tokens@, self.stack@,
                        self.position as int) == PasoValidacion::Rechaza);
                }
            }
        }
        if self.stack.len() == 0 {
            Err(String::from_str(
                "Error interno: el stack quedó vacío sin completar el análisis"))
        } else {
            Err(String::from_str("Error interno: el análisis excedió el límite de pasos"))
        }
    }

    /// A copy of a grammar symbol, equal to the original.
    fn clonar_simbolo(s: &Symbol) -> (r: Symbol)
        ensures
            r == *s,
    {
        match s {
            Symbol::Terminal(t) => Symbol::Terminal(Self::clonar_token(t)),
            Symbol::NonTerminal(nt) => Symbol::NonTerminal(*nt),
            Symbol::Epsilon => Symbol::Epsilon,
            Symbol::Eof => Symbol::Eof,
        }
    }

    /// A copy of a token, equal to the original.
    fn clonar_token(t: &Token) -> (r: Token)
        ensures
            r == *t,
    {
        match t {
            Token::Programa => Token::Programa,
            Token::Define => Token::Define,
            Token::Maquinas => Token::Maquinas,
            Token::Concentradores => Token::Concentradores,
            Token::Coaxial => Token::Coaxial,
            Token::Segmento => Token::Segmento,
            Token::Modulo => Token::Modulo,
            Token::Inicio => Token::Inicio,
            Token::Fin => Token::Fin,
            Token::Si => Token::Si,
            Token::Sino => Token::Sino,
            Token::Coloca => Token::Coloca,
            Token::ColocaCoaxial => Token::ColocaCoaxial,
            Token::ColocaCoaxialConcentrador => Token::ColocaCoaxialConcentrador,
            Token::UneMaquinaPuerto => Token::UneMaquinaPuerto,
            Token::AsignaPuerto => Token::AsignaPuerto,
            Token::MaquinaCoaxial => Token::MaquinaCoaxial,
            Token::AsignaMaquinaCoaxial => Token::AsignaMaquinaCoaxial,
            Token::Escribe => Token::Escribe,
            Token::Arriba => Token::Arriba,
            Token::Abajo => Token::Abajo,
            Token::Izquierda => Token::Izquierda,
            Token::Derecha => Token::Derecha,
            Token::Igual => Token::Igual,
            Token::Menor => Token::Menor,
            Token::Mayor => Token::Mayor,
            Token::MenorIgual => Token::MenorIgual,
            Token::MayorIgual => Token::MayorIgual,
            Token::Diferente => Token::Diferente,
            Token::And => Token::And,
            Token::Or => Token::Or,
            Token::Not => Token::Not,
            Token::Coma => Token::Coma,
            Token::PuntoYComa => Token::PuntoYComa,
            Token::Punto => Token::Punto,
            Token::ParenIzq => Token::ParenIzq,
            Token::ParenDer => Token::ParenDer,
            Token::CorcheteIzq => Token::CorcheteIzq,
            Token::CorcheteDer => Token::CorcheteDer,
            Token::Identificador(s) => Token::Identificador(s.clone()),
            Token::Numero(n) => Token::Numero(*n),
            Token::Cadena(s) => Token::Cadena(s.clone()),
            Token::Whitespace => Token::Whitespace,
        }
    }

    /// The first accumulated error message, or a placeholder.
    fn primer_error(&self) -> (r: String) {
        if self.errors.len() > 0 {
            self.errors[0].clone()
        } else {
            String::from_str("Error de sintaxis")
        }
    }

    /// The two-pass parse: the predictive validation gate, then the
    /// tree-building pass over the same tokens. A program the validator
    /// rejects never reaches the second pass.
    pub fn parse(&mut self) -> (r: Result<Program, String>)
        requires
            old(self).table.wf(),
            spec_sin_blancos(old(self).tokens@),
        ensures
            final(self).tokens == old(self).tokens,
            r is Ok ==> final(self).position == final(self).tokens@.len(),
            r is Ok ==> resultado_validacion(old(self).table, old(self).tokens@, pila_inicial(),
                0, presupuesto(old(self).tokens@.len())) == Some(true),
            resultado_validacion(old(self).table, old(self).tokens@, pila_inicial(), 0,
                presupuesto(old(self).tokens@.len())) != Some(true) ==> r is Err,
            r matches Ok(p) ==> ({
                &&& old(self).tokens@.len() >= 3
                &&& spec_tok(old(self).tokens@, 0) == Token::Programa
                &&& (spec_tok(old(self).tokens@, 1) matches Token::Identificador(s) && p.nombre@
                    == s@)
                &&& spec_tok(old(self).tokens@, 2) == Token::PuntoYComa
            }),
    {
        match self.validate_syntax() {
            Ok(()) => {}
            Err(e) => {
                return Err(e);
            }
        }
        let copia = Self::clonar_tokens(&self.tokens);
        let mut recursive_parser = RecursiveParser::new(copia);
        match recursive_parser.parse() {
            Ok(program) => Ok(program),
            Err(errors) => {
                let mut msg = String::from_str("Error inesperado en la construcción del árbol");
                if errors.len() > 0 {
                    msg = msg.concat(": ").concat(errors[0].message.as_str());
                }
                Err(msg)
            }
        }
    }

    /// A copy of the token records, equal to the original element by
    /// element.
    fn clonar_tokens(v: &Vec<TokenInfo>) -> (r: Vec<TokenInfo>)
        ensures
            r@ == v@,
    {
        let mut r: Vec<TokenInfo> = Vec::new();
        let mut i: usize = 0;
        while i < v.len()
            invariant
                i <= v@.len(),
                r@ == v@.subrange(0, i as int),
            decreases v@.len() - i,
        {
            let t = &v[i];
            let info = TokenInfo {
                token: Self::clonar_token(&t.token),
                line: t.line,
                column: t.column,
                length: t.length,
                lexeme: t.lexeme.clone(),
            };
            proof {
                assert(info == v@[i as int]);
            }
            r.push(info);
            i = i + 1;
            proof {
                assert(r@ =~= v@.subrange(0, i as int));
            }
        }
        proof {
            assert(r@ =~= v@);
        }
        r
    }
}

} // verus!
