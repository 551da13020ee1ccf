//! The recursive-descent parser (the second pass): re-consumes the token
//! stream after the predictive validator accepted it and builds the syntax
//! tree, with expression precedence climbing and field/index access chains.

use vstd::prelude::*;
use crate::ast::{
    CoaxialDecl, ConcentradorDecl, Definitions, Direccion, Expr, Location, MaquinaDecl, Modulo,
    OpLogico, OpRelacional, Program, Statement,
};
use crate::lexer::{spec_token_eq, token_eq, Token, TokenInfo};

verus! {

/// A syntax error of the tree-building pass, with its source location.
#[derive(Debug, Clone, PartialEq)]
pub struct ParseError {
    pub message: String,
    pub location: Location,
}

impl ParseError {
    pub fn new(message: String, location: Location) -> (r: ParseError)
        ensures
            r.message == message,
            r.location == location,
    {
        ParseError { message, location }
    }
}

/// The token under a parser cursor; one past the end it reads as the final
/// period, which acts as the end-of-input marker here.
pub open spec fn spec_tok(tokens: Seq<TokenInfo>, pos: int) -> Token {
    if 0 <= pos < tokens.len() {
        tokens[pos].token
    } else {
        Token::Punto
    }
}

/// A short description of a token for error messages.
fn describir_token(t: &Token) -> String {
    match t {
        Token::Programa => String::from_str("'programa'"),
        Token::Define => String::from_str("'define'"),
        Token::Maquinas => String::from_str("'maquinas'"),
        Token::Concentradores => String::from_str("'concentradores'"),
        Token::Coaxial => String::from_str("'coaxial'"),
        Token::Segmento => String::from_str("'segmento'"),
        Token::Modulo => String::from_str("'modulo'"),
        Token::Inicio => String::from_str("'inicio'"),
        Token::Fin => String::from_str("'fin'"),
        Token::Si => String::from_str("'si'"),
        Token::Sino => String::from_str("'sino'"),
        Token::Coloca => String::from_str("'coloca'"),
        Token::ColocaCoaxial => String::from_str("'colocaCoaxial'"),
        Token::ColocaCoaxialConcentrador => String::from_str("'colocaCoaxialConcentrador'"),
        Token::UneMaquinaPuerto => String::from_str("'uneMaquinaPuerto'"),
        Token::AsignaPuerto => String::from_str("'asignaPuerto'"),
        Token::MaquinaCoaxial => String::from_str("'maquinaCoaxial'"),
        Token::AsignaMaquinaCoaxial => String::from_str("'asignaMaquinaCoaxial'"),
        Token::Escribe => String::from_str("'escribe'"),
        Token::Arriba => String::from_str("'arriba'"),
        Token::Abajo => String::from_str("'abajo'"),
        Token::Izquierda => String::from_str("'izquierda'"),
        Token::Derecha => String::from_str("'derecha'"),
        Token::Igual => String::from_str("'='"),
        Token::Menor => String::from_str("'<'"),
        Token::Mayor => String::from_str("'>'"),
        Token::MenorIgual => String::from_str("'<='"),
        Token::MayorIgual => String::from_str("'>='"),
        Token::Diferente => String::from_str("'<>'"),
        Token::And => String::from_str("'&&'"),
        Token::Or => String::from_str("'||'"),
        Token::Not => String::from_str("'!'"),
        Token::Coma => String::from_str("','"),
        Token::PuntoYComa => String::from_str("';'"),
        Token::Punto => String::from_str("'.'"),
        Token::ParenIzq => String::from_str("'('"),
        Token::ParenDer => String::from_str("')'"),
        Token::CorcheteIzq => String::from_str("'['"),
        Token::CorcheteDer => String::from_str("']'"),
        Token::Identificador(s) => String::from_str("identificador '").concat(s.as_str()).concat(
            "'"),
        Token::Numero(_) => String::from_str("número"),
        Token::Cadena(_) => String::from_str("cadena"),
        Token::Whitespace => String::from_str("espacio"),
    }
}

/// The tree-building parser: the token stream and a cursor into it.
pub struct Parser {
    pub tokens: Vec<TokenInfo>,
    pub current: usize,
}

impl Parser {
    /// The cursor stays within one past the last token.
    pub open spec fn wf(self) -> bool {
        self.current <= self.tokens@.len()
    }

    pub fn new(tokens: Vec<TokenInfo>) -> (r: Parser)
        ensures
            r.tokens == tokens,
            r.current == 0,
            r.wf(),
    {
        Parser { tokens, current: 0 }
    }

    /// Whether the token under the cursor equals `t` (payloads by content).
    fn peek_eq(&self, t: &Token) -> (r: bool)
        ensures
            r == spec_token_eq(spec_tok(self.tokens@, self.current as int), *t),
    {
        if self.current < self.tokens.len() {
            token_eq(&self.tokens[self.current].token, t)
        } else {
            let punto = Token::Punto;
            token_eq(&punto, t)
        }
    }

    /// The location of the token under the cursor.
    fn current_location(&self) -> (r: Location)
        ensures
            self.wf() ==> r == if (self.current as int) < self.tokens@.len() {
                Location {
                    line: self.tokens@[self.current as int].line,
                    column: self.tokens@[self.current as int].column,
                    length: self.tokens@[self.current as int].length,
                }
            } else {
                Location { line: 0, column: 0, length: 0 }
            },
    {
        if self.current < self.tokens.len() {
            Location::from_token(&self.tokens[self.current])
        } else {
            Location::unknown()
        }
    }

    /// Moves the cursor past the current token.
    fn advance(&mut self)
        requires
            old(self).wf(),
        ensures
            final(self).tokens == old(self).tokens,
            final(self).wf(),
            old(self).current < old(self).tokens@.len() ==> final(self).current == old(
                self).current + 1,
            old(self).current >= old(self).tokens@.len() ==> final(self).current == old(
                self).current,
    {
        if self.current < self.tokens.len() {
            self.current = self.current + 1;
        }
    }

    /// Consumes the current token when it equals the expected one; otherwise
    /// reports what was found, leaving the cursor in place.
    fn expect(&mut self, expected: Token) -> (r: Result<(), ParseError>)
        requires
            old(self).wf(),
        ensures
            final(self).tokens == old(self).tokens,
            final(self).wf(),
            match r {
                Ok(()) => spec_token_eq(spec_tok(old(self).tokens@, old(self).current as int),
                    expected) && final(self).current == old(self).current + 1 && old(self).current
                    < old(self).tokens@.len(),
                Err(_) => final(self).current == old(self).current && (!spec_token_eq(
                    spec_tok(old(self).tokens@, old(self).current as int), expected) || old(
                    self).current >= old(self).tokens@.len()),
            },
    {
        if self.current < self.tokens.len() {
            if token_eq(&self.tokens[self.current].token, &expected) {
                self.current = self.current + 1;
                return Ok(());
            }
        } else {
            let punto = Token::Punto;
            if token_eq(&punto, &expected) {
                // The cursor cannot move past the end; the synthetic period
                // at the end is never consumed.
                let loc = self.current_location();
                let msg = String::from_str("Token inesperado al final del archivo");
                return Err(ParseError::new(msg, loc));
            }
        }
        let loc = self.current_location();
        let encontrado = if self.current < self.tokens.len() {
            describir_token(&self.tokens[self.current].token)
        } else {
            String::from_str("fin de archivo")
        };
        let msg = String::from_str("Se esperaba ").concat(describir_token(&expected).as_str())
            .concat(", se encontró ").concat(encontrado.as_str());
        Err(ParseError::new(msg, loc))
    }

    /// Takes the current token as an identifier and hands its name back.
    fn esperar_identificador(&mut self, contexto: &str) -> (r: Result<String, ParseError>)
        requires
            old(self).wf(),
        ensures
            final(self).tokens == old(self).tokens,
            final(self).wf(),
            match r {
                Ok(n) => final(self).current == old(self).current + 1 && old(self).current < old(
                    self).tokens@.len() && (spec_tok(old(self).tokens@, old(self).current as int)
                    matches Token::Identificador(s) && n@ == s@),
                Err(_) => final(self).current == old(self).current,
            },
    {
        if self.current < self.tokens.len() {
            let nombre_opt: Option<String> = match &self.tokens[self.current].token {
                Token::Identificador(n) => Some(n.clone()),
                _ => None,
            };
            if let Some(n) = nombre_opt {
                self.current = self.current + 1;
                return Ok(n);
            }
        }
        let loc = self.current_location();
        Err(ParseError::new(String::from_str(contexto), loc))
    }

    /// Takes the current token as a number literal.
    fn esperar_numero(&mut self, contexto: &str) -> (r: Result<i32, ParseError>)
        requires
            old(self).wf(),
        ensures
            final(self).tokens == old(self).tokens,
            final(self).wf(),
            match r {
                Ok(_) => final(self).current == old(self).current + 1 && old(self).current < old(
                    self).tokens@.len(),
                Err(_) => final(self).current == old(self).current,
            },
    {
        if self.current < self.tokens.len() {
            let valor_opt: Option<i32> = match &self.tokens[self.current].token {
                Token::Numero(n) => Some(*n),
                _ => None,
            };
            if let Some(n) = valor_opt {
                self.current = self.current + 1;
                return Ok(n);
            }
        }
        let loc = self.current_location();
        Err(ParseError::new(String::from_str(contexto), loc))
    }

    /// The name a token denotes in field position: an identifier's own text,
    /// or one of the reserved words that double as field names.
    fn token_to_field_name(&self, token: &Token) -> (r: Option<String>)
        ensures
            match r {
                Some(_) => token is Identificador || *token == Token::Coaxial || *token
                    == Token::Segmento || *token == Token::Maquinas || *token
                    == Token::Concentradores || *token == Token::Derecha || *token
                    == Token::Izquierda || *token == Token::Arriba || *token == Token::Abajo,
                None => !(token is Identificador),
            },
    {
        match token {
            Token::Identificador(s) => Some(s.clone()),
            Token::Coaxial => Some(String::from_str("coaxial")),
            Token::Segmento => Some(String::from_str("segmento")),
            Token::Maquinas => Some(String::from_str("maquinas")),
            Token::Concentradores => Some(String::from_str("concentradores")),
            Token::Derecha => Some(String::from_str("derecha")),
            Token::Izquierda => Some(String::from_str("izquierda")),
            Token::Arriba => Some(String::from_str("arriba")),
            Token::Abajo => Some(String::from_str("abajo")),
            _ => None,
        }
    }

    /// Parses the whole program; the single error of the failing production
    /// is reported.
    pub fn parse(&mut self) -> (r: Result<Program, Vec<ParseError>>)
        requires
            old(self).wf(),
        ensures
            final(self).tokens == old(self).tokens,
            final(self).wf(),
            r is Err ==> r->Err_0@.len() > 0,
            r matches Ok(p) ==> ({
                let c = old(self).current as int;
                &&& old(self).tokens@.len() >= c + 3
                &&& spec_tok(old(self).tokens@, c) == Token::Programa
                &&& (spec_tok(old(self).tokens@, c + 1) matches Token::Identificador(s)
                    && p.nombre@ == s@)
                &&& spec_tok(old(self).tokens@, c + 2) == Token::PuntoYComa
            }),
    {
        match self.parse_programa() {
            Ok(program) => Ok(program),
            Err(e) => {
                let mut errors: Vec<ParseError> = Vec::new();
                errors.push(e);
                Err(errors)
            }
        }
    }

    /// `programa NAME ; definitions modules* inicio statements fin .`
    fn parse_programa(&mut self) -> (r: Result<Program, ParseError>)
        requires
            old(self).wf(),
        ensures
            final(self).tokens == old(self).tokens,
            final(self).wf(),
            final(self).current >= old(self).current,
            r matches Ok(p) ==> ({
                let c = old(self).current as int;
                &&& old(self).tokens@.len() >= c + 3
                &&& spec_tok(old(self).tokens@, c) == Token::Programa
                &&& (spec_tok(old(self).tokens@, c + 1) matches Token::Identificador(s)
                    && p.nombre@ == s@)
                &&& spec_tok(old(self).tokens@, c + 2) == Token::PuntoYComa
            }),
        decreases old(self).tokens@.len() - old(self).current, 20int,
    {
        let loc = self.current_location();
        self.expect(Token::Programa)?;
        let nombre = self.esperar_identificador("Se esperaba nombre del programa")?;
        self.expect(Token::PuntoYComa)?;
        let definiciones = self.parse_definiciones()?;

        let mut modulos: Vec<Modulo> = Vec::new();
        while self.peek_eq(&Token::Modulo)
            invariant
                self.wf(),
                self.tokens == old(self).tokens,
                self.current >= old(self).current,
            decreases self.tokens@.len() - self.current,
        {
            let m = self.parse_modulo()?;
            modulos.push(m);
        }

        self.expect(Token::Inicio)?;
        let sentencias = self.parse_sentencias()?;
        self.expect(Token::Fin)?;
        self.expect(Token::Punto)?;

        Ok(Program { nombre, definiciones, modulos, sentencias, location: loc })
    }

    /// `modulo NAME ; inicio statements fin`
    fn parse_modulo(&mut self) -> (r: Result<Modulo, ParseError>)
        requires
            old(self).wf(),
            spec_token_eq(spec_tok(old(self).tokens@, old(self).current as int), Token::Modulo),
        ensures
            final(self).tokens == old(self).tokens,
            final(self).wf(),
            final(self).current > old(self).current,
        decreases old(self).tokens@.len() - old(self).current, 15int,
    {
        let loc = self.current_location();
        self.expect(Token::Modulo)?;
        let nombre = self.esperar_identificador("Se esperaba nombre del módulo")?;
        self.expect(Token::PuntoYComa)?;
        self.expect(Token::Inicio)?;
        let sentencias = self.parse_sentencias()?;
        self.expect(Token::Fin)?;
        Ok(Modulo { nombre, sentencias, location: loc })
    }

    /// The three optional declaration groups, each introduced by `define`.
    fn parse_definiciones(&mut self) -> (r: Result<Definitions, ParseError>)
        requires
            old(self).wf(),
        ensures
            final(self).tokens == old(self).tokens,
            final(self).wf(),
            final(self).current >= old(self).current,
        decreases old(self).tokens@.len() - old(self).current, 15int,
    {
        let loc = self.current_location();
        let mut maquinas: Vec<MaquinaDecl> = Vec::new();
        let mut concentradores: Vec<ConcentradorDecl> = Vec::new();
        let mut coaxiales: Vec<CoaxialDecl> = Vec::new();

        if self.peek_eq(&Token::Define) {
            self.advance();
            if self.peek_eq(&Token::Maquinas) {
                self.advance();
                maquinas = self.parse_lista_maquinas()?;
                self.expect(Token::PuntoYComa)?;
            } else {
                // Not a machine group: step back to the `define`.
                self.current = self.current - 1;
            }
        }

        if self.peek_eq(&Token::Define) {
            self.advance();
            if self.peek_eq(&Token::Concentradores) {
                self.advance();
                concentradores = self.parse_lista_concentradores()?;
                self.expect(Token::PuntoYComa)?;
            } else {
                self.current = self.current - 1;
            }
        }

        if self.peek_eq(&Token::Define) {
            self.advance();
            if self.peek_eq(&Token::Coaxial) || self.peek_eq(&Token::Segmento) {
                self.advance();
                coaxiales = self.parse_lista_coaxial()?;
                self.expect(Token::PuntoYComa)?;
            } else {
                self.current = self.current - 1;
            }
        }

        Ok(Definitions { maquinas, concentradores, coaxiales, location: loc })
    }

    /// `NAME ("," NAME)*`
    fn parse_lista_maquinas(&mut self) -> (r: Result<Vec<MaquinaDecl>, ParseError>)
        requires
            old(self).wf(),
        ensures
            final(self).tokens == old(self).tokens,
            final(self).wf(),
            r matches Ok(v) ==> v@.len() >= 1,
            final(self).current >= old(self).current,
        decreases old(self).tokens@.len() - old(self).current, 14int,
    {
        let mut maquinas: Vec<MaquinaDecl> = Vec::new();
        loop
            invariant
                self.wf(),
                self.tokens == old(self).tokens,
                self.current >= old(self).current,
            decreases self.tokens@.len() - self.current,
        {
            let loc = self.current_location();
            let nombre = self.esperar_identificador("Se esperaba identificador de máquina")?;
            maquinas.push(MaquinaDecl { nombre, location: loc });
            if !self.peek_eq(&Token::Coma) {
                return Ok(maquinas);
            }
            self.advance();
        }
    }

    /// `NAME = NUMBER [. 1]` declarations separated by commas.
    fn parse_lista_concentradores(&mut self) -> (r: Result<Vec<ConcentradorDecl>, ParseError>)
        requires
            old(self).wf(),
        ensures
            final(self).tokens == old(self).tokens,
            final(self).wf(),
            r matches Ok(v) ==> v@.len() >= 1,
            final(self).current >= old(self).current,
        decreases old(self).tokens@.len() - old(self).current, 14int,
    {
        let mut concentradores: Vec<ConcentradorDecl> = Vec::new();
        loop
            invariant
                self.wf(),
                self.tokens == old(self).tokens,
                self.current >= old(self).current,
            decreases self.tokens@.len() - self.current,
        {
            let loc = self.current_location();
            let nombre = self.esperar_identificador("Se esperaba nombre de concentrador")?;
            self.expect(Token::Igual)?;
            let puertos = self.esperar_numero("Se esperaba número de puertos")?;
            let tiene_coaxial = if self.peek_eq(&Token::Punto) {
                self.advance();
                let marca = self.esperar_numero(
                    "Después del punto debe ir 1 para indicar salida coaxial")?;
                if marca != 1 {
                    let loc2 = self.current_location();
                    return Err(ParseError::new(String::from_str(
                        "Después del punto debe ir 1 para indicar salida coaxial"), loc2));
                }
                true
            } else {
                false
            };
            concentradores.push(ConcentradorDecl { nombre, puertos, tiene_coaxial, location: loc });
            if !self.peek_eq(&Token::Coma) {
                return Ok(concentradores);
            }
            self.advance();
        }
    }

    /// `NAME = NUMBER` declarations separated by commas.
    fn parse_lista_coaxial(&mut self) -> (r: Result<Vec<CoaxialDecl>, ParseError>)
        requires
            old(self).wf(),
        ensures
            final(self).tokens == old(self).tokens,
            final(self).wf(),
            r matches Ok(v) ==> v@.len() >= 1,
            final(self).current >= old(self).current,
        decreases old(self).tokens@.len() - old(self).current, 14int,
    {
        let mut coaxiales: Vec<CoaxialDecl> = Vec::new();
        loop
            invariant
                self.wf(),
                self.tokens == old(self).tokens,
                self.current >= old(self).current,
            decreases self.tokens@.len() - self.current,
        {
            let loc = self.current_location();
            let nombre = self.esperar_identificador("Se esperaba nombre de coaxial")?;
            self.expect(Token::Igual)?;
            let longitud = self.esperar_numero("Se esperaba longitud del coaxial")?;
            coaxiales.push(CoaxialDecl { nombre, longitud, location: loc });
            if !self.peek_eq(&Token::Coma) {
                return Ok(coaxiales);
            }
            self.advance();
        }
    }

    /// Statements until the closing `fin` (or the end of the tokens).
    fn parse_sentencias(&mut self) -> (r: Result<Vec<Statement>, ParseError>)
        requires
            old(self).wf(),
        ensures
            final(self).tokens == old(self).tokens,
            final(self).wf(),
            final(self).current >= old(self).current,
        decreases old(self).tokens@.len() - old(self).current, 12int,
    {
        let mut sentencias: Vec<Statement> = Vec::new();
        loop
            invariant
                self.wf(),
                self.tokens == old(self).tokens,
                self.current >= old(self).current,
            decreases self.tokens@.len() - self.current,
        {
            if self.peek_eq(&Token::Fin) {
                return Ok(sentencias);
            }
            if self.current >= self.tokens.len() {
                return Ok(sentencias);
            }
            let s = self.parse_sentencia()?;
            sentencias.push(s);
        }
    }

    /// One statement, chosen by its leading token.
    fn parse_sentencia(&mut self) -> (r: Result<Statement, ParseError>)
        requires
            old(self).wf(),
            old(self).current < old(self).tokens@.len(),
        ensures
            final(self).tokens == old(self).tokens,
            final(self).wf(),
            r is Ok ==> final(self).current > old(self).current,
            final(self).current >= old(self).current,
        decreases old(self).tokens@.len() - old(self).current, 11int,
    {
        let loc = self.current_location();
        if self.peek_eq(&Token::Coloca) {
            return self.parse_coloca();
        }
        if self.peek_eq(&Token::ColocaCoaxial) {
            return self.parse_coloca_coaxial();
        }
        if self.peek_eq(&Token::ColocaCoaxialConcentrador) {
            return self.parse_coloca_coaxial_concentrador();
        }
        if self.peek_eq(&Token::UneMaquinaPuerto) {
            return self.parse_une_maquina_puerto();
        }
        if self.peek_eq(&Token::AsignaPuerto) {
            return self.parse_asigna_puerto();
        }
        if self.peek_eq(&Token::MaquinaCoaxial) {
            return self.parse_maquina_coaxial();
        }
        if self.peek_eq(&Token::AsignaMaquinaCoaxial) {
            return self.parse_asigna_maquina_coaxial();
        }
        if self.peek_eq(&Token::Escribe) {
            return self.parse_escribe();
        }
        if self.peek_eq(&Token::Si) {
            return self.parse_si();
        }
        let es_identificador = match &self.tokens[self.current].token {
            Token::Identificador(_) => true,
            _ => false,
        };
        if es_identificador {
            let nombre = self.esperar_identificador("Se esperaba identificador")?;
            self.expect(Token::PuntoYComa)?;
            return Ok(Statement::LlamadaModulo { nombre, location: loc });
        }
        let encontrado = describir_token(&self.tokens[self.current].token);
        let msg = String::from_str("Sentencia inválida: ").concat(encontrado.as_str());
        Err(ParseError::new(msg, loc))
    }

    /// `coloca(objeto, x, y);`
    fn parse_coloca(&mut self) -> (r: Result<Statement, ParseError>)
        requires
            old(self).wf(),
        ensures
            final(self).tokens == old(self).tokens,
            final(self).wf(),
            r is Ok ==> final(self).current > old(self).current,
            r matches Ok(s) ==> s is Coloca,
            final(self).current >= old(self).current,
        decreases old(self).tokens@.len() - old(self).current, 10int,
    {
        let loc = self.current_location();
        self.expect(Token::Coloca)?;
        self.expect(Token::ParenIzq)?;
        let objeto = self.esperar_identificador("Se esperaba nombre de objeto en coloca()")?;
        self.expect(Token::Coma)?;
        let x = self.parse_expresion()?;
        self.expect(Token::Coma)?;
        let y = self.parse_expresion()?;
        self.expect(Token::ParenDer)?;
        self.expect(Token::PuntoYComa)?;
        Ok(Statement::Coloca { objeto, x, y, location: loc })
    }

    /// `colocaCoaxial(coaxial, x, y, direccion);`
    fn parse_coloca_coaxial(&mut self) -> (r: Result<Statement, ParseError>)
        requires
            old(self).wf(),
        ensures
            final(self).tokens == old(self).tokens,
            final(self).wf(),
            r is Ok ==> final(self).current > old(self).current,
            r matches Ok(s) ==> s is ColocaCoaxial,
            final(self).current >= old(self).current,
        decreases old(self).tokens@.len() - old(self).current, 10int,
    {
        let loc = self.current_location();
        self.expect(Token::ColocaCoaxial)?;
        self.expect(Token::ParenIzq)?;
        let coaxial = self.esperar_identificador("Se esperaba nombre de coaxial")?;
        self.expect(Token::Coma)?;
        let x = self.parse_expresion()?;
        self.expect(Token::Coma)?;
        let y = self.parse_expresion()?;
        self.expect(Token::Coma)?;
        let direccion = if self.peek_eq(&Token::Arriba) {
            self.advance();
            Direccion::Arriba
        } else if self.peek_eq(&Token::Abajo) {
            self.advance();
            Direccion::Abajo
        } else if self.peek_eq(&Token::Izquierda) {
            self.advance();
            Direccion::Izquierda
        } else if self.peek_eq(&Token::Derecha) {
            self.advance();
            Direccion::Derecha
        } else {
            let loc2 = self.current_location();
            return Err(ParseError::new(String::from_str(
                "Se esperaba dirección (arriba, abajo, izquierda, derecha)"), loc2));
        };
        self.expect(Token::ParenDer)?;
        self.expect(Token::PuntoYComa)?;
        Ok(Statement::ColocaCoaxial { coaxial, x, y, direccion, location: loc })
    }

    /// `colocaCoaxialConcentrador(coaxial, concentrador);`
    fn parse_coloca_coaxial_concentrador(&mut self) -> (r: Result<Statement, ParseError>)
        requires
            old(self).wf(),
        ensures
            final(self).tokens == old(self).tokens,
            final(self).wf(),
            r is Ok ==> final(self).current > old(self).current,
            r matches Ok(s) ==> s is ColocaCoaxialConcentrador,
            final(self).current >= old(self).current,
        decreases old(self).tokens@.len() - old(self).current, 10int,
    {
        let loc = self.current_location();
        self.expect(Token::ColocaCoaxialConcentrador)?;
        self.expect(Token::ParenIzq)?;
        let coaxial = self.esperar_identificador("Se esperaba nombre de coaxial")?;
        self.expect(Token::Coma)?;
        let concentrador = self.esperar_identificador("Se esperaba nombre de concentrador")?;
        self.expect(Token::ParenDer)?;
        self.expect(Token::PuntoYComa)?;
        Ok(Statement::ColocaCoaxialConcentrador { coaxial, concentrador, location: loc })
    }

    /// `uneMaquinaPuerto(maquina, concentrador, puerto);`
    fn parse_une_maquina_puerto(&mut self) -> (r: Result<Statement, ParseError>)
        requires
            old(self).wf(),
        ensures
            final(self).tokens == old(self).tokens,
            final(self).wf(),
            r is Ok ==> final(self).current > old(self).current,
            r matches Ok(s) ==> s is UneMaquinaPuerto,
            final(self).current >= old(self).current,
        decreases old(self).tokens@.len() - old(self).current, 10int,
    {
        let loc = self.current_location();
        self.expect(Token::UneMaquinaPuerto)?;
        self.expect(Token::ParenIzq)?;
        let maquina = self.esperar_identificador("Se esperaba nombre de máquina")?;
        self.expect(Token::Coma)?;
        let concentrador = self.esperar_identificador("Se esperaba nombre de concentrador")?;
        self.expect(Token::Coma)?;
        let puerto = self.parse_expresion()?;
        self.expect(Token::ParenDer)?;
        self.expect(Token::PuntoYComa)?;
        Ok(Statement::UneMaquinaPuerto { maquina, concentrador, puerto, location: loc })
    }

    /// `asignaPuerto(maquina, concentrador);`
    fn parse_asigna_puerto(&mut self) -> (r: Result<Statement, ParseError>)
        requires
            old(self).wf(),
        ensures
            final(self).tokens == old(self).tokens,
            final(self).wf(),
            r is Ok ==> final(self).current > old(self).current,
            r matches Ok(s) ==> s is AsignaPuerto,
            final(self).current >= old(self).current,
        decreases old(self).tokens@.len() - old(self).current, 10int,
    {
        let loc = self.current_location();
        self.expect(Token::AsignaPuerto)?;
        self.expect(Token::ParenIzq)?;
        let maquina = self.esperar_identificador("Se esperaba nombre de máquina")?;
        self.expect(Token::Coma)?;
        let concentrador = self.esperar_identificador("Se esperaba nombre de concentrador")?;
        self.expect(Token::ParenDer)?;
        self.expect(Token::PuntoYComa)?;
        Ok(Statement::AsignaPuerto { maquina, concentrador, location: loc })
    }

    /// `maquinaCoaxial(maquina, coaxial, posicion);`
    fn parse_maquina_coaxial(&mut self) -> (r: Result<Statement, ParseError>)
        requires
            old(self).wf(),
        ensures
            final(self).tokens == old(self).tokens,
            final(self).wf(),
            r is Ok ==> final(self).current > old(self).current,
            r matches Ok(s) ==> s is MaquinaCoaxial,
            final(self).current >= old(self).current,
        decreases old(self).tokens@.len() - old(self).current, 10int,
    {
        let loc = self.current_location();
        self.expect(Token::MaquinaCoaxial)?;
        self.expect(Token::ParenIzq)?;
        let maquina = self.esperar_identificador("Se esperaba nombre de máquina")?;
        self.expect(Token::Coma)?;
        let coaxial = self.esperar_identificador("Se esperaba nombre de coaxial")?;
        self.expect(Token::Coma)?;
        let posicion = self.parse_expresion()?;
        self.expect(Token::ParenDer)?;
        self.expect(Token::PuntoYComa)?;
        Ok(Statement::MaquinaCoaxial { maquina, coaxial, posicion, location: loc })
    }

    /// `asignaMaquinaCoaxial(maquina, coaxial);`
    fn parse_asigna_maquina_coaxial(&mut self) -> (r: Result<Statement, ParseError>)
        requires
            old(self).wf(),
        ensures
            final(self).tokens == old(self).tokens,
            final(self).wf(),
            r is Ok ==> final(self).current > old(self).current,
            r matches Ok(s) ==> s is AsignaMaquinaCoaxial,
            final(self).current >= old(self).current,
        decreases old(self).tokens@.len() - old(self).current, 10int,
    {
        let loc = self.current_location();
        self.expect(Token::AsignaMaquinaCoaxial)?;
        self.expect(Token::ParenIzq)?;
        let maquina = self.esperar_identificador("Se esperaba nombre de máquina")?;
        self.expect(Token::Coma)?;
        let coaxial = self.esperar_identificador("Se esperaba nombre de coaxial")?;
        self.expect(Token::ParenDer)?;
        self.expect(Token::PuntoYComa)?;
        Ok(Statement::AsignaMaquinaCoaxial { maquina, coaxial, location: loc })
    }

    /// `escribe(expresion);`
    fn parse_escribe(&mut self) -> (r: Result<Statement, ParseError>)
        requires
            old(self).wf(),
        ensures
            final(self).tokens == old(self).tokens,
            final(self).wf(),
            r is Ok ==> final(self).current > old(self).current,
            r matches Ok(s) ==> s is Escribe,
            final(self).current >= old(self).current,
        decreases old(self).tokens@.len() - old(self).current, 10int,
    {
        let loc = self.current_location();
        self.expect(Token::Escribe)?;
        self.expect(Token::ParenIzq)?;
        let contenido = self.parse_expresion()?;
        self.expect(Token::ParenDer)?;
        self.expect(Token::PuntoYComa)?;
        Ok(Statement::Escribe { contenido, location: loc })
    }

    /// `si cond inicio ... fin [sino inicio ... fin]`
    fn parse_si(&mut self) -> (r: Result<Statement, ParseError>)
        requires
            old(self).wf(),
        ensures
            final(self).tokens == old(self).tokens,
            final(self).wf(),
            r is Ok ==> final(self).current > old(self).current,
            r matches Ok(s) ==> s is Si,
            final(self).current >= old(self).current,
        decreases old(self).tokens@.len() - old(self).current, 10int,
    {
        let loc = self.current_location();
        self.expect(Token::Si)?;
        let condicion = self.parse_expresion()?;
        self.expect(Token::Inicio)?;
        let entonces = self.parse_sentencias()?;
        self.expect(Token::Fin)?;
        let sino = if self.peek_eq(&Token::Sino) {
            self.advance();
            self.expect(Token::Inicio)?;
            let sentencias_sino = self.parse_sentencias()?;
            self.expect(Token::Fin)?;
            Some(sentencias_sino)
        } else {
            None
        };
        Ok(Statement::Si { condicion, entonces, sino, location: loc })
    }

    /// An expression; `||` binds loosest.
    fn parse_expresion(&mut self) -> (r: Result<Expr, ParseError>)
        requires
            old(self).wf(),
        ensures
            final(self).tokens == old(self).tokens,
            final(self).wf(),
            r is Ok ==> final(self).current > old(self).current,
            final(self).current >= old(self).current,
        decreases old(self).tokens@.len() - old(self).current, 8int,
    {
        self.parse_expresion_or()
    }

    /// A disjunction of conjunctions.
    fn parse_expresion_or(&mut self) -> (r: Result<Expr, ParseError>)
        requires
            old(self).wf(),
        ensures
            final(self).tokens == old(self).tokens,
            final(self).wf(),
            r is Ok ==> final(self).current > old(self).current,
            final(self).current >= old(self).current,
        decreases old(self).tokens@.len() - old(self).current, 7int,
    {
        let mut izq = self.parse_expresion_and()?;
        while self.peek_eq(&Token::Or)
            invariant
                self.wf(),
                self.tokens == old(self).tokens,
                self.current > old(self).current,
            decreases self.tokens@.len() - self.current,
        {
            self.advance();
            let der = self.parse_expresion_and()?;
            izq = Expr::Logico { izq: Box::new(izq), op: OpLogico::Or, der: Box::new(der) };
        }
        Ok(izq)
    }

    /// A conjunction of relational expressions.
    fn parse_expresion_and(&mut self) -> (r: Result<Expr, ParseError>)
        requires
            old(self).wf(),
        ensures
            final(self).tokens == old(self).tokens,
            final(self).wf(),
            r is Ok ==> final(self).current > old(self).current,
            final(self).current >= old(self).current,
        decreases old(self).tokens@.len() - old(self).current, 6int,
    {
        let mut izq = self.parse_expresion_relacional()?;
        while self.peek_eq(&Token::And)
            invariant
                self.wf(),
                self.tokens == old(self).tokens,
                self.current > old(self).current,
            decreases self.tokens@.len() - self.current,
        {
            self.advance();
            let der = self.parse_expresion_relacional()?;
            izq = Expr::Logico { izq: Box::new(izq), op: OpLogico::And, der: Box::new(der) };
        }
        Ok(izq)
    }

    /// An optional relational comparison between two negation levels.
    fn parse_expresion_relacional(&mut self) -> (r: Result<Expr, ParseError>)
        requires
            old(self).wf(),
        ensures
            final(self).tokens == old(self).tokens,
            final(self).wf(),
            r is Ok ==> final(self).current > old(self).current,
            final(self).current >= old(self).current,
        decreases old(self).tokens@.len() - old(self).current, 5int,
    {
        let izq = self.parse_expresion_not()?;
        let op = if self.peek_eq(&Token::Igual) {
            OpRelacional::Igual
        } else if self.peek_eq(&Token::Diferente) {
            OpRelacional::Diferente
        } else if self.peek_eq(&Token::Menor) {
            OpRelacional::Menor
        } else if self.peek_eq(&Token::Mayor) {
            OpRelacional::Mayor
        } else if self.peek_eq(&Token::MenorIgual) {
            OpRelacional::MenorIgual
        } else if self.peek_eq(&Token::MayorIgual) {
            OpRelacional::MayorIgual
        } else {
            return Ok(izq);
        };
        self.advance();
        let der = self.parse_expresion_not()?;
        Ok(Expr::Relacional { izq: Box::new(izq), op, der: Box::new(der) })
    }

    /// A chain of logical negations over a primary expression.
    fn parse_expresion_not(&mut self) -> (r: Result<Expr, ParseError>)
        requires
            old(self).wf(),
        ensures
            final(self).tokens == old(self).tokens,
            final(self).wf(),
            r is Ok ==> final(self).current > old(self).current,
            final(self).current >= old(self).current,
        decreases old(self).tokens@.len() - old(self).current, 4int,
    {
        if self.peek_eq(&Token::Not) {
            self.advance();
            let inner = self.parse_expresion_not()?;
            return Ok(Expr::Not(Box::new(inner)));
        }
        self.parse_expresion_primaria()
    }

    /// A literal, an identifier with optional accesses, or a parenthesized
    /// expression.
    fn parse_expresion_primaria(&mut self) -> (r: Result<Expr, ParseError>)
        requires
            old(self).wf(),
        ensures
            final(self).tokens == old(self).tokens,
            final(self).wf(),
            r is Ok ==> final(self).current > old(self).current,
            final(self).current >= old(self).current,
        decreases old(self).tokens@.len() - old(self).current, 3int,
    {
        if self.peek_eq(&Token::ParenIzq) {
            self.advance();
            let expr = self.parse_expresion()?;
            self.expect(Token::ParenDer)?;
            return Ok(expr);
        }
        if self.current < self.tokens.len() {
            let literal: Option<Expr> = match &self.tokens[self.current].token {
                Token::Numero(n) => Some(Expr::Numero(*n)),
                Token::Cadena(s) => Some(Expr::Cadena(s.clone())),
                _ => None,
            };
            if let Some(e) = literal {
                self.advance();
                return Ok(e);
            }
            let nombre_opt: Option<String> = match &self.tokens[self.current].token {
                Token::Identificador(s) => Some(s.clone()),
                _ => None,
            };
            if let Some(nombre) = nombre_opt {
                self.advance();
                return self.parse_accesos(nombre);
            }
            let encontrado = describir_token(&self.tokens[self.current].token);
            let msg = String::from_str("Se esperaba una expresión, se encontró ").concat(
                encontrado.as_str());
            let loc = self.current_location();
            return Err(ParseError::new(msg, loc));
        }
        let loc = self.current_location();
        Err(ParseError::new(String::from_str("Se esperaba una expresión"), loc))
    }

    /// The optional `.campo` or `[indice]` accesses after an identifier.
    fn parse_accesos(&mut self, objeto: String) -> (r: Result<Expr, ParseError>)
        requires
            old(self).wf(),
        ensures
            final(self).tokens == old(self).tokens,
            final(self).wf(),
            final(self).current >= old(self).current,
        decreases old(self).tokens@.len() - old(self).current, 2int,
    {
        if self.peek_eq(&Token::Punto) {
            self.advance();
            let campo_opt = if self.current < self.tokens.len() {
                self.token_to_field_name(&self.tokens[self.current].token)
            } else {
                None
            };
            match campo_opt {
                Some(c) => {
                    self.advance();
                    if self.peek_eq(&Token::CorcheteIzq) {
                        self.advance();
                        let indice = self.parse_expresion()?;
                        self.expect(Token::CorcheteDer)?;
                        // The whole `objeto.campo` path names the array.
                        let campo_completo = objeto.concat(".").concat(c.as_str());
                        return Ok(Expr::AccesoArreglo {
                            objeto: campo_completo,
                            indice: Box::new(indice),
                        });
                    }
                    Ok(Expr::AccesoCampo { objeto, campo: c })
                }
                None => {
                    let loc = self.current_location();
                    Err(ParseError::new(String::from_str(
                        "Se esperaba nombre de campo después de '.'"), loc))
                }
            }
        } else if self.peek_eq(&Token::CorcheteIzq) {
            self.advance();
            let indice = self.parse_expresion()?;
            self.expect(Token::CorcheteDer)?;
            Ok(Expr::AccesoArreglo { objeto, indice: Box::new(indice) })
        } else {
            Ok(Expr::Identificador(objeto))
        }
    }
}

} // verus!
