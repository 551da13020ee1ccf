//! The scanner drives the automaton over the source text with the
//! maximal-munch rule: it keeps extending the current token while a
//! transition exists, remembers the last accepting boundary, and emits the
//! token that ends there. Its whole behaviour is pinned to the specification
//! functions `spec_munch`, `spec_paso` and `spec_scan`.

use vstd::prelude::*;
use crate::texto::cadena_de;
use super::automaton::{spec_buscar_final, spec_siguiente, Automaton, StateId};
use super::error::{GLexError, LexicalError};
use super::token::{GToken, Token, TokenType};

verus! {

/// 1-based line number of a position: one more than the newlines before it.
pub open spec fn spec_line(src: Seq<char>, pos: int) -> int
    decreases pos,
{
    if pos <= 0 {
        1
    } else {
        spec_line(src, pos - 1) + if src[pos - 1] == '\n' {
            1int
        } else {
            0int
        }
    }
}

/// 1-based column of a position: the distance to the last newline before it.
pub open spec fn spec_col(src: Seq<char>, pos: int) -> int
    decreases pos,
{
    if pos <= 0 {
        1
    } else if src[pos - 1] == '\n' {
        1
    } else {
        spec_col(src, pos - 1) + 1
    }
}

/// Line and column stay within one past the position.
proof fn lemma_linea_cota(src: Seq<char>, pos: int)
    requires
        pos >= 0,
    ensures
        1 <= spec_line(src, pos) <= pos + 1,
        1 <= spec_col(src, pos) <= pos + 1,
    decreases pos,
{
    if pos > 0 {
        lemma_linea_cota(src, pos - 1);
    }
}

/// One maximal-munch run of the automaton from `pos` in state `state`:
/// returns the best accepting boundary seen (token kind and end position)
/// and the position where no transition applied.
pub open spec fn spec_munch(
    aut: Automaton,
    src: Seq<char>,
    state: StateId,
    pos: int,
    best: Option<(TokenType, int)>,
) -> (Option<(TokenType, int)>, int)
    decreases src.len() - pos,
{
    if pos < 0 || pos >= src.len() {
        (best, pos)
    } else {
        match spec_siguiente(aut.transitions@, state, src[pos]) {
            None => (best, pos),
            Some(ns) => {
                let nbest = match spec_buscar_final(aut.final_states@, ns) {
                    Some(tt) => Some((tt, pos + 1)),
                    None => best,
                };
                spec_munch(aut, src, ns, pos + 1, nbest)
            }
        }
    }
}

/// The best boundary a munch returns lies strictly beyond `lo`, and the stop
/// position never passes the end of the input.
proof fn lemma_munch_cotas(
    aut: Automaton,
    src: Seq<char>,
    state: StateId,
    pos: int,
    best: Option<(TokenType, int)>,
    lo: int,
)
    requires
        0 <= lo <= pos <= src.len(),
        match best {
            None => true,
            Some(p) => lo < p.1 <= src.len(),
        },
    ensures
        ({
            let m = spec_munch(aut, src, state, pos, best);
            &&& match m.0 {
                None => true,
                Some(p) => lo < p.1 <= src.len(),
            }
            &&& pos <= m.1 <= src.len()
        }),
    decreases src.len() - pos,
{
    if pos < src.len() {
        match spec_siguiente(aut.transitions@, state, src[pos]) {
            None => {}
            Some(ns) => {
                let nbest = match spec_buscar_final(aut.final_states@, ns) {
                    Some(tt) => Some((tt, pos + 1)),
                    None => best,
                };
                lemma_munch_cotas(aut, src, ns, pos + 1, nbest, lo);
            }
        }
    }
}


/// The state the automaton reaches by consuming `src[pos..fin]` from
/// `desde`, if a transition exists for every character on the way.
pub open spec fn spec_llega(
    aut: Automaton,
    src: Seq<char>,
    desde: StateId,
    pos: int,
    fin: int,
) -> Option<StateId>
    decreases fin - pos,
{
    if fin <= pos {
        Some(desde)
    } else {
        match spec_siguiente(aut.transitions@, desde, src[pos]) {
            None => None,
            Some(ns) => spec_llega(aut, src, ns, pos + 1, fin),
        }
    }
}

/// Whether the text from `inicio` up to `fin` is an accepted token prefix:
/// the automaton consumes it completely and lands in an accepting state.
pub open spec fn spec_acepta_hasta(aut: Automaton, src: Seq<char>, inicio: int, fin: int) -> bool {
    match spec_llega(aut, src, aut.initial_state, inicio, fin) {
        Some(st) => spec_buscar_final(aut.final_states@, st) is Some,
        None => false,
    }
}

/// The recorded best boundary never shrinks as the munch advances.
proof fn lemma_munch_no_encoge(
    aut: Automaton,
    src: Seq<char>,
    state: StateId,
    pos: int,
    best: Option<(TokenType, int)>,
)
    requires
        best is Some,
        ({
            let dado = best->0;
            dado.1 <= pos
        }),
    ensures
        spec_munch(aut, src, state, pos, best).0 is Some,
        ({
            let mejor = spec_munch(aut, src, state, pos, best).0->0;
            let dado = best->0;
            mejor.1 >= dado.1
        }),
    decreases src.len() - pos,
{
    if 0 <= pos < src.len() {
        match spec_siguiente(aut.transitions@, state, src[pos]) {
            None => {}
            Some(ns) => {
                let nbest = match spec_buscar_final(aut.final_states@, ns) {
                    Some(tt) => Some((tt, pos + 1)),
                    None => best,
                };
                lemma_munch_no_encoge(aut, src, ns, pos + 1, nbest);
            }
        }
    }
}

/// If the text from `p` on still reaches an accepting state at `fin`, the
/// munch from `p` reports a boundary at least at `fin`.
proof fn lemma_munch_domina(
    aut: Automaton,
    src: Seq<char>,
    state: StateId,
    p: int,
    best: Option<(TokenType, int)>,
    fin: int,
)
    requires
        0 <= p < fin <= src.len(),
        ({
            match spec_llega(aut, src, state, p, fin) {
                Some(st) => spec_buscar_final(aut.final_states@, st) is Some,
                None => false,
            }
        }),
    ensures
        spec_munch(aut, src, state, p, best).0 is Some,
        ({
            let mejor = spec_munch(aut, src, state, p, best).0->0;
            mejor.1 >= fin
        }),
    decreases fin - p,
{
    let ns = spec_siguiente(aut.transitions@, state, src[p]);
    match ns {
        None => {
            assert(spec_llega(aut, src, state, p, fin) is None);
        }
        Some(siguiente) => {
            let nbest = match spec_buscar_final(aut.final_states@, siguiente) {
                Some(tt) => Some((tt, p + 1)),
                None => best,
            };
            if p + 1 == fin {
                assert(spec_llega(aut, src, siguiente, p + 1, fin) == Some(siguiente));
                assert(spec_buscar_final(aut.final_states@, siguiente) is Some);
                lemma_munch_no_encoge(aut, src, siguiente, p + 1, nbest);
            } else {
                lemma_munch_domina(aut, src, siguiente, p + 1, nbest, fin);
            }
        }
    }
}

/// Maximal munch: every accepted token prefix starting at `pos` ends at or
/// before the boundary the munch reports, so the emitted token is the
/// longest accepted prefix.
pub proof fn lemma_munch_maximo(aut: Automaton, src: Seq<char>, pos: int, fin: int)
    requires
        0 <= pos < fin <= src.len(),
        spec_acepta_hasta(aut, src, pos, fin),
    ensures
        spec_munch(aut, src, aut.initial_state, pos, None).0 is Some,
        ({
            let mejor = spec_munch(aut, src, aut.initial_state, pos, None).0->0;
            mejor.1 >= fin
        }),
{
    lemma_munch_domina(aut, src, aut.initial_state, pos, None, fin);
}

/// What one scanning step at `pos` produces: end of input, a token together
/// with the position after it, or a lexical error.
pub ghost enum PasoEscaneo {
    Fin,
    Tok(GToken, int),
    Error(GLexError),
}

/// One scanning step: run the automaton from `pos`; if an accepting boundary
/// was recorded, the token spans up to the last one (identifiers reclassified
/// through the keyword table); otherwise the character at the stop position
/// is reported as invalid, at the position where the token began.
pub open spec fn spec_paso(aut: Automaton, src: Seq<char>, pos: int) -> PasoEscaneo {
    if !(0 <= pos < src.len()) {
        PasoEscaneo::Fin
    } else {
        let m = spec_munch(aut, src, aut.initial_state, pos, None);
        match m.0 {
            Some(p) => {
                let lex = src.subrange(pos, p.1);
                let kind = if p.0 == TokenType::Identifier {
                    aut.spec_classify(lex)
                } else {
                    p.0
                };
                PasoEscaneo::Tok(
                    GToken {
                        kind,
                        lexeme: lex,
                        line: spec_line(src, pos),
                        column: spec_col(src, pos),
                        length: p.1 - pos,
                    },
                    p.1,
                )
            }
            None => PasoEscaneo::Error(
                GLexError {
                    message: LexicalError::spec_mensaje_invalid_char(
                        if m.1 < src.len() {
                            src[m.1]
                        } else {
                            '\0'
                        },
                    ),
                    line: spec_line(src, pos),
                    column: spec_col(src, pos),
                    length: 1,
                },
            ),
        }
    }
}

/// The full token stream from `pos` on: every step's token in order, blanks
/// and comments dropped, a synthetic end-of-input token last; or the first
/// lexical error.
pub open spec fn spec_scan(aut: Automaton, src: Seq<char>, pos: int) -> Result<
    Seq<GToken>,
    GLexError,
>
    decreases src.len() - pos,
    via spec_scan_decrece
{
    match spec_paso(aut, src, pos) {
        PasoEscaneo::Fin => Ok(
            seq![
                GToken {
                    kind: TokenType::Eof,
                    lexeme: Seq::<char>::empty(),
                    line: spec_line(src, src.len() as int),
                    column: spec_col(src, src.len() as int),
                    length: 0,
                },
            ],
        ),
        PasoEscaneo::Tok(t, fin) => match spec_scan(aut, src, fin) {
            Ok(resto) => Ok(
                if t.kind.spec_should_ignore() {
                    resto
                } else {
                    seq![t] + resto
                },
            ),
            Err(e) => Err(e),
        },
        PasoEscaneo::Error(e) => Err(e),
    }
}

#[via_fn]
proof fn spec_scan_decrece(aut: Automaton, src: Seq<char>, pos: int) {
    if 0 <= pos < src.len() {
        lemma_munch_cotas(aut, src, aut.initial_state, pos, None, pos);
    }
}

/// Scanning is a function of the automaton and the text alone: two runs over
/// the same input yield the same token sequence or the same error.
pub proof fn lemma_escaneo_deterministico(
    aut: Automaton,
    src: Seq<char>,
    r1: Result<Seq<GToken>, GLexError>,
    r2: Result<Seq<GToken>, GLexError>,
)
    requires
        r1 == spec_scan(aut, src, 0),
        r2 == spec_scan(aut, src, 0),
    ensures
        r1 == r2,
{
}

/// On an empty input, scanning never fails and yields exactly the synthetic
/// end-of-input token at line 1, column 1.
pub proof fn lemma_escaneo_vacio(aut: Automaton, src: Seq<char>)
    requires
        src.len() == 0,
    ensures
        spec_scan(aut, src, 0) == Ok::<Seq<GToken>, GLexError>(
            seq![
                GToken {
                    kind: TokenType::Eof,
                    lexeme: Seq::<char>::empty(),
                    line: 1,
                    column: 1,
                    length: 0,
                },
            ],
        ),
{
    assert(spec_paso(aut, src, 0) is Fin);
    assert(spec_line(src, 0) == 1);
    assert(spec_col(src, 0) == 1);
}

/// The token views of a token vector, in order.
pub open spec fn vistas(ts: Seq<Token>) -> Seq<GToken> {
    ts.map_values(|t: Token| t@)
}

/// Appending a token appends its view.
proof fn lemma_vistas_push(s: Seq<Token>, t: Token)
    ensures
        vistas(s.push(t)) == vistas(s).push(t@),
{
    assert(vistas(s.push(t)) =~= vistas(s).push(t@));
}

/// The exec-side shape of the recorded best boundary.
pub open spec fn mejor_de(f: Option<TokenType>, p: usize) -> Option<(TokenType, int)> {
    match f {
        None => None,
        Some(t) => Some((t, p as int)),
    }
}

/// The scanner: the source text as characters, the cursor with its 1-based
/// line and column, and the automaton that classifies the text.
pub struct Scanner<'a> {
    pub source: Vec<char>,
    pub pos: usize,
    pub line: usize,
    pub column: usize,
    pub automaton: &'a Automaton,
}

impl<'a> Scanner<'a> {
    /// The cursor is inside the text and line/column agree with it.
    pub open spec fn wf(self) -> bool {
        &&& self.pos <= self.source@.len()
        &&& self.source@.len() < usize::MAX
        &&& self.line as int == spec_line(self.source@, self.pos as int)
        &&& self.column as int == spec_col(self.source@, self.pos as int)
    }

    /// Builds a scanner at the start of the text.
    pub fn new(source: &str, automaton: &'a Automaton) -> (r: Scanner<'a>)
        requires
            source@.len() < usize::MAX,
        ensures
            r.wf(),
            r.source@ == source@,
            r.pos == 0,
            r.line == 1,
            r.column == 1,
            r.automaton == automaton,
    {
        let v = crate::texto::chars_de(source);
        Scanner { source: v, pos: 0, line: 1, column: 1, automaton }
    }

    /// The character under the cursor, or the null character at the end.
    pub fn current_char(&self) -> (r: char)
        ensures
            r == if (self.pos as int) < self.source@.len() {
                self.source@[self.pos as int]
            } else {
                '\0'
            },
    {
        if self.is_at_end() {
            '\0'
        } else {
            self.source[self.pos]
        }
    }

    /// Whether the cursor has passed the last character.
    pub fn is_at_end(&self) -> (r: bool)
        ensures
            r == (self.pos >= self.source@.len()),
    {
        self.pos >= self.source.len()
    }

    /// Moves the cursor one character forward, tracking line and column.
    pub fn advance(&mut self)
        requires
            old(self).wf(),
        ensures
            final(self).wf(),
            final(self).source == old(self).source,
            final(self).automaton == old(self).automaton,
            old(self).pos < old(self).source@.len() ==> final(self).pos == old(self).pos + 1,
            old(self).pos >= old(self).source@.len() ==> *final(self) == *old(self),
    {
        if !self.is_at_end() {
            let ch = self.source[self.pos];
            proof {
                lemma_linea_cota(self.source@, self.pos as int);
            }
            self.pos = self.pos + 1;
            if ch == '\n' {
                self.line = self.line + 1;
                self.column = 1;
            } else {
                self.column = self.column + 1;
            }
        }
    }

    /// Recomputes line and column by counting newlines from the start of the
    /// text up to the cursor, which keeps them right after the cursor was
    /// moved backwards to an earlier accepting boundary.
    #[allow(unused_variables)]
    pub fn update_position_from(&mut self, start_pos: usize)
        requires
            old(self).pos <= old(self).source@.len(),
            old(self).source@.len() < usize::MAX,
        ensures
            final(self).pos == old(self).pos,
            final(self).source == old(self).source,
            final(self).automaton == old(self).automaton,
            final(self).wf(),
    {
        self.line = 1;
        self.column = 1;
        let mut i: usize = 0;
        while i < self.pos
            invariant
                i <= self.pos,
                self.pos <= self.source@.len(),
                self.source@.len() < usize::MAX,
                self.pos == old(self).pos,
                self.source == old(self).source,
                self.automaton == old(self).automaton,
                self.line as int == spec_line(self.source@, i as int),
                self.column as int == spec_col(self.source@, i as int),
            decreases self.pos - i,
        {
            proof {
                lemma_linea_cota(self.source@, i as int);
            }
            if self.source[i] == '\n' {
                self.line = self.line + 1;
                self.column = 1;
            } else {
                self.column = self.column + 1;
            }
            i = i + 1;
        }
    }

    /// Scans one token by maximal munch, as `spec_paso` describes: `Ok(None)`
    /// at the end of the input, `Ok(Some(t))` with the cursor moved past `t`,
    /// or the lexical error of `spec_paso`.
    pub fn scan_token(&mut self) -> (r: Result<Option<Token>, LexicalError>)
        requires
            old(self).wf(),
        ensures
            final(self).wf(),
            final(self).source == old(self).source,
            final(self).automaton == old(self).automaton,
            match r {
                Ok(None) => spec_paso(*old(self).automaton, old(self).source@, old(self).pos as int)
                    is Fin && *final(self) == *old(self),
                Ok(Some(t)) => spec_paso(*old(self).automaton, old(self).source@, old(
                    self).pos as int) == PasoEscaneo::Tok(t@, final(self).pos as int) && old(
                    self).pos < final(self).pos,
                Err(e) => spec_paso(*old(self).automaton, old(self).source@, old(self).pos as int)
                    == PasoEscaneo::Error(e@),
            },
    {
        let ghost aut = *self.automaton;
        let ghost src = self.source@;
        let ghost pos0 = self.pos as int;

        if self.is_at_end() {
            return Ok(None);
        }
        let start_pos = self.pos;
        let start_line = self.line;
        let start_column = self.column;

        let mut current_state = self.automaton.initial_state();
        let mut last_final: Option<TokenType> = None;
        let mut last_final_pos: usize = start_pos;
        let mut avanzando: bool = true;

        while avanzando && self.pos < self.source.len()
            invariant
                self.wf(),
                self.source@ == src,
                self.source == old(self).source,
                self.automaton == old(self).automaton,
                *self.automaton == aut,
                start_pos as int == pos0,
                0 <= pos0 <= self.pos as int <= src.len(),
                start_line as int == spec_line(src, pos0),
                start_column as int == spec_col(src, pos0),
                match last_final {
                    None => last_final_pos == start_pos,
                    Some(_) => pos0 < last_final_pos as int <= self.pos as int,
                },
                spec_munch(aut, src, aut.initial_state, pos0, None) == spec_munch(
                    aut, src, current_state, self.pos as int, mejor_de(last_final, last_final_pos)),
                !avanzando ==> (self.pos as int) < src.len() && spec_siguiente(
                    aut.transitions@, current_state, src[self.pos as int]) is None,
            decreases src.len() - self.pos as int + (if avanzando {
                1int
            } else {
                0int
            }),
        {
            let ch = self.current_char();
            match self.automaton.next_state(current_state, ch) {
                Some(ns) => {
                    let ghost antes = self.pos as int;
                    let ghost mejor_antes = mejor_de(last_final, last_final_pos);
                    self.advance();
                    current_state = ns;
                    match self.automaton.is_final(ns) {
                        Some(tt) => {
                            last_final = Some(*tt);
                            last_final_pos = self.pos;
                        }
                        None => {}
                    }
                    proof {
                        assert(spec_munch(aut, src, ns, antes + 1, mejor_de(
                            last_final, last_final_pos)) == spec_munch(aut, src, ns, antes + 1,
                            match spec_buscar_final(aut.final_states@, ns) {
                                Some(t2) => Some((t2, antes + 1)),
                                None => mejor_antes,
                            }));
                    }
                }
                None => {
                    avanzando = false;
                }
            }
        }

        proof {
            assert(spec_munch(aut, src, current_state, self.pos as int, mejor_de(
                last_final, last_final_pos)) == (mejor_de(last_final, last_final_pos),
                self.pos as int));
        }

        match last_final {
            Some(tt) => {
                let ghost fin = last_final_pos as int;
                self.pos = last_final_pos;
                self.update_position_from(start_pos);

                let mut lex: Vec<char> = Vec::new();
                let mut i: usize = start_pos;
                while i < last_final_pos
                    invariant
                        start_pos <= i <= last_final_pos,
                        last_final_pos as int <= src.len(),
                        self.wf(),
                        self.source == old(self).source,
                        self.automaton == old(self).automaton,
                        self.pos == last_final_pos,
                        self.source@ == src,
                        lex@ == src.subrange(start_pos as int, i as int),
                    decreases last_final_pos - i,
                {
                    lex.push(self.source[i]);
                    i = i + 1;
                    proof {
                        assert(lex@ =~= src.subrange(start_pos as int, i as int));
                    }
                }
                let lexeme = cadena_de(&lex);

                let final_tt = if tt == TokenType::Identifier {
                    self.automaton.classify_identifier(lexeme.as_str())
                } else {
                    tt
                };
                let token = Token::new(final_tt, lexeme, start_line, start_column);
                Ok(Some(token))
            }
            None => {
                let ch = self.current_char();
                Err(LexicalError::invalid_char(ch, start_line, start_column))
            }
        }
    }

    /// Scans the whole input: the token stream of `spec_scan` (blanks and
    /// comments dropped, the synthetic end-of-input token last), or the first
    /// lexical error.
    pub fn scan_all(&mut self) -> (r: Result<Vec<Token>, LexicalError>)
        requires
            old(self).wf(),
        ensures
            final(self).wf(),
            final(self).source == old(self).source,
            final(self).automaton == old(self).automaton,
            match r {
                Ok(ts) => spec_scan(*old(self).automaton, old(self).source@, old(self).pos as int)
                    == Ok::<Seq<GToken>, GLexError>(vistas(ts@)),
                Err(e) => spec_scan(*old(self).automaton, old(self).source@, old(self).pos as int)
                    == Err::<Seq<GToken>, GLexError>(e@),
            },
    {
        let ghost aut = *self.automaton;
        let ghost src = self.source@;
        let ghost pos0 = self.pos as int;

        let mut tokens: Vec<Token> = Vec::new();
        proof {
            if spec_scan(aut, src, pos0) is Ok {
                assert(vistas(tokens@) + spec_scan(aut, src, pos0)->Ok_0 =~= spec_scan(
                    aut, src, pos0)->Ok_0);
            }
        }

        loop
            invariant
                self.wf(),
                self.source@ == src,
                *self.automaton == aut,
                self.automaton == old(self).automaton,
                self.source == old(self).source,
                aut == *old(self).automaton,
                src == old(self).source@,
                pos0 == old(self).pos as int,
                0 <= self.pos as int <= src.len(),
                spec_scan(aut, src, pos0) == match spec_scan(aut, src, self.pos as int) {
                    Ok(resto) => Ok::<Seq<GToken>, GLexError>(vistas(tokens@) + resto),
                    Err(e) => Err::<Seq<GToken>, GLexError>(e),
                },
            decreases src.len() - self.pos as int,
        {
            let ghost pos_antes = self.pos as int;
            let ghost acc_antes = tokens@;
            match self.scan_token() {
                Ok(Some(token)) => {
                    if !token.token_type.should_ignore() {
                        tokens.push(token);
                        proof {
                            assert(tokens@ =~= acc_antes.push(token));
                            lemma_vistas_push(acc_antes, token);
                            if spec_scan(aut, src, self.pos as int) is Ok {
                                let resto = spec_scan(aut, src, self.pos as int)->Ok_0;
                                assert(vistas(acc_antes).push(token@) + resto =~= vistas(
                                    acc_antes) + (seq![token@] + resto));
                            }
                        }
                    } else {
                        proof {
                            assert(spec_paso(aut, src, pos_antes) == PasoEscaneo::Tok(
                                token@, self.pos as int));
                        }
                    }
                }
                Ok(None) => {
                    proof {
                        assert(self.pos as int == src.len());
                    }
                    let eof_token = Token::eof(self.line, self.column);
                    tokens.push(eof_token);
                    proof {
                        let fin_g = GToken {
                            kind: TokenType::Eof,
                            lexeme: Seq::<char>::empty(),
                            line: spec_line(src, src.len() as int),
                            column: spec_col(src, src.len() as int),
                            length: 0,
                        };
                        assert(spec_scan(aut, src, self.pos as int) == Ok::<
                            Seq<GToken>,
                            GLexError,
                        >(seq![fin_g]));
                        assert(tokens@ =~= acc_antes.push(eof_token));
                        lemma_vistas_push(acc_antes, eof_token);
                        assert(vistas(acc_antes).push(fin_g) =~= vistas(acc_antes) + seq![fin_g]);
                    }
                    return Ok(tokens);
                }
                Err(e) => {
                    proof {
                        assert(spec_scan(aut, src, pos_antes) == Err::<Seq<GToken>, GLexError>(
                            e@));
                        assert(spec_scan(aut, src, pos0) == Err::<Seq<GToken>, GLexError>(e@));
                    }
                    return Err(e);
                }
            }
        }
    }
}

} // verus!
