//! Converts the automaton-level tokens of the scanner into the parser-facing
//! vocabulary: keyword kinds map one to one, literals take their payloads
//! from the lexeme (number value, string contents without the quotes).

use vstd::prelude::*;
use crate::lexer::{Token as OldToken, TokenInfo};
use crate::lexer_new::automaton::Automaton;
use crate::lexer_new::scanner::{spec_scan, Scanner};
use crate::lexer_new::token::{GToken, Token as NewToken, TokenType};
use crate::texto::{chars_de, cadena_de, digitos_a_i32, spec_todo_digitos, spec_valor_decimal};

verus! {

/// The sequence with every leading quote removed.
pub open spec fn spec_sin_comillas_inicio(s: Seq<char>) -> Seq<char>
    decreases s.len(),
{
    if s.len() > 0 && s.first() == '"' {
        spec_sin_comillas_inicio(s.drop_first())
    } else {
        s
    }
}

/// The sequence with every trailing quote removed.
pub open spec fn spec_sin_comillas_final(s: Seq<char>) -> Seq<char>
    decreases s.len(),
{
    if s.len() > 0 && s.last() == '"' {
        spec_sin_comillas_final(s.drop_last())
    } else {
        s
    }
}

/// The string-literal contents: the lexeme with the quotes at both ends
/// removed.
pub open spec fn spec_sin_comillas(s: Seq<char>) -> Seq<char> {
    spec_sin_comillas_final(spec_sin_comillas_inicio(s))
}

/// Strips the quotes from both ends of a lexeme.
fn sin_comillas(v: &Vec<char>) -> (r: Vec<char>)
    ensures
        r@ == spec_sin_comillas(v@),
{
    let mut a: usize = 0;
    proof {
        assert(v@.subrange(0, v@.len() as int) =~= v@);
    }
    while a < v.len() && v[a] == '"'
        invariant
            a <= v@.len(),
            spec_sin_comillas_inicio(v@) == spec_sin_comillas_inicio(v@.subrange(a as int,
                v@.len() as int)),
        decreases v@.len() - a,
    {
        proof {
            assert(v@.subrange(a as int, v@.len() as int).drop_first() =~= v@.subrange(
                a + 1 as int, v@.len() as int));
        }
        a = a + 1;
    }
    let mut b: usize = v.len();
    proof {
        let resto = v@.subrange(a as int, v@.len() as int);
        if resto.len() > 0 {
            assert(resto.first() != '"');
        }
        assert(spec_sin_comillas_inicio(v@) == resto);
    }
    while b > a && v[b - 1] == '"'
        invariant
            a <= b <= v@.len(),
            spec_sin_comillas_inicio(v@) == v@.subrange(a as int, v@.len() as int),
            spec_sin_comillas_final(v@.subrange(a as int, v@.len() as int))
                == spec_sin_comillas_final(v@.subrange(a as int, b as int)),
        decreases b,
    {
        proof {
            assert(v@.subrange(a as int, b as int).drop_last() =~= v@.subrange(a as int,
                b - 1 as int));
        }
        b = b - 1;
    }
    proof {
        let seg = v@.subrange(a as int, b as int);
        if seg.len() > 0 {
            assert(seg.last() == v@[b - 1]);
            assert(!(seg.last() == '"'));
        }
        assert(spec_sin_comillas_final(seg) == seg);
        assert(spec_sin_comillas(v@) == seg);
    }
    let mut r: Vec<char> = Vec::new();
    let mut i: usize = a;
    while i < b
        invariant
            a <= i <= b <= v@.len(),
            r@ == v@.subrange(a as int, i as int),
        decreases b - i,
    {
        r.push(v[i]);
        i = i + 1;
        proof {
            assert(r@ =~= v@.subrange(a as int, i as int));
        }
    }
    r
}

/// The number payload of a lexeme: its decimal value when it is all digits
/// and fits a signed 32-bit integer, and 0 otherwise.
pub open spec fn spec_valor_numero(lex: Seq<char>) -> int {
    if spec_todo_digitos(lex) && spec_valor_decimal(lex) <= i32::MAX as nat {
        spec_valor_decimal(lex) as int
    } else {
        0
    }
}

/// How a scanner token converts into the parser vocabulary.
pub open spec fn token_convertido(g: GToken, t: OldToken) -> bool {
    match g.kind {
        TokenType::Programa => t == OldToken::Programa,
        TokenType::Define => t == OldToken::Define,
        TokenType::Maquinas => t == OldToken::Maquinas,
        TokenType::Concentradores => t == OldToken::Concentradores,
        TokenType::Coaxial => t == OldToken::Coaxial,
        TokenType::Segmento => t == OldToken::Segmento,
        TokenType::Modulo => t == OldToken::Modulo,
        TokenType::Inicio => t == OldToken::Inicio,
        TokenType::Fin => t == OldToken::Fin,
        TokenType::Si => t == OldToken::Si,
        TokenType::Sino => t == OldToken::Sino,
        TokenType::Coloca => t == OldToken::Coloca,
        TokenType::ColocaCoaxial => t == OldToken::ColocaCoaxial,
        TokenType::ColocaCoaxialConcentrador => t == OldToken::ColocaCoaxialConcentrador,
        TokenType::UneMaquinaPuerto => t == OldToken::UneMaquinaPuerto,
        TokenType::AsignaPuerto => t == OldToken::AsignaPuerto,
        TokenType::MaquinaCoaxial => t == OldToken::MaquinaCoaxial,
        TokenType::AsignaMaquinaCoaxial => t == OldToken::AsignaMaquinaCoaxial,
        TokenType::Escribe => t == OldToken::Escribe,
        TokenType::Arriba => t == OldToken::Arriba,
        TokenType::Abajo => t == OldToken::Abajo,
        TokenType::Izquierda => t == OldToken::Izquierda,
        TokenType::Derecha => t == OldToken::Derecha,
        TokenType::Equal => t == OldToken::Igual,
        TokenType::Less => t == OldToken::Menor,
        TokenType::Greater => t == OldToken::Mayor,
        TokenType::LessEqual => t == OldToken::MenorIgual,
        TokenType::GreaterEqual => t == OldToken::MayorIgual,
        TokenType::NotEqual => t == OldToken::Diferente,
        TokenType::And => t == OldToken::And,
        TokenType::Or => t == OldToken::Or,
        TokenType::Not => t == OldToken::Not,
        TokenType::Comma => t == OldToken::Coma,
        TokenType::Semicolon => t == OldToken::PuntoYComa,
        TokenType::Dot => t == OldToken::Punto,
        TokenType::LParen => t == OldToken::ParenIzq,
        TokenType::RParen => t == OldToken::ParenDer,
        TokenType::LBracket => t == OldToken::CorcheteIzq,
        TokenType::RBracket => t == OldToken::CorcheteDer,
        TokenType::Identifier => t matches OldToken::Identificador(s) && s@ == g.lexeme,
        TokenType::Number => t matches OldToken::Numero(n) && n as int == spec_valor_numero(
            g.lexeme),
        TokenType::Cadena => t matches OldToken::Cadena(s) && s@ == spec_sin_comillas(g.lexeme),
        TokenType::Whitespace => false,
        TokenType::Comment => false,
        TokenType::Eof => false,
    }
}

/// Converts one scanner token into the parser vocabulary. Blanks, comments
/// and the end-of-input marker are never handed to this conversion.
pub fn convert_token(new_token: &NewToken) -> (r: OldToken)
    requires
        !new_token@.kind.spec_should_ignore(),
        new_token@.kind != TokenType::Eof,
    ensures
        token_convertido(new_token@, r),
{
    match new_token.token_type {
        TokenType::Programa => OldToken::Programa,
        TokenType::Define => OldToken::Define,
        TokenType::Maquinas => OldToken::Maquinas,
        TokenType::Concentradores => OldToken::Concentradores,
        TokenType::Coaxial => OldToken::Coaxial,
        TokenType::Segmento => OldToken::Segmento,
        TokenType::Modulo => OldToken::Modulo,
        TokenType::Inicio => OldToken::Inicio,
        TokenType::Fin => OldToken::Fin,
        TokenType::Si => OldToken::Si,
        TokenType::Sino => OldToken::Sino,
        TokenType::Coloca => OldToken::Coloca,
        TokenType::ColocaCoaxial => OldToken::ColocaCoaxial,
        TokenType::ColocaCoaxialConcentrador => OldToken::ColocaCoaxialConcentrador,
        TokenType::UneMaquinaPuerto => OldToken::UneMaquinaPuerto,
        TokenType::AsignaPuerto => OldToken::AsignaPuerto,
        TokenType::MaquinaCoaxial => OldToken::MaquinaCoaxial,
        TokenType::AsignaMaquinaCoaxial => OldToken::AsignaMaquinaCoaxial,
        TokenType::Escribe => OldToken::Escribe,
        TokenType::Arriba => OldToken::Arriba,
        TokenType::Abajo => OldToken::Abajo,
        TokenType::Izquierda => OldToken::Izquierda,
        TokenType::Derecha => OldToken::Derecha,
        TokenType::Equal => OldToken::Igual,
        TokenType::Less => OldToken::Menor,
        TokenType::Greater => OldToken::Mayor,
        TokenType::LessEqual => OldToken::MenorIgual,
        TokenType::GreaterEqual => OldToken::MayorIgual,
        TokenType::NotEqual => OldToken::Diferente,
        TokenType::And => OldToken::And,
        TokenType::Or => OldToken::Or,
        TokenType::Not => OldToken::Not,
        TokenType::Comma => OldToken::Coma,
        TokenType::Semicolon => OldToken::PuntoYComa,
        TokenType::Dot => OldToken::Punto,
        TokenType::LParen => OldToken::ParenIzq,
        TokenType::RParen => OldToken::ParenDer,
        TokenType::LBracket => OldToken::CorcheteIzq,
        TokenType::RBracket => OldToken::CorcheteDer,
        TokenType::Identifier => OldToken::Identificador(new_token.lexeme.clone()),
        TokenType::Number => {
            let digitos = chars_de(new_token.lexeme.as_str());
            OldToken::Numero(digitos_a_i32(&digitos))
        }
        TokenType::Cadena => {
            let crudo = chars_de(new_token.lexeme.as_str());
            let limpio = sin_comillas(&crudo);
            OldToken::Cadena(cadena_de(&limpio))
        }
        TokenType::Whitespace | TokenType::Comment | TokenType::Eof => {
            // Excluded by the precondition; any value satisfies nothing here.
            OldToken::Whitespace
        }
    }
}

/// A converted token record agrees with the scanner token it came from.
pub open spec fn corresponde(info: TokenInfo, g: GToken) -> bool {
    &&& token_convertido(g, info.token)
    &&& info.line as int == g.line
    &&& info.column as int == g.column
    &&& info.length as int == g.length
    &&& info.lexeme@ == g.lexeme
}

/// The scanner tokens the bridge keeps: everything but blanks, comments and
/// the end-of-input marker.
pub open spec fn convertibles(gs: Seq<GToken>) -> Seq<GToken> {
    gs.filter(|g: GToken| !g.kind.spec_should_ignore() && g.kind != TokenType::Eof)
}

/// Tokenizes the source text with the given automaton and hands back the
/// parser-facing token records: one per kept scanner token, in order, each
/// agreeing with its scanner token; or the message of the lexical error.
pub fn tokenize_with_new_lexer(source: String, automaton: &Automaton) -> (r: Result<
    Vec<TokenInfo>,
    String,
>)
    requires
        source@.len() < usize::MAX,
    ensures
        match r {
            Ok(infos) => {
                &&& spec_scan(*automaton, source@, 0) is Ok
                &&& {
                    let mantenidos = convertibles(spec_scan(*automaton, source@, 0)->Ok_0);
                    &&& infos@.len() == mantenidos.len()
                    &&& forall|i: int| 0 <= i < infos@.len() ==> corresponde(
                        #[trigger] infos@[i], mantenidos[i])
                }
            },
            Err(msg) => spec_scan(*automaton, source@, 0) matches Err(e) && msg@ == e.message,
        },
{
    let mut scanner = Scanner::new(source.as_str(), automaton);
    let ghost aut = *automaton;
    let ghost src = source@;

    match scanner.scan_all() {
        Ok(tokens) => {
            let ghost gs = spec_scan(aut, src, 0)->Ok_0;
            let mut result: Vec<TokenInfo> = Vec::new();
            let mut i: usize = 0;
            proof {
                assert(crate::lexer_new::scanner::vistas(tokens@) == gs);
                assert(gs.subrange(0, 0) =~= Seq::<GToken>::empty());
                assert(convertibles(Seq::<GToken>::empty()) =~= Seq::<GToken>::empty());
            }
            while i < tokens.len()
                invariant
                    i <= tokens@.len(),
                    crate::lexer_new::scanner::vistas(tokens@) == gs,
                    gs.len() == tokens@.len(),
                    ({
                        let mantenidos = convertibles(gs.subrange(0, i as int));
                        &&& result@.len() == mantenidos.len()
                        &&& forall|j: int| 0 <= j < result@.len() ==> corresponde(
                            #[trigger] result@[j], mantenidos[j])
                    }),
                decreases tokens@.len() - i,
            {
                let nuevo = &tokens[i];
                proof {
                    assert(nuevo@ == gs[i as int]);
                    let antes = convertibles(gs.subrange(0, i as int));
                    reveal_with_fuel(Seq::filter, 2);
                    assert(gs.subrange(0, i + 1 as int).drop_last() =~= gs.subrange(0, i as int));
                    assert(gs.subrange(0, i + 1 as int).last() == gs[i as int]);
                }
                let es_eof = match nuevo.token_type {
                    TokenType::Eof => true,
                    _ => false,
                };
                if !es_eof && !nuevo.token_type.should_ignore() {
                    let old_token = convert_token(nuevo);
                    let info = TokenInfo {
                        token: old_token,
                        line: nuevo.line,
                        column: nuevo.column,
                        length: nuevo.length,
                        lexeme: nuevo.lexeme.clone(),
                    };
                    result.push(info);
                    proof {
                        assert(result@.last() == result@[result@.len() - 1]);
                        let mantenidos = convertibles(gs.subrange(0, i + 1 as int));
                        assert(mantenidos =~= convertibles(gs.subrange(0, i as int)).push(
                            gs[i as int]));
                    }
                }
                i = i + 1;
            }
            proof {
                assert(gs.subrange(0, gs.len() as int) =~= gs);
            }
            Ok(result)
        }
        Err(err) => Err(err.message),
    }
}

} // verus!
