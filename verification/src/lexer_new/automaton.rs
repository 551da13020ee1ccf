//! The deterministic finite automaton driving the lexer: states, character
//! classes, transitions, accepting states and the keyword table, together with
//! the parser for the textual automaton specification.

use vstd::prelude::*;
use crate::texto::{
    cadena_de, chars_de, copiar_chars, dividir, es_cadena, empieza_con, lineas, minusculas,
    recortar, palabras, spec_dividida, spec_minusculas, spec_palabras, spec_recortada,
    usize_a_cadena,
};
use super::token::TokenType;

verus! {

/// Identifier of an automaton state; states are interned to sequential ids.
#[derive(Debug, Clone, Copy, PartialEq, Eq, Hash, Structural)]
pub struct StateId(pub usize);

impl StateId {
    pub fn new(id: usize) -> (r: StateId)
        ensures
            r.0 == id,
    {
        StateId(id)
    }

    pub fn as_usize(&self) -> (r: usize)
        ensures
            r == self.0,
    {
        self.0
    }
}

/// A class of characters labelling a transition: an exact character, an
/// inclusive range, a union, or one of the two wildcards.
#[derive(Debug, PartialEq)]
pub enum CharClass {
    Exact(char),
    Range(char, char),
    Multi(Vec<CharClass>),
    Any,
    AnyExceptNewline,
}

/// Whether any class of the sequence accepts `ch`.
pub open spec fn spec_alguna_acepta(cs: Seq<CharClass>, ch: char) -> bool
    decreases cs,
{
    if cs.len() == 0 {
        false
    } else {
        cs[0].spec_matches(ch) || spec_alguna_acepta(cs.drop_first(), ch)
    }
}

impl CharClass {
    /// Whether this class accepts the character.
    pub open spec fn spec_matches(self, ch: char) -> bool
        decreases self,
    {
        match self {
            CharClass::Exact(c) => c == ch,
            CharClass::Range(inicio, fin) => inicio <= ch && ch <= fin,
            CharClass::Multi(clases) => spec_alguna_acepta(clases@, ch),
            CharClass::Any => true,
            CharClass::AnyExceptNewline => ch != '\n',
        }
    }

    /// Tests whether a character belongs to this class.
    #[verifier::loop_isolation(false)]
    pub fn matches(&self, ch: char) -> (r: bool)
        ensures
            r == self.spec_matches(ch),
        decreases self,
    {
        proof {
            lemma_matches_def(*self);
        }
        match self {
            CharClass::Exact(c) => *c == ch,
            CharClass::Range(inicio, fin) => *inicio <= ch && ch <= *fin,
            CharClass::Multi(clases) => {
                let mut i: usize = 0;
                proof {
                    lemma_alguna_vacia(clases@.subrange(0, 0), ch);
                }
                while i < clases.len()
                    invariant
                        i <= clases@.len(),
                        !spec_alguna_acepta(clases@.subrange(0, i as int), ch),
                    decreases clases@.len() - i,
                {
                    proof {
                        lemma_alguna_acepta_push(clases@.subrange(0, i as int), clases@[i as int],
                            ch);
                        assert(clases@.subrange(0, i as int).push(clases@[i as int]) =~= clases@
                            .subrange(0, i + 1 as int));
                    }
                    if clases[i].matches(ch) {
                        proof {
                            lemma_alguna_acepta_indice(clases@, i as int, ch);
                        }
                        return true;
                    }
                    i = i + 1;
                }
                proof {
                    assert(clases@.subrange(0, clases@.len() as int) =~= clases@);
                }
                false
            }
            CharClass::Any => true,
            CharClass::AnyExceptNewline => ch != '\n',
        }
    }
}

/// Spells out one unfolding of `spec_matches` for each variant, for use in
/// executable code, where the definition of a mutually recursive spec
/// function does not unfold on its own.
proof fn lemma_matches_def(c: CharClass)
    ensures
        forall|ch: char| #[trigger] c.spec_matches(ch) == match c {
            CharClass::Exact(x) => x == ch,
            CharClass::Range(a, b) => a <= ch && ch <= b,
            CharClass::Multi(cs) => spec_alguna_acepta(cs@, ch),
            CharClass::Any => true,
            CharClass::AnyExceptNewline => ch != '\n',
        },
{
}

/// An empty union accepts nothing.
proof fn lemma_alguna_vacia(cs: Seq<CharClass>, ch: char)
    ensures
        cs.len() == 0 ==> !spec_alguna_acepta(cs, ch),
{
}

/// Appending a class to a union accepts a character iff one side does.
proof fn lemma_alguna_acepta_push(cs: Seq<CharClass>, c: CharClass, ch: char)
    ensures
        spec_alguna_acepta(cs.push(c), ch) == (spec_alguna_acepta(cs, ch) || c.spec_matches(ch)),
    decreases cs.len(),
{
    if cs.len() == 0 {
        reveal_with_fuel(spec_alguna_acepta, 2);
        assert(cs.push(c).drop_first() =~= Seq::<CharClass>::empty());
        assert(cs.push(c)[0] == c);
    } else {
        assert(cs.push(c).drop_first() =~= cs.drop_first().push(c));
        assert(cs.push(c)[0] == cs[0]);
        lemma_alguna_acepta_push(cs.drop_first(), c, ch);
    }
}

/// If one member accepts the character, the union accepts it.
proof fn lemma_alguna_acepta_indice(cs: Seq<CharClass>, i: int, ch: char)
    requires
        0 <= i < cs.len(),
        cs[i].spec_matches(ch),
    ensures
        spec_alguna_acepta(cs, ch),
    decreases cs.len(),
{
    if i > 0 {
        lemma_alguna_acepta_indice(cs.drop_first(), i - 1, ch);
    }
}

/// The input with every leading caret removed, as the class parser strips the
/// (ignored) negation markers.
pub open spec fn spec_sin_carets(s: Seq<char>) -> Seq<char>
    decreases s.len(),
{
    if s.len() > 0 && s.first() == '^' {
        spec_sin_carets(s.drop_first())
    } else {
        s
    }
}

/// Shapes of character-class specifications the parser accepts, on the
/// already-trimmed text.
pub open spec fn spec_clase_valida(s: Seq<char>) -> bool {
    ||| s == "ANY"@
    ||| s == "ANY_EXCEPT_NEWLINE"@
    ||| s == "NOTNL"@
    ||| {
        &&& s.len() >= 2
        &&& s.first() == '['
        &&& s.last() == ']'
        &&& {
            let inner = spec_sin_carets(s.subrange(1, s.len() - 1));
            ||| inner.len() == 1
            ||| (inner.len() == 3 && inner[1] == '-')
            ||| inner == "a-zA-Z_"@
            ||| inner == "a-zA-Z"@
            ||| inner == "a-zA-Z0-9_"@
            ||| inner == "a-zA-Z0-9"@
            ||| inner == "0-9"@
        }
    }
    ||| (s.len() == 2 && s.first() == '\\')
    ||| s.len() == 1
    ||| s == "ALPHA"@
    ||| s == "DIGIT"@
    ||| s == "SPACE"@
}

/// The character an escape sequence denotes.
pub open spec fn spec_escape(c: char) -> char {
    if c == 'n' {
        '\n'
    } else if c == 't' {
        '\t'
    } else if c == 'r' {
        '\r'
    } else if c == 's' {
        ' '
    } else {
        c
    }
}

/// Which characters a valid class specification accepts, on the trimmed text.
pub open spec fn spec_clase_acepta(s: Seq<char>, ch: char) -> bool {
    if s == "ANY"@ {
        true
    } else if s == "ANY_EXCEPT_NEWLINE"@ || s == "NOTNL"@ {
        ch != '\n'
    } else if s.len() >= 2 && s.first() == '[' && s.last() == ']' {
        let inner = spec_sin_carets(s.subrange(1, s.len() - 1));
        if inner.len() == 1 {
            ch == inner[0]
        } else if inner.len() == 3 && inner[1] == '-' {
            inner[0] <= ch && ch <= inner[2]
        } else if inner == "a-zA-Z_"@ || inner == "a-zA-Z"@ {
            ('a' <= ch && ch <= 'z') || ('A' <= ch && ch <= 'Z') || ch == '_'
        } else if inner == "a-zA-Z0-9_"@ || inner == "a-zA-Z0-9"@ {
            ('a' <= ch && ch <= 'z') || ('A' <= ch && ch <= 'Z') || ('0' <= ch && ch <= '9')
                || ch == '_'
        } else {
            // "0-9"
            '0' <= ch && ch <= '9'
        }
    } else if s.len() == 2 && s.first() == '\\' {
        ch == spec_escape(s[1])
    } else if s.len() == 1 {
        ch == s[0]
    } else if s == "ALPHA"@ {
        'a' <= ch && ch <= 'z'
    } else if s == "DIGIT"@ {
        '0' <= ch && ch <= '9'
    } else {
        // "SPACE"
        ch == ' '
    }
}

/// The constructor a valid class specification parses to, for every shape
/// whose class carries no list. The bracketed letter unions are the one
/// exception (their class holds a list of ranges) and are stated
/// structurally at `parse` instead.
pub open spec fn spec_clase_simple(s: Seq<char>) -> Option<CharClass> {
    if s == "ANY"@ {
        Some(CharClass::Any)
    } else if s == "ANY_EXCEPT_NEWLINE"@ || s == "NOTNL"@ {
        Some(CharClass::AnyExceptNewline)
    } else if s.len() >= 2 && s.first() == '[' && s.last() == ']' {
        let inner = spec_sin_carets(s.subrange(1, s.len() - 1));
        if inner.len() == 1 {
            Some(CharClass::Exact(inner[0]))
        } else if inner.len() == 3 && inner[1] == '-' {
            Some(CharClass::Range(inner[0], inner[2]))
        } else if inner == "0-9"@ {
            Some(CharClass::Range('0', '9'))
        } else {
            None
        }
    } else if s.len() == 2 && s.first() == '\\' {
        Some(CharClass::Exact(spec_escape(s[1])))
    } else if s.len() == 1 {
        Some(CharClass::Exact(s[0]))
    } else if s == "ALPHA"@ {
        Some(CharClass::Range('a', 'z'))
    } else if s == "DIGIT"@ {
        Some(CharClass::Range('0', '9'))
    } else if s == "SPACE"@ {
        Some(CharClass::Exact(' '))
    } else {
        None
    }
}

/// Whether a trimmed class specification is one of the two bracketed letter
/// unions without digits, `[a-zA-Z_]` or `[a-zA-Z]`.
pub open spec fn spec_union_letras(s: Seq<char>) -> bool {
    &&& s.len() >= 2
    &&& s.first() == '['
    &&& s.last() == ']'
    &&& {
        let inner = spec_sin_carets(s.subrange(1, s.len() - 1));
        inner == "a-zA-Z_"@ || inner == "a-zA-Z"@
    }
}

/// Whether a trimmed class specification is one of the two bracketed letter
/// unions with digits, `[a-zA-Z0-9_]` or `[a-zA-Z0-9]`.
pub open spec fn spec_union_letras_digitos(s: Seq<char>) -> bool {
    &&& s.len() >= 2
    &&& s.first() == '['
    &&& s.last() == ']'
    &&& {
        let inner = spec_sin_carets(s.subrange(1, s.len() - 1));
        inner == "a-zA-Z0-9_"@ || inner == "a-zA-Z0-9"@
    }
}

impl CharClass {
    /// Parses a character-class specification such as `a`, `\n`, `[a-z]`,
    /// `[a-zA-Z0-9_]`, `ANY` or `DIGIT`. Succeeds exactly on the shapes of
    /// `spec_clase_valida`; the resulting class accepts exactly the
    /// characters of `spec_clase_acepta` and is the constructor of
    /// `spec_clase_simple`, or for the letter unions the list of their
    /// ranges.
    pub fn parse(s: &str) -> (r: Result<CharClass, String>)
        ensures
            r.is_ok() == spec_clase_valida(spec_recortada(s@)),
            r.is_ok() ==> forall|ch: char|
                #[trigger] r.unwrap().spec_matches(ch) == spec_clase_acepta(
                    spec_recortada(s@), ch),
            r matches Ok(c) ==> (spec_clase_simple(spec_recortada(s@)) is Some ==> Some(c)
                == spec_clase_simple(spec_recortada(s@))),
            spec_union_letras(spec_recortada(s@)) ==> (r matches Ok(c) && c matches
                CharClass::Multi(cs) && cs@ == seq![
                CharClass::Range('a', 'z'),
                CharClass::Range('A', 'Z'),
                CharClass::Exact('_'),
            ]),
            spec_union_letras_digitos(spec_recortada(s@)) ==> (r matches Ok(c) && c matches
                CharClass::Multi(cs) && cs@ == seq![
                CharClass::Range('a', 'z'),
                CharClass::Range('A', 'Z'),
                CharClass::Range('0', '9'),
                CharClass::Exact('_'),
            ]),
    {
        let v0 = chars_de(s);
        let v = recortar(&v0);
        Self::parse_chars(&v)
    }

    /// The worker behind `parse`, on an already-trimmed character vector.
    #[verifier::rlimit(100)]
    pub fn parse_chars(v: &Vec<char>) -> (r: Result<CharClass, String>)
        ensures
            r.is_ok() == spec_clase_valida(v@),
            r.is_ok() ==> forall|ch: char|
                #[trigger] r.unwrap().spec_matches(ch) == spec_clase_acepta(v@, ch),
            r matches Ok(c) ==> (spec_clase_simple(v@) is Some ==> Some(c)
                == spec_clase_simple(v@)),
            spec_union_letras(v@) ==> (r matches Ok(c) && c matches CharClass::Multi(cs) && cs@
                == seq![
                CharClass::Range('a', 'z'),
                CharClass::Range('A', 'Z'),
                CharClass::Exact('_'),
            ]),
            spec_union_letras_digitos(v@) ==> (r matches Ok(c) && c matches CharClass::Multi(cs)
                && cs@ == seq![
                CharClass::Range('a', 'z'),
                CharClass::Range('A', 'Z'),
                CharClass::Range('0', '9'),
                CharClass::Exact('_'),
            ]),
    {
        if es_cadena(v, "ANY") {
            proof {
                lemma_matches_def(CharClass::Any);
                reveal_strlit("ANY");
            }
            return Ok(CharClass::Any);
        }
        if es_cadena(v, "ANY_EXCEPT_NEWLINE") || es_cadena(v, "NOTNL") {
            proof {
                lemma_matches_def(CharClass::AnyExceptNewline);
                reveal_strlit("ANY_EXCEPT_NEWLINE");
                reveal_strlit("NOTNL");
            }
            return Ok(CharClass::AnyExceptNewline);
        }
        if v.len() >= 2 && v[0] == '[' && v[v.len() - 1] == ']' {
            // Strip the brackets, then any (ignored) negation carets.
            let mut inner: Vec<char> = Vec::new();
            let mut i: usize = 1;
            while i < v.len() - 1
                invariant
                    1 <= i <= v@.len() - 1,
                    v@.len() >= 2,
                    inner@ == v@.subrange(1, i as int),
                decreases v@.len() - i,
            {
                inner.push(v[i]);
                i = i + 1;
                proof {
                    assert(inner@ =~= v@.subrange(1, i as int));
                }
            }
            let mut a: usize = 0;
            proof {
                assert(inner@.subrange(0, inner@.len() as int) =~= inner@);
            }
            while a < inner.len() && inner[a] == '^'
                invariant
                    a <= inner@.len(),
                    spec_sin_carets(inner@) == spec_sin_carets(inner@.subrange(a as int,
                        inner@.len() as int)),
                decreases inner@.len() - a,
            {
                proof {
                    assert(inner@.subrange(a as int, inner@.len() as int).drop_first() =~= inner@
                        .subrange(a + 1 as int, inner@.len() as int));
                }
                a = a + 1;
            }
            let mut sin: Vec<char> = Vec::new();
            let mut j: usize = a;
            while j < inner.len()
                invariant
                    a <= j <= inner@.len(),
                    sin@ == inner@.subrange(a as int, j as int),
                decreases inner@.len() - j,
            {
                sin.push(inner[j]);
                j = j + 1;
                proof {
                    assert(sin@ =~= inner@.subrange(a as int, j as int));
                }
            }
            proof {
                let resto = inner@.subrange(a as int, inner@.len() as int);
                if resto.len() > 0 {
                    assert(resto.first() != '^');
                }
                assert(spec_sin_carets(inner@) == resto);
                assert(sin@ =~= resto);
            }
            if sin.len() == 1 {
                proof {
                    assert(spec_sin_carets(v@.subrange(1, v@.len() - 1)) == sin@);
                    lemma_matches_def(CharClass::Exact(sin@[0]));
                    reveal_strlit("a-zA-Z_");
                    reveal_strlit("a-zA-Z");
                    reveal_strlit("a-zA-Z0-9_");
                    reveal_strlit("a-zA-Z0-9");
                }
                return Ok(CharClass::Exact(sin[0]));
            }
            if sin.len() == 3 && sin[1] == '-' {
                proof {
                    assert(spec_sin_carets(v@.subrange(1, v@.len() - 1)) == sin@);
                    lemma_matches_def(CharClass::Range(sin@[0], sin@[2]));
                    reveal_strlit("a-zA-Z_");
                    reveal_strlit("a-zA-Z");
                    reveal_strlit("a-zA-Z0-9_");
                    reveal_strlit("a-zA-Z0-9");
                }
                return Ok(CharClass::Range(sin[0], sin[2]));
            }
            if es_cadena(&sin, "a-zA-Z_") || es_cadena(&sin, "a-zA-Z") {
                let mut clases: Vec<CharClass> = Vec::new();
                clases.push(CharClass::Range('a', 'z'));
                clases.push(CharClass::Range('A', 'Z'));
                clases.push(CharClass::Exact('_'));
                proof {
                    lemma_union_tres(clases@);
                    lemma_matches_def(CharClass::Range('a', 'z'));
                    lemma_matches_def(CharClass::Range('A', 'Z'));
                    lemma_matches_def(CharClass::Exact('_'));
                    assert(spec_sin_carets(v@.subrange(1, v@.len() - 1)) == sin@);
                    reveal_strlit("a-zA-Z_");
                    reveal_strlit("a-zA-Z");
                    reveal_strlit("a-zA-Z0-9_");
                    reveal_strlit("a-zA-Z0-9");
                    reveal_strlit("0-9");
                    assert(clases@ =~= seq![
                        CharClass::Range('a', 'z'),
                        CharClass::Range('A', 'Z'),
                        CharClass::Exact('_'),
                    ]);
                }
                let ghost vista = clases@;
                let r = CharClass::Multi(clases);
                proof {
                    lemma_matches_def(r);
                    assert(forall|ch: char| #[trigger] r.spec_matches(ch) == spec_alguna_acepta(
                        vista, ch));
                }
                return Ok(r);
            }
            if es_cadena(&sin, "a-zA-Z0-9_") || es_cadena(&sin, "a-zA-Z0-9") {
                let mut clases: Vec<CharClass> = Vec::new();
                clases.push(CharClass::Range('a', 'z'));
                clases.push(CharClass::Range('A', 'Z'));
                clases.push(CharClass::Range('0', '9'));
                clases.push(CharClass::Exact('_'));
                proof {
                    lemma_union_cuatro(clases@);
                    lemma_matches_def(CharClass::Range('a', 'z'));
                    lemma_matches_def(CharClass::Range('A', 'Z'));
                    lemma_matches_def(CharClass::Range('0', '9'));
                    lemma_matches_def(CharClass::Exact('_'));
                    assert(spec_sin_carets(v@.subrange(1, v@.len() - 1)) == sin@);
                    reveal_strlit("a-zA-Z_");
                    reveal_strlit("a-zA-Z");
                    reveal_strlit("a-zA-Z0-9_");
                    reveal_strlit("a-zA-Z0-9");
                    reveal_strlit("0-9");
                    assert(clases@ =~= seq![
                        CharClass::Range('a', 'z'),
                        CharClass::Range('A', 'Z'),
                        CharClass::Range('0', '9'),
                        CharClass::Exact('_'),
                    ]);
                }
                let ghost vista = clases@;
                let r = CharClass::Multi(clases);
                proof {
                    lemma_matches_def(r);
                    assert(forall|ch: char| #[trigger] r.spec_matches(ch) == spec_alguna_acepta(
                        vista, ch));
                }
                return Ok(r);
            }
            if es_cadena(&sin, "0-9") {
                proof {
                    lemma_matches_def(CharClass::Range('0', '9'));
                    assert(spec_sin_carets(v@.subrange(1, v@.len() - 1)) == sin@);
                    reveal_strlit("0-9");
                    reveal_strlit("a-zA-Z_");
                    reveal_strlit("a-zA-Z");
                    reveal_strlit("a-zA-Z0-9_");
                    reveal_strlit("a-zA-Z0-9");
                }
                return Ok(CharClass::Range('0', '9'));
            }
            proof {
                assert(spec_sin_carets(v@.subrange(1, v@.len() - 1)) == sin@);
                // The remaining shapes all start with a letter or a backslash,
                // while this text starts with a bracket.
                reveal_strlit("ALPHA");
                reveal_strlit("DIGIT");
                reveal_strlit("SPACE");
                assert(v@ != "ALPHA"@ && v@ != "DIGIT"@ && v@ != "SPACE"@);
            }
            let msg = String::from_str("Clase de caracteres inválida: ").concat(cadena_de(
                v).as_str());
            return Err(msg);
        }
        if v.len() == 2 && v[0] == '\\' {
            let c = v[1];
            let ch = if c == 'n' {
                '\n'
            } else if c == 't' {
                '\t'
            } else if c == 'r' {
                '\r'
            } else if c == 's' {
                ' '
            } else {
                c
            };
            proof {
                lemma_matches_def(CharClass::Exact(ch));
            }
            return Ok(CharClass::Exact(ch));
        }
        if v.len() == 1 {
            proof {
                lemma_matches_def(CharClass::Exact(v@[0]));
            }
            return Ok(CharClass::Exact(v[0]));
        }
        if es_cadena(v, "ALPHA") {
            proof {
                lemma_matches_def(CharClass::Range('a', 'z'));
            }
            return Ok(CharClass::Range('a', 'z'));
        }
        if es_cadena(v, "DIGIT") {
            proof {
                lemma_matches_def(CharClass::Range('0', '9'));
            }
            return Ok(CharClass::Range('0', '9'));
        }
        if es_cadena(v, "SPACE") {
            proof {
                lemma_matches_def(CharClass::Exact(' '));
            }
            return Ok(CharClass::Exact(' '));
        }
        let msg = String::from_str("Clase de caracteres desconocida: ").concat(cadena_de(
            v).as_str());
        Err(msg)
    }
}

/// A three-member union accepts a character iff one member does.
proof fn lemma_union_tres(cs: Seq<CharClass>)
    requires
        cs.len() == 3,
    ensures
        forall|ch: char| #[trigger] spec_alguna_acepta(cs, ch) == (cs[0].spec_matches(ch)
            || cs[1].spec_matches(ch) || cs[2].spec_matches(ch)),
{
    assert forall|ch: char| #[trigger] spec_alguna_acepta(cs, ch) == (cs[0].spec_matches(ch)
        || cs[1].spec_matches(ch) || cs[2].spec_matches(ch)) by {
        reveal_with_fuel(spec_alguna_acepta, 4);
        let c1 = cs.drop_first();
        let c2 = c1.drop_first();
        let c3 = c2.drop_first();
        assert(c3 =~= Seq::<CharClass>::empty());
        assert(c1[0] == cs[1] && c2[0] == cs[2]);
    }
}

/// A four-member union accepts a character iff one member does.
proof fn lemma_union_cuatro(cs: Seq<CharClass>)
    requires
        cs.len() == 4,
    ensures
        forall|ch: char| #[trigger] spec_alguna_acepta(cs, ch) == (cs[0].spec_matches(ch)
            || cs[1].spec_matches(ch) || cs[2].spec_matches(ch) || cs[3].spec_matches(ch)),
{
    assert forall|ch: char| #[trigger] spec_alguna_acepta(cs, ch) == (cs[0].spec_matches(ch)
        || cs[1].spec_matches(ch) || cs[2].spec_matches(ch) || cs[3].spec_matches(ch)) by {
        reveal_with_fuel(spec_alguna_acepta, 5);
        let c1 = cs.drop_first();
        let c2 = c1.drop_first();
        let c3 = c2.drop_first();
        let c4 = c3.drop_first();
        assert(c4 =~= Seq::<CharClass>::empty());
        assert(c1[0] == cs[1] && c2[0] == cs[2] && c3[0] == cs[3]);
    }
}

/// One automaton transition: from a state, over a character class, to a state.
#[derive(Debug, PartialEq)]
pub struct Transition {
    pub from: StateId,
    pub char_class: CharClass,
    pub to: StateId,
}

/// First transition out of `from` that accepts `ch`, scanning in order.
pub open spec fn spec_siguiente(ts: Seq<Transition>, from: StateId, ch: char) -> Option<StateId>
    decreases ts.len(),
{
    if ts.len() == 0 {
        None
    } else if ts.first().from == from && ts.first().char_class.spec_matches(ch) {
        Some(ts.first().to)
    } else {
        spec_siguiente(ts.drop_first(), from, ch)
    }
}

/// First accepting entry for `s`, if any.
pub open spec fn spec_buscar_final(fs: Seq<(StateId, TokenType)>, s: StateId) -> Option<TokenType>
    decreases fs.len(),
{
    if fs.len() == 0 {
        None
    } else if fs.first().0 == s {
        Some(fs.first().1)
    } else {
        spec_buscar_final(fs.drop_first(), s)
    }
}

/// First keyword entry whose lexeme equals `name`, if any.
pub open spec fn spec_buscar_keyword(ks: Seq<(String, TokenType)>, name: Seq<char>) -> Option<
    TokenType,
>
    decreases ks.len(),
{
    if ks.len() == 0 {
        None
    } else if ks.first().0@ == name {
        Some(ks.first().1)
    } else {
        spec_buscar_keyword(ks.drop_first(), name)
    }
}

/// First interned state whose name equals `name`, if any.
pub open spec fn spec_buscar_estado(m: Seq<(String, StateId)>, name: Seq<char>) -> Option<StateId>
    decreases m.len(),
{
    if m.len() == 0 {
        None
    } else if m.first().0@ == name {
        Some(m.first().1)
    } else {
        spec_buscar_estado(m.drop_first(), name)
    }
}


/// The id of an interned state name, if it is known.
pub open spec fn spec_buscar_id(estados: Seq<(Seq<char>, int)>, nombre: Seq<char>) -> Option<int>
    decreases estados.len(),
{
    if estados.len() == 0 {
        None
    } else if estados.first().0 == nombre {
        Some(estados.first().1)
    } else {
        spec_buscar_id(estados.drop_first(), nombre)
    }
}

/// Interning: a known name keeps the table and yields its id; a new name is
/// appended under the next sequential id.
pub open spec fn spec_interna(estados: Seq<(Seq<char>, int)>, nombre: Seq<char>) -> (
    Seq<(Seq<char>, int)>,
    int,
) {
    match spec_buscar_id(estados, nombre) {
        Some(i) => (estados, i),
        None => (estados.push((nombre, estados.len() as int)), estados.len() as int),
    }
}

/// The position of the accepting entry of a state, if it has one.
pub open spec fn spec_idx_final(finales: Seq<(int, TokenType)>, id: int) -> Option<int>
    decreases finales.len(),
{
    if finales.len() == 0 {
        None
    } else if finales.first().0 == id {
        Some(0)
    } else {
        match spec_idx_final(finales.drop_first(), id) {
            Some(i) => Some(i + 1),
            None => None,
        }
    }
}

/// Recording an accepting kind: replaces the state's entry or appends one.
pub open spec fn spec_pon_final(finales: Seq<(int, TokenType)>, id: int, tt: TokenType) -> Seq<
    (int, TokenType),
> {
    match spec_idx_final(finales, id) {
        Some(i) => finales.update(i, (id, tt)),
        None => finales.push((id, tt)),
    }
}

/// The position of a keyword entry, if the lexeme is known.
pub open spec fn spec_idx_palabra(palabras: Seq<(Seq<char>, TokenType)>, clave: Seq<char>) -> Option<
    int,
>
    decreases palabras.len(),
{
    if palabras.len() == 0 {
        None
    } else if palabras.first().0 == clave {
        Some(0)
    } else {
        match spec_idx_palabra(palabras.drop_first(), clave) {
            Some(i) => Some(i + 1),
            None => None,
        }
    }
}

/// Recording a keyword: replaces the lexeme's entry or appends one.
pub open spec fn spec_pon_palabra(
    palabras: Seq<(Seq<char>, TokenType)>,
    clave: Seq<char>,
    tt: TokenType,
) -> Seq<(Seq<char>, TokenType)> {
    match spec_idx_palabra(palabras, clave) {
        Some(i) => palabras.update(i, (clave, tt)),
        None => palabras.push((clave, tt)),
    }
}

/// A failed id lookup means no entry carries the name.
pub proof fn lemma_buscar_id_none(estados: Seq<(Seq<char>, int)>, nombre: Seq<char>)
    requires
        spec_buscar_id(estados, nombre) is None,
    ensures
        forall|i: int| 0 <= i < estados.len() ==> (#[trigger] estados[i]).0 != nombre,
    decreases estados.len(),
{
    if estados.len() > 0 {
        lemma_buscar_id_none(estados.drop_first(), nombre);
        assert forall|i: int| 0 <= i < estados.len() implies (#[trigger] estados[i]).0
            != nombre by {
            if i > 0 {
                assert(estados.drop_first()[i - 1] == estados[i]);
            }
        }
    }
}

/// The interning table as a mathematical association list.
pub open spec fn vista_estados(m: Seq<(String, StateId)>) -> Seq<(Seq<char>, int)> {
    m.map_values(|p: (String, StateId)| (p.0@, p.1.0 as int))
}

/// The accepting table as a mathematical association list.
pub open spec fn vista_finales(fs: Seq<(StateId, TokenType)>) -> Seq<(int, TokenType)> {
    fs.map_values(|p: (StateId, TokenType)| (p.0.0 as int, p.1))
}

/// The keyword table as a mathematical association list.
pub open spec fn vista_palabras(ks: Seq<(String, TokenType)>) -> Seq<(Seq<char>, TokenType)> {
    ks.map_values(|p: (String, TokenType)| (p.0@, p.1))
}


/// Whether `pref` starts the sequence.
pub open spec fn spec_empieza_con(s: Seq<char>, pref: Seq<char>) -> bool {
    s.len() >= pref.len() && s.subrange(0, pref.len() as int) == pref
}

/// The state of the specification loader after some prefix of the lines: the
/// current section, the chosen initial-state name, the interned states, and
/// the transition, accepting and keyword tables gathered so far.
pub ghost struct EstadoCarga {
    pub seccion: int,
    pub inicial: Option<Seq<char>>,
    pub estados: Seq<(Seq<char>, int)>,
    pub transiciones: Seq<(int, Seq<char>, int)>,
    pub finales: Seq<(int, TokenType)>,
    pub palabras: Seq<(Seq<char>, TokenType)>,
    pub fallo: bool,
}

/// The empty loader state.
pub open spec fn estado_carga_inicial() -> EstadoCarga {
    EstadoCarga {
        seccion: 0,
        inicial: None,
        estados: Seq::empty(),
        transiciones: Seq::empty(),
        finales: Seq::empty(),
        palabras: Seq::empty(),
        fallo: false,
    }
}

/// Processes the words after a state name: each `FINAL:KIND` marker records
/// the state's accepting kind; an unknown kind name is a failure.
pub open spec fn procesa_palabras_estado(
    st: EstadoCarga,
    id: int,
    piezas: Seq<Seq<char>>,
    k: int,
) -> EstadoCarga
    decreases piezas.len() - k,
{
    if st.fallo || k < 0 || k >= piezas.len() {
        st
    } else if spec_empieza_con(piezas[k], "FINAL:"@) {
        let resto = piezas[k].subrange("FINAL:"@.len() as int, piezas[k].len() as int);
        match Automaton::spec_token_type(resto) {
            None => EstadoCarga { fallo: true, ..st },
            Some(tt) => procesa_palabras_estado(
                EstadoCarga { finales: spec_pon_final(st.finales, id, tt), ..st },
                id,
                piezas,
                k + 1,
            ),
        }
    } else {
        procesa_palabras_estado(st, id, piezas, k + 1)
    }
}

/// Processes one specification line, exactly as the loader reads it: blank
/// lines and comments are skipped, section markers switch the section, and a
/// content line extends the table of its section.
pub open spec fn procesa_linea(st: EstadoCarga, linea: Seq<char>) -> EstadoCarga {
    if st.fallo {
        st
    } else {
        let fila = spec_recortada(linea);
        if fila.len() == 0 || fila[0] == '#' {
            st
        } else if fila == "METADATA"@ {
            EstadoCarga { seccion: 1, ..st }
        } else if fila == "STATES"@ {
            EstadoCarga { seccion: 2, ..st }
        } else if fila == "TRANSITIONS"@ {
            EstadoCarga { seccion: 3, ..st }
        } else if fila == "KEYWORDS"@ {
            EstadoCarga { seccion: 4, ..st }
        } else if spec_empieza_con(fila, "END_"@) {
            EstadoCarga { seccion: 0, ..st }
        } else if st.seccion == 1 {
            if spec_empieza_con(fila, "initial_state:"@) {
                let partes = spec_dividida(fila, ':');
                if partes.len() == 2 {
                    EstadoCarga { inicial: Some(spec_recortada(partes[1])), ..st }
                } else {
                    st
                }
            } else {
                st
            }
        } else if st.seccion == 2 {
            let contenido = spec_recortada(spec_dividida(fila, '#')[0]);
            let piezas = spec_palabras(contenido);
            if piezas.len() == 0 {
                st
            } else {
                let par = spec_interna(st.estados, piezas[0]);
                procesa_palabras_estado(
                    EstadoCarga { estados: par.0, ..st },
                    par.1,
                    piezas,
                    1,
                )
            }
        } else if st.seccion == 3 {
            let contenido = spec_recortada(spec_dividida(fila, '#')[0]);
            let crudas = spec_dividida(contenido, ',');
            let partes = crudas.map_values(|c: Seq<char>| spec_recortada(c));
            if partes.len() == 4 && partes[1].len() == 0 && partes[2].len() == 0 {
                carga_transicion(st, partes[0], seq![','], partes[3])
            } else if partes.len() == 3 {
                carga_transicion(st, partes[0], partes[1], partes[2])
            } else {
                st
            }
        } else if st.seccion == 4 {
            let contenido = spec_recortada(spec_dividida(fila, '#')[0]);
            let crudas = spec_dividida(contenido, ',');
            if crudas.len() == 2 {
                let palabra = spec_recortada(crudas[0]);
                let valor = spec_recortada(crudas[1]);
                match Automaton::spec_token_type(valor) {
                    None => EstadoCarga { fallo: true, ..st },
                    Some(tt) => EstadoCarga {
                        palabras: spec_pon_palabra(st.palabras, palabra, tt),
                        ..st
                    },
                }
            } else {
                st
            }
        } else {
            st
        }
    }
}

/// One transition line: both endpoints are interned, then the class text is
/// checked; an invalid class is a failure, a valid one is recorded trimmed.
pub open spec fn carga_transicion(
    st: EstadoCarga,
    desde: Seq<char>,
    clase: Seq<char>,
    hasta: Seq<char>,
) -> EstadoCarga {
    let par_desde = spec_interna(st.estados, desde);
    let par_hasta = spec_interna(par_desde.0, hasta);
    let limpia = spec_recortada(clase);
    if !spec_clase_valida(limpia) {
        EstadoCarga { estados: par_hasta.0, fallo: true, ..st }
    } else {
        EstadoCarga {
            estados: par_hasta.0,
            transiciones: st.transiciones.push((par_desde.1, limpia, par_hasta.1)),
            ..st
        }
    }
}

/// The loader state after the first `n` lines.
pub open spec fn carga_hasta(filas: Seq<Seq<char>>, n: int) -> EstadoCarga
    decreases n,
{
    if n <= 0 {
        estado_carga_inicial()
    } else {
        procesa_linea(carga_hasta(filas, n - 1), filas[n - 1])
    }
}

/// A failure while loading never goes away on later lines.
pub proof fn lemma_fallo_persiste(filas: Seq<Seq<char>>, n: int, m: int)
    requires
        carga_hasta(filas, n).fallo,
        n <= m,
    ensures
        carga_hasta(filas, m).fallo,
    decreases m - n,
{
    if n < m {
        lemma_fallo_persiste(filas, n + 1, m);
    }
}

/// A found state is one of the interned entries.
pub proof fn lemma_buscar_estado_elemento(m: Seq<(String, StateId)>, nombre: Seq<char>)
    ensures
        match spec_buscar_estado(m, nombre) {
            Some(st) => exists|i: int| 0 <= i < m.len() && (#[trigger] m[i]).1 == st,
            None => true,
        },
    decreases m.len(),
{
    if m.len() > 0 {
        lemma_buscar_estado_elemento(m.drop_first(), nombre);
        match spec_buscar_estado(m, nombre) {
            Some(st) => {
                if m[0].0@ != nombre {
                    let i = choose|i: int|
                        0 <= i < m.drop_first().len() && (#[trigger] m.drop_first()[i]).1 == st;
                    assert(m[i + 1] == m.drop_first()[i]);
                }
            }
            None => {}
        }
    }
}

/// The exec-level state lookup agrees with the id lookup on the table view.
pub proof fn lemma_buscar_estado_vista(m: Seq<(String, StateId)>, nombre: Seq<char>)
    ensures
        match spec_buscar_estado(m, nombre) {
            Some(st) => spec_buscar_id(vista_estados(m), nombre) == Some(st.0 as int),
            None => spec_buscar_id(vista_estados(m), nombre) is None,
        },
    decreases m.len(),
{
    if m.len() > 0 {
        lemma_buscar_estado_vista(m.drop_first(), nombre);
        assert(vista_estados(m).drop_first() =~= vista_estados(m.drop_first()));
        assert(vista_estados(m)[0].0 == m[0].0@);
    }
}

/// A loaded automaton agrees with the loader state: same interned states,
/// accepting table and keyword table, and transitions with the same
/// endpoints whose classes accept exactly the characters their
/// specification text denotes.
pub open spec fn corresponde_carga(a: Automaton, st: EstadoCarga) -> bool {
    &&& vista_estados(a.state_map@) == st.estados
    &&& vista_finales(a.final_states@) == st.finales
    &&& vista_palabras(a.keywords@) == st.palabras
    &&& a.transitions@.len() == st.transiciones.len()
    &&& forall|i: int| 0 <= i < a.transitions@.len() ==> {
        &&& (#[trigger] a.transitions@[i]).from.0 as int == st.transiciones[i].0
        &&& a.transitions@[i].to.0 as int == st.transiciones[i].2
        &&& forall|ch: char| #[trigger] a.transitions@[i].char_class.spec_matches(ch)
            == spec_clase_acepta(st.transiciones[i].1, ch)
    }
}

/// Whether the loaded text resolves to an automaton: no line failed, and the
/// named initial state, if any, was interned.
pub open spec fn carga_valida(filas: Seq<Seq<char>>) -> bool {
    let st = carga_hasta(filas, filas.len() as int);
    &&& !st.fallo
    &&& match st.inicial {
        Some(nombre) => spec_buscar_id(st.estados, nombre) is Some,
        None => true,
    }
}

/// The initial state id the loaded text denotes.
pub open spec fn carga_inicial_id(filas: Seq<Seq<char>>) -> int {
    let st = carga_hasta(filas, filas.len() as int);
    match st.inicial {
        Some(nombre) => match spec_buscar_id(st.estados, nombre) {
            Some(id) => id,
            None => 0,
        },
        None => 0,
    }
}

/// The deterministic finite automaton: an initial state, ordered transitions,
/// the accepting states with their token kinds, and the keyword table that
/// reclassifies identifiers.
#[derive(Debug)]
pub struct Automaton {
    pub initial_state: StateId,
    pub transitions: Vec<Transition>,
    pub final_states: Vec<(StateId, TokenType)>,
    pub keywords: Vec<(String, TokenType)>,
    pub state_map: Vec<(String, StateId)>,
}

impl Automaton {
    /// Well-formedness: interned ids are the positions of their names, names
    /// are unique, and every state mentioned anywhere was interned.
    pub open spec fn wf(self) -> bool {
        &&& forall|i: int| 0 <= i < self.state_map@.len() ==> (#[trigger] self.state_map@[i]).1.0
            == i
        &&& forall|i: int, j: int| 0 <= i < j < self.state_map@.len() ==> (
            #[trigger] self.state_map@[i]).0@ != (#[trigger] self.state_map@[j]).0@
        &&& forall|i: int| 0 <= i < self.transitions@.len() ==> (
            #[trigger] self.transitions@[i]).from.0 < self.state_map@.len() && self.transitions@[
            i].to.0 < self.state_map@.len()
        &&& forall|i: int| 0 <= i < self.final_states@.len() ==> (
            #[trigger] self.final_states@[i]).0.0 < self.state_map@.len()
        &&& forall|i: int, j: int| 0 <= i < j < self.final_states@.len() ==> (
            #[trigger] self.final_states@[i]).0 != (#[trigger] self.final_states@[j]).0
        &&& forall|i: int, j: int| 0 <= i < j < self.keywords@.len() ==> (
            #[trigger] self.keywords@[i]).0@ != (#[trigger] self.keywords@[j]).0@
        &&& (self.state_map@.len() == 0 || self.initial_state.0 < self.state_map@.len())
    }

    /// The state scanning starts in.
    pub fn initial_state(&self) -> (r: StateId)
        ensures
            r == self.initial_state,
    {
        self.initial_state
    }

    /// The state reached from `current` on `ch`: the target of the first
    /// transition whose class accepts the character, if any.
    pub fn next_state(&self, current: StateId, ch: char) -> (r: Option<StateId>)
        ensures
            r == spec_siguiente(self.transitions@, current, ch),
    {
        let mut i: usize = 0;
        proof {
            assert(self.transitions@.subrange(0, self.transitions@.len() as int) =~= self
                .transitions@);
        }
        while i < self.transitions.len()
            invariant
                i <= self.transitions@.len(),
                spec_siguiente(self.transitions@, current, ch) == spec_siguiente(
                    self.transitions@.subrange(i as int, self.transitions@.len() as int), current,
                    ch),
            decreases self.transitions@.len() - i,
        {
            proof {
                assert(self.transitions@.subrange(i as int, self.transitions@.len() as int)
                    .drop_first() =~= self.transitions@.subrange(i + 1 as int,
                    self.transitions@.len() as int));
            }
            let t = &self.transitions[i];
            if t.from.as_usize() == current.as_usize() && t.char_class.matches(ch) {
                proof {
                    assert(t.from == current);
                }
                return Some(t.to);
            }
            i = i + 1;
        }
        None
    }

    /// The token kind accepted in `state`, if it is an accepting state.
    pub fn is_final(&self, state: StateId) -> (r: Option<&TokenType>)
        ensures
            match r {
                Some(t) => spec_buscar_final(self.final_states@, state) == Some(*t),
                None => spec_buscar_final(self.final_states@, state).is_none(),
            },
    {
        let mut i: usize = 0;
        proof {
            assert(self.final_states@.subrange(0, self.final_states@.len() as int) =~= self
                .final_states@);
        }
        while i < self.final_states.len()
            invariant
                i <= self.final_states@.len(),
                spec_buscar_final(self.final_states@, state) == spec_buscar_final(
                    self.final_states@.subrange(i as int, self.final_states@.len() as int), state),
            decreases self.final_states@.len() - i,
        {
            proof {
                assert(self.final_states@.subrange(i as int, self.final_states@.len() as int)
                    .drop_first() =~= self.final_states@.subrange(i + 1 as int,
                    self.final_states@.len() as int));
            }
            if self.final_states[i].0.as_usize() == state.as_usize() {
                proof {
                    assert(self.final_states@[i as int].0 == state);
                }
                return Some(&self.final_states[i].1);
            }
            i = i + 1;
        }
        None
    }

    /// How an identifier lexeme is classified: a case-insensitive reserved
    /// word, an exact-case keyword (for the camel-case function names), or a
    /// plain identifier.
    pub open spec fn spec_classify(self, lexeme: Seq<char>) -> TokenType {
        match spec_buscar_keyword(self.keywords@, spec_minusculas(lexeme)) {
            Some(t) => t,
            None => match spec_buscar_keyword(self.keywords@, lexeme) {
                Some(t) => t,
                None => TokenType::Identifier,
            },
        }
    }

    /// Reclassifies an identifier through the keyword table.
    pub fn classify_identifier(&self, lexeme: &str) -> (r: TokenType)
        ensures
            r == self.spec_classify(lexeme@),
    {
        let propio = String::from_str(lexeme);
        let lower = minusculas(&propio);
        match self.buscar_keyword(&lower) {
            Some(t) => t,
            None => match self.buscar_keyword(&propio) {
                Some(t) => t,
                None => TokenType::Identifier,
            },
        }
    }

    /// Looks a lexeme up in the keyword table.
    fn buscar_keyword(&self, name: &String) -> (r: Option<TokenType>)
        ensures
            r == spec_buscar_keyword(self.keywords@, name@),
    {
        let mut i: usize = 0;
        proof {
            assert(self.keywords@.subrange(0, self.keywords@.len() as int) =~= self.keywords@);
        }
        while i < self.keywords.len()
            invariant
                i <= self.keywords@.len(),
                spec_buscar_keyword(self.keywords@, name@) == spec_buscar_keyword(
                    self.keywords@.subrange(i as int, self.keywords@.len() as int), name@),
            decreases self.keywords@.len() - i,
        {
            proof {
                assert(self.keywords@.subrange(i as int, self.keywords@.len() as int).drop_first()
                    =~= self.keywords@.subrange(i + 1 as int, self.keywords@.len() as int));
            }
            if self.keywords[i].0.eq(name) {
                return Some(self.keywords[i].1);
            }
            i = i + 1;
        }
        None
    }

    /// Maps a token-kind name of the specification file to the kind itself.
    pub open spec fn spec_token_type(s: Seq<char>) -> Option<TokenType> {
        if s == "PROGRAMA"@ {
            Some(TokenType::Programa)
        } else if s == "DEFINE"@ {
            Some(TokenType::Define)
        } else if s == "MAQUINAS"@ {
            Some(TokenType::Maquinas)
        } else if s == "CONCENTRADORES"@ {
            Some(TokenType::Concentradores)
        } else if s == "COAXIAL"@ {
            Some(TokenType::Coaxial)
        } else if s == "SEGMENTO"@ {
            Some(TokenType::Segmento)
        } else if s == "MODULO"@ {
            Some(TokenType::Modulo)
        } else if s == "INICIO"@ {
            Some(TokenType::Inicio)
        } else if s == "FIN"@ {
            Some(TokenType::Fin)
        } else if s == "SI"@ {
            Some(TokenType::Si)
        } else if s == "SINO"@ {
            Some(TokenType::Sino)
        } else if s == "COLOCA"@ {
            Some(TokenType::Coloca)
        } else if s == "COLOCA_COAXIAL"@ {
            Some(TokenType::ColocaCoaxial)
        } else if s == "COLOCA_COAXIAL_CONCENTRADOR"@ {
            Some(TokenType::ColocaCoaxialConcentrador)
        } else if s == "UNE_MAQUINA_PUERTO"@ {
            Some(TokenType::UneMaquinaPuerto)
        } else if s == "ASIGNA_PUERTO"@ {
            Some(TokenType::AsignaPuerto)
        } else if s == "MAQUINA_COAXIAL"@ {
            Some(TokenType::MaquinaCoaxial)
        } else if s == "ASIGNA_MAQUINA_COAXIAL"@ {
            Some(TokenType::AsignaMaquinaCoaxial)
        } else if s == "ESCRIBE"@ {
            Some(TokenType::Escribe)
        } else if s == "ARRIBA"@ {
            Some(TokenType::Arriba)
        } else if s == "ABAJO"@ {
            Some(TokenType::Abajo)
        } else if s == "IZQUIERDA"@ {
            Some(TokenType::Izquierda)
        } else if s == "DERECHA"@ {
            Some(TokenType::Derecha)
        } else if s == "EQUAL"@ {
            Some(TokenType::Equal)
        } else if s == "LESS"@ {
            Some(TokenType::Less)
        } else if s == "GREATER"@ {
            Some(TokenType::Greater)
        } else if s == "LESS_EQUAL"@ {
            Some(TokenType::LessEqual)
        } else if s == "GREATER_EQUAL"@ {
            Some(TokenType::GreaterEqual)
        } else if s == "NOT_EQUAL"@ {
            Some(TokenType::NotEqual)
        } else if s == "AND"@ {
            Some(TokenType::And)
        } else if s == "OR"@ {
            Some(TokenType::Or)
        } else if s == "NOT"@ {
            Some(TokenType::Not)
        } else if s == "COMMA"@ {
            Some(TokenType::Comma)
        } else if s == "SEMICOLON"@ {
            Some(TokenType::Semicolon)
        } else if s == "DOT"@ {
            Some(TokenType::Dot)
        } else if s == "LPAREN"@ {
            Some(TokenType::LParen)
        } else if s == "RPAREN"@ {
            Some(TokenType::RParen)
        } else if s == "LBRACKET"@ {
            Some(TokenType::LBracket)
        } else if s == "RBRACKET"@ {
            Some(TokenType::RBracket)
        } else if s == "IDENTIFIER"@ {
            Some(TokenType::Identifier)
        } else if s == "NUMBER"@ {
            Some(TokenType::Number)
        } else if s == "STRING"@ {
            Some(TokenType::Cadena)
        } else if s == "WHITESPACE"@ {
            Some(TokenType::Whitespace)
        } else if s == "COMMENT"@ {
            Some(TokenType::Comment)
        } else if s == "ERROR"@ {
            Some(TokenType::Identifier)
        } else {
            None
        }
    }

    /// Parses a token-kind name such as `PROGRAMA` or `IDENTIFIER`.
    pub fn parse_token_type(s: &str) -> (r: Result<TokenType, String>)
        ensures
            r.is_ok() == Self::spec_token_type(s@).is_some(),
            r.is_ok() ==> Some(r.unwrap()) == Self::spec_token_type(s@),
    {
        let v = chars_de(s);
        Self::parse_token_type_chars(&v)
    }

    /// The worker behind `parse_token_type`, on a character vector.
    pub fn parse_token_type_chars(v: &Vec<char>) -> (r: Result<TokenType, String>)
        ensures
            r.is_ok() == Self::spec_token_type(v@).is_some(),
            r.is_ok() ==> Some(r.unwrap()) == Self::spec_token_type(v@),
    {
        if es_cadena(v, "PROGRAMA") {
            Ok(TokenType::Programa)
        } else if es_cadena(v, "DEFINE") {
            Ok(TokenType::Define)
        } else if es_cadena(v, "MAQUINAS") {
            Ok(TokenType::Maquinas)
        } else if es_cadena(v, "CONCENTRADORES") {
            Ok(TokenType::Concentradores)
        } else if es_cadena(v, "COAXIAL") {
            Ok(TokenType::Coaxial)
        } else if es_cadena(v, "SEGMENTO") {
            Ok(TokenType::Segmento)
        } else if es_cadena(v, "MODULO") {
            Ok(TokenType::Modulo)
        } else if es_cadena(v, "INICIO") {
            Ok(TokenType::Inicio)
        } else if es_cadena(v, "FIN") {
            Ok(TokenType::Fin)
        } else if es_cadena(v, "SI") {
            Ok(TokenType::Si)
        } else if es_cadena(v, "SINO") {
            Ok(TokenType::Sino)
        } else if es_cadena(v, "COLOCA") {
            Ok(TokenType::Coloca)
        } else if es_cadena(v, "COLOCA_COAXIAL") {
            Ok(TokenType::ColocaCoaxial)
        } else if es_cadena(v, "COLOCA_COAXIAL_CONCENTRADOR") {
            Ok(TokenType::ColocaCoaxialConcentrador)
        } else if es_cadena(v, "UNE_MAQUINA_PUERTO") {
            Ok(TokenType::UneMaquinaPuerto)
        } else if es_cadena(v, "ASIGNA_PUERTO") {
            Ok(TokenType::AsignaPuerto)
        } else if es_cadena(v, "MAQUINA_COAXIAL") {
            Ok(TokenType::MaquinaCoaxial)
        } else if es_cadena(v, "ASIGNA_MAQUINA_COAXIAL") {
            Ok(TokenType::AsignaMaquinaCoaxial)
        } else if es_cadena(v, "ESCRIBE") {
            Ok(TokenType::Escribe)
        } else if es_cadena(v, "ARRIBA") {
            Ok(TokenType::Arriba)
        } else if es_cadena(v, "ABAJO") {
            Ok(TokenType::Abajo)
        } else if es_cadena(v, "IZQUIERDA") {
            Ok(TokenType::Izquierda)
        } else if es_cadena(v, "DERECHA") {
            Ok(TokenType::Derecha)
        } else if es_cadena(v, "EQUAL") {
            Ok(TokenType::Equal)
        } else if es_cadena(v, "LESS") {
            Ok(TokenType::Less)
        } else if es_cadena(v, "GREATER") {
            Ok(TokenType::Greater)
        } else if es_cadena(v, "LESS_EQUAL") {
            Ok(TokenType::LessEqual)
        } else if es_cadena(v, "GREATER_EQUAL") {
            Ok(TokenType::GreaterEqual)
        } else if es_cadena(v, "NOT_EQUAL") {
            Ok(TokenType::NotEqual)
        } else if es_cadena(v, "AND") {
            Ok(TokenType::And)
        } else if es_cadena(v, "OR") {
            Ok(TokenType::Or)
        } else if es_cadena(v, "NOT") {
            Ok(TokenType::Not)
        } else if es_cadena(v, "COMMA") {
            Ok(TokenType::Comma)
        } else if es_cadena(v, "SEMICOLON") {
            Ok(TokenType::Semicolon)
        } else if es_cadena(v, "DOT") {
            Ok(TokenType::Dot)
        } else if es_cadena(v, "LPAREN") {
            Ok(TokenType::LParen)
        } else if es_cadena(v, "RPAREN") {
            Ok(TokenType::RParen)
        } else if es_cadena(v, "LBRACKET") {
            Ok(TokenType::LBracket)
        } else if es_cadena(v, "RBRACKET") {
            Ok(TokenType::RBracket)
        } else if es_cadena(v, "IDENTIFIER") {
            Ok(TokenType::Identifier)
        } else if es_cadena(v, "NUMBER") {
            Ok(TokenType::Number)
        } else if es_cadena(v, "STRING") {
            Ok(TokenType::Cadena)
        } else if es_cadena(v, "WHITESPACE") {
            Ok(TokenType::Whitespace)
        } else if es_cadena(v, "COMMENT") {
            Ok(TokenType::Comment)
        } else if es_cadena(v, "ERROR") {
            // Error tokens are treated as identifiers.
            Ok(TokenType::Identifier)
        } else {
            Err(String::from_str("Tipo de token desconocido: ").concat(cadena_de(v).as_str()))
        }
    }

    /// Parses the automaton specification text: four sections (`METADATA`,
    /// `STATES`, `TRANSITIONS`, `KEYWORDS`), with blank lines and `#` comments
    /// ignored and state names interned to sequential ids on first sight.
    /// The whole behaviour follows the line fold `carga_hasta`: it succeeds
    /// exactly when every line loads and the named initial state exists, and
    /// the returned automaton carries exactly the loaded tables, with each
    /// transition's class accepting the characters its specification text
    /// denotes.
    pub fn parse(content: &str) -> (r: Result<Automaton, String>)
        ensures
            ({
                let filas_espec = spec_dividida(content@, '\n');
                &&& r.is_ok() == carga_valida(filas_espec)
                &&& (r matches Ok(a) ==> {
                    &&& a.wf()
                    &&& corresponde_carga(a, carga_hasta(filas_espec, filas_espec.len() as int))
                    &&& a.initial_state.0 as int == carga_inicial_id(filas_espec)
                })
            }),
    {
        let v = chars_de(content);
        let filas = lineas(&v);
        let ghost lv = spec_dividida(content@, '\n');
        proof {
            assert(filas@.map_values(|p: Vec<char>| p@) == lv);
        }

        let mut transitions: Vec<Transition> = Vec::new();
        let ghost mut trans_espec: Seq<(int, Seq<char>, int)> = Seq::empty();
        let mut final_states: Vec<(StateId, TokenType)> = Vec::new();
        let mut keywords: Vec<(String, TokenType)> = Vec::new();
        let mut state_map: Vec<(String, StateId)> = Vec::new();
        let mut initial_name: Option<Vec<char>> = None;

        // 0 = outside any section, 1..4 = the four sections in file order.
        let mut seccion: u8 = 0;

        proof {
            assert(vista_estados(state_map@) =~= Seq::<(Seq<char>, int)>::empty());
            assert(vista_finales(final_states@) =~= Seq::<(int, TokenType)>::empty());
            assert(vista_palabras(keywords@) =~= Seq::<(Seq<char>, TokenType)>::empty());
        }

        let mut num: usize = 0;
        while num < filas.len()
            invariant
                num <= filas@.len(),
                filas@.map_values(|p: Vec<char>| p@) == lv,
                filas@.len() == lv.len(),
                lv == spec_dividida(content@, '\n'),
                ({
                    let st = carga_hasta(lv, num as int);
                    &&& !st.fallo
                    &&& st.seccion == seccion as int
                    &&& st.inicial == match initial_name {
                        Some(nombre) => Some(nombre@),
                        None => None::<Seq<char>>,
                    }
                    &&& st.estados == vista_estados(state_map@)
                    &&& st.finales == vista_finales(final_states@)
                    &&& st.palabras == vista_palabras(keywords@)
                    &&& st.transiciones == trans_espec
                }),
                transitions@.len() == trans_espec.len(),
                forall|i: int| 0 <= i < transitions@.len() ==> {
                    &&& (#[trigger] transitions@[i]).from.0 as int == trans_espec[i].0
                    &&& transitions@[i].to.0 as int == trans_espec[i].2
                    &&& forall|ch: char| #[trigger] transitions@[i].char_class.spec_matches(ch)
                        == spec_clase_acepta(trans_espec[i].1, ch)
                },
                forall|i: int| 0 <= i < state_map@.len() ==> (#[trigger] state_map@[i]).1.0 == i,
                forall|i: int, j: int| 0 <= i < j < state_map@.len() ==> (
                    #[trigger] state_map@[i]).0@ != (#[trigger] state_map@[j]).0@,
                forall|i: int| 0 <= i < transitions@.len() ==> (
                    #[trigger] transitions@[i]).from.0 < state_map@.len() && transitions@[i].to.0
                    < state_map@.len(),
                forall|i: int| 0 <= i < final_states@.len() ==> (
                    #[trigger] final_states@[i]).0.0 < state_map@.len(),
                forall|i: int, j: int| 0 <= i < j < final_states@.len() ==> (
                    #[trigger] final_states@[i]).0 != (#[trigger] final_states@[j]).0,
                forall|i: int, j: int| 0 <= i < j < keywords@.len() ==> (
                    #[trigger] keywords@[i]).0@ != (#[trigger] keywords@[j]).0@,
            decreases filas@.len() - num,
        {
            let ghost st0 = carga_hasta(lv, num as int);
            let fila = recortar(&filas[num]);
            proof {
                assert(filas@.map_values(|p: Vec<char>| p@)[num as int] == filas@[num as int]@);
                assert(fila@ == spec_recortada(lv[num as int]));
                assert(carga_hasta(lv, num + 1) == procesa_linea(st0, lv[num as int]));
            }

            if fila.len() == 0 || fila[0] == '#' {
                // Skipped: blank or comment.
            } else if es_cadena(&fila, "METADATA") {
                seccion = 1;
            } else if es_cadena(&fila, "STATES") {
                seccion = 2;
            } else if es_cadena(&fila, "TRANSITIONS") {
                seccion = 3;
            } else if es_cadena(&fila, "KEYWORDS") {
                seccion = 4;
            } else if empieza_con(&fila, "END_") {
                seccion = 0;
            } else if seccion == 1 {
                // METADATA: only `initial_state: name` matters.
                if empieza_con(&fila, "initial_state:") {
                    let partes = dividir(&fila, ':');
                    if partes.len() == 2 {
                        initial_name = Some(recortar(&partes[1]));
                        proof {
                            assert(partes@.map_values(|p: Vec<char>| p@)[1] == partes@[1]@);
                        }
                    } else {
                        proof {
                            assert(partes@.map_values(|p: Vec<char>| p@).len() == partes@.len());
                        }
                    }
                }
            } else if seccion == 2 {
                // STATES: `name [FINAL:TOKEN_KIND] [#comment]`
                let sin_comentario = dividir(&fila, '#');
                proof {
                    assert(sin_comentario@.map_values(|p: Vec<char>| p@)[0]
                        == sin_comentario@[0]@);
                }
                let contenido = recortar(&sin_comentario[0]);
                let piezas = palabras(&contenido);
                let ghost piezas_e = spec_palabras(contenido@);
                if piezas.len() == 0 {
                    proof {
                        assert(piezas_e.len() == 0);
                    }
                } else {
                    proof {
                        assert(piezas@.map_values(|p: Vec<char>| p@)[0] == piezas@[0]@);
                    }
                    let state_id = Self::intern(&mut state_map, &piezas[0]);
                    let ghost st_mid = EstadoCarga {
                        estados: vista_estados(state_map@),
                        ..st0
                    };
                    let ghost id_e = state_id.0 as int;
                    proof {
                        assert(carga_hasta(lv, num + 1) == procesa_palabras_estado(st_mid, id_e,
                            piezas_e, 1));
                    }
                    let mut k: usize = 1;
                    while k < piezas.len()
                        invariant
                            num < lv.len(),
                            lv == spec_dividida(content@, '\n'),
                            carga_hasta(lv, num + 1) == procesa_palabras_estado(st_mid, id_e,
                                piezas_e, 1),
                            1 <= k <= piezas@.len(),
                            piezas@.map_values(|p: Vec<char>| p@) == piezas_e,
                            piezas@.len() == piezas_e.len(),
                            state_id.0 < state_map@.len(),
                            id_e == state_id.0 as int,
                            st_mid.fallo == false,
                            st_mid.estados == vista_estados(state_map@),
                            procesa_palabras_estado(st_mid, id_e, piezas_e, 1)
                                == procesa_palabras_estado(
                                EstadoCarga { finales: vista_finales(final_states@), ..st_mid },
                                id_e,
                                piezas_e,
                                k as int,
                            ),
                            forall|i: int| 0 <= i < state_map@.len() ==> (
                                #[trigger] state_map@[i]).1.0 == i,
                            forall|i: int, j: int| 0 <= i < j < state_map@.len() ==> (
                                #[trigger] state_map@[i]).0@ != (#[trigger] state_map@[j]).0@,
                            forall|i: int| 0 <= i < final_states@.len() ==> (
                                #[trigger] final_states@[i]).0.0 < state_map@.len(),
                            forall|i: int, j: int| 0 <= i < j < final_states@.len() ==> (
                                #[trigger] final_states@[i]).0 != (
                                #[trigger] final_states@[j]).0,
                        decreases piezas@.len() - k,
                    {
                        let ghost st_k = EstadoCarga {
                            finales: vista_finales(final_states@),
                            ..st_mid
                        };
                        proof {
                            assert(piezas@.map_values(|p: Vec<char>| p@)[k as int] == piezas@[
                                k as int]@);
                        }
                        if empieza_con(&piezas[k], "FINAL:") {
                            let mut resto: Vec<char> = Vec::new();
                            let mut q: usize = 6;
                            proof {
                                reveal_strlit("FINAL:");
                                assert(resto@ =~= piezas@[k as int]@.subrange(6, 6));
                            }
                            while q < piezas[k].len()
                                invariant
                                    k < piezas@.len(),
                                    6 <= q <= piezas@[k as int]@.len() || (q == 6 && piezas@[
                                        k as int]@.len() < 6),
                                    piezas@[k as int]@.len() >= 6 ==> resto@ == piezas@[
                                        k as int]@.subrange(6, q as int),
                                decreases piezas@[k as int]@.len() - q,
                            {
                                resto.push(piezas[k][q]);
                                q = q + 1;
                                proof {
                                    assert(resto@ =~= piezas@[k as int]@.subrange(6, q as int));
                                }
                            }
                            proof {
                                reveal_strlit("FINAL:");
                                assert(piezas_e[k as int].len() >= "FINAL:"@.len());
                                assert(resto@ =~= piezas_e[k as int].subrange(
                                    "FINAL:"@.len() as int, piezas_e[k as int].len() as int));
                            }
                            let tt = match Self::parse_token_type_chars(&resto) {
                                Ok(t) => t,
                                Err(e) => {
                                    proof {
                                        assert(procesa_palabras_estado(st_k, id_e, piezas_e,
                                            k as int).fallo);
                                        assert(procesa_palabras_estado(st_mid, id_e, piezas_e,
                                            1).fallo);
                                        assert(carga_hasta(lv, num + 1).fallo);
                                        lemma_fallo_persiste(lv, num + 1, lv.len() as int);
                                    }
                                    return Err(e);
                                }
                            };
                            Self::poner_final(&mut final_states, state_id, tt);
                        }
                        k = k + 1;
                    }
                    proof {
                        assert(procesa_palabras_estado(EstadoCarga {
                            finales: vista_finales(final_states@),
                            ..st_mid
                        }, id_e, piezas_e, k as int) == EstadoCarga {
                            finales: vista_finales(final_states@),
                            ..st_mid
                        });
                    }
                }
            } else if seccion == 3 {
                // TRANSITIONS: `from, char-class, to [#comment]`; a doubled
                // comma denotes the comma character itself.
                let sin_comentario = dividir(&fila, '#');
                proof {
                    assert(sin_comentario@.map_values(|p: Vec<char>| p@)[0]
                        == sin_comentario@[0]@);
                }
                let contenido = recortar(&sin_comentario[0]);
                let crudas = dividir(&contenido, ',');
                let ghost crudas_e = spec_dividida(contenido@, ',');
                let ghost partes_e = crudas_e.map_values(|c: Seq<char>| spec_recortada(c));
                let mut partes: Vec<Vec<char>> = Vec::new();
                let mut w: usize = 0;
                while w < crudas.len()
                    invariant
                        w <= crudas@.len(),
                        crudas@.map_values(|p: Vec<char>| p@) == crudas_e,
                        crudas@.len() == crudas_e.len(),
                        partes_e == crudas_e.map_values(|c: Seq<char>| spec_recortada(c)),
                        partes@.len() == w,
                        forall|i: int| 0 <= i < w ==> (#[trigger] partes@[i])@ == partes_e[i],
                    decreases crudas@.len() - w,
                {
                    proof {
                        assert(crudas@.map_values(|p: Vec<char>| p@)[w as int] == crudas@[
                            w as int]@);
                        assert(partes_e[w as int] == spec_recortada(crudas_e[w as int]));
                    }
                    partes.push(recortar(&crudas[w]));
                    w = w + 1;
                }
                let mut desde: Vec<char> = Vec::new();
                let mut clase: Vec<char> = Vec::new();
                let mut hasta: Vec<char> = Vec::new();
                let mut hay_transicion: bool = true;
                if partes.len() == 4 && partes[1].len() == 0 && partes[2].len() == 0 {
                    desde = copiar_chars(&partes[0]);
                    clase.push(',');
                    hasta = copiar_chars(&partes[3]);
                    proof {
                        assert(clase@ =~= seq![',']);
                    }
                } else if partes.len() == 3 {
                    desde = copiar_chars(&partes[0]);
                    clase = copiar_chars(&partes[1]);
                    hasta = copiar_chars(&partes[2]);
                } else {
                    hay_transicion = false;
                }
                if hay_transicion {
                    let from = Self::intern(&mut state_map, &desde);
                    let to = Self::intern(&mut state_map, &hasta);
                    let clase_recortada = recortar(&clase);
                    let char_class = match CharClass::parse_chars(&clase_recortada) {
                        Ok(c) => c,
                        Err(e) => {
                            proof {
                                assert(carga_hasta(lv, num + 1).fallo);
                                lemma_fallo_persiste(lv, num + 1, lv.len() as int);
                            }
                            let msg = String::from_str("Línea ").concat(usize_a_cadena(
                                num + 1).as_str()).concat(": ").concat(e.as_str());
                            return Err(msg);
                        }
                    };
                    proof {
                        trans_espec = trans_espec.push((from.0 as int, spec_recortada(clase@),
                            to.0 as int));
                    }
                    transitions.push(Transition { from, char_class, to });
                }
            } else if seccion == 4 {
                // KEYWORDS: `lexeme, TOKEN_KIND [#comment]`
                let sin_comentario = dividir(&fila, '#');
                proof {
                    assert(sin_comentario@.map_values(|p: Vec<char>| p@)[0]
                        == sin_comentario@[0]@);
                }
                let contenido = recortar(&sin_comentario[0]);
                let crudas = dividir(&contenido, ',');
                if crudas.len() == 2 {
                    proof {
                        assert(crudas@.map_values(|p: Vec<char>| p@)[0] == crudas@[0]@);
                        assert(crudas@.map_values(|p: Vec<char>| p@)[1] == crudas@[1]@);
                    }
                    let palabra = recortar(&crudas[0]);
                    let valor = recortar(&crudas[1]);
                    let tt = match Self::parse_token_type_chars(&valor) {
                        Ok(t) => t,
                        Err(e) => {
                            proof {
                                assert(carga_hasta(lv, num + 1).fallo);
                                lemma_fallo_persiste(lv, num + 1, lv.len() as int);
                            }
                            return Err(e);
                        }
                    };
                    Self::poner_keyword(&mut keywords, cadena_de(&palabra), tt);
                } else {
                    proof {
                        assert(crudas@.map_values(|p: Vec<char>| p@).len() == crudas@.len());
                    }
                }
            } else {
                // Content outside every section is ignored.
            }
            num = num + 1;
        }

        proof {
            assert(num as int == lv.len());
        }
        let initial_state = match initial_name {
            Some(nombre) => {
                match Self::buscar_estado(&state_map, &nombre) {
                    Some(id) => {
                        proof {
                            lemma_buscar_estado_vista(state_map@, nombre@);
                            lemma_buscar_estado_elemento(state_map@, nombre@);
                        }
                        id
                    }
                    None => {
                        proof {
                            lemma_buscar_estado_vista(state_map@, nombre@);
                        }
                        let msg = String::from_str("Estado inicial '").concat(cadena_de(
                            &nombre).as_str()).concat("' no encontrado");
                        return Err(msg);
                    }
                }
            }
            None => StateId(0),
        };

        Ok(Automaton { initial_state, transitions, final_states, keywords, state_map })
    }

    /// Interns a state name: returns its id if known, otherwise registers it
    /// under the next sequential id, exactly as `spec_interna` prescribes.
    fn intern(state_map: &mut Vec<(String, StateId)>, name: &Vec<char>) -> (r: StateId)
        requires
            forall|i: int| 0 <= i < old(state_map)@.len() ==> (
                #[trigger] old(state_map)@[i]).1.0 == i,
            forall|i: int, j: int| 0 <= i < j < old(state_map)@.len() ==> (
                #[trigger] old(state_map)@[i]).0@ != (#[trigger] old(state_map)@[j]).0@,
        ensures
            forall|i: int| 0 <= i < final(state_map)@.len() ==> (
                #[trigger] final(state_map)@[i]).1.0 == i,
            forall|i: int, j: int| 0 <= i < j < final(state_map)@.len() ==> (
                #[trigger] final(state_map)@[i]).0@ != (#[trigger] final(state_map)@[j]).0@,
            r.0 < final(state_map)@.len(),
            final(state_map)@.len() >= old(state_map)@.len(),
            forall|i: int| 0 <= i < old(state_map)@.len() ==> final(state_map)@[i] == old(
                state_map)@[i],
            (vista_estados(final(state_map)@), r.0 as int) == spec_interna(vista_estados(
                old(state_map)@), name@),
    {
        let mut i: usize = 0;
        proof {
            assert(vista_estados(state_map@).subrange(0, vista_estados(state_map@).len() as int)
                =~= vista_estados(state_map@));
        }
        while i < state_map.len()
            invariant
                i <= state_map@.len(),
                state_map@ == old(state_map)@,
                forall|j: int| 0 <= j < state_map@.len() ==> (#[trigger] state_map@[j]).1.0 == j,
                forall|j: int, k: int| 0 <= j < k < state_map@.len() ==> (
                    #[trigger] state_map@[j]).0@ != (#[trigger] state_map@[k]).0@,
                spec_buscar_id(vista_estados(state_map@), name@) == spec_buscar_id(vista_estados(
                    state_map@).subrange(i as int, state_map@.len() as int), name@),
            decreases state_map@.len() - i,
        {
            proof {
                assert(vista_estados(state_map@).subrange(i as int, state_map@.len() as int)
                    .drop_first() =~= vista_estados(state_map@).subrange(i + 1 as int,
                    state_map@.len() as int));
                assert(vista_estados(state_map@)[i as int].0 == state_map@[i as int].0@);
            }
            if es_cadena(name, state_map[i].0.as_str()) {
                proof {
                    assert(spec_buscar_id(vista_estados(state_map@), name@) == Some(state_map@[
                        i as int].1.0 as int));
                }
                return state_map[i].1;
            }
            i = i + 1;
        }
        proof {
            assert(spec_buscar_id(vista_estados(state_map@), name@) is None);
            lemma_buscar_id_none(vista_estados(state_map@), name@);
            assert forall|j: int| 0 <= j < state_map@.len() implies (
                #[trigger] state_map@[j]).0@ != name@ by {
                assert(vista_estados(state_map@)[j].0 == state_map@[j].0@);
            }
        }
        let id = StateId(state_map.len());
        state_map.push((cadena_de(name), id));
        proof {
            assert(vista_estados(state_map@) =~= vista_estados(old(state_map)@).push((name@, old(
                state_map)@.len() as int)));
        }
        id
    }

    /// Records (or replaces) the accepting token kind of a state, exactly as
    /// `spec_pon_final` prescribes.
    fn poner_final(final_states: &mut Vec<(StateId, TokenType)>, s: StateId, t: TokenType)
        requires
            forall|i: int, j: int| 0 <= i < j < old(final_states)@.len() ==> (
                #[trigger] old(final_states)@[i]).0 != (#[trigger] old(final_states)@[j]).0,
        ensures
            forall|i: int, j: int| 0 <= i < j < final(final_states)@.len() ==> (
                #[trigger] final(final_states)@[i]).0 != (#[trigger] final(final_states)@[j]).0,
            forall|i: int| 0 <= i < final(final_states)@.len() ==> (
                #[trigger] final(final_states)@[i]).0 == s || exists|j: int|
                    0 <= j < old(final_states)@.len() && old(final_states)@[j] == final(
                        final_states)@[i],
            final(final_states)@.len() <= old(final_states)@.len() + 1,
            vista_finales(final(final_states)@) == spec_pon_final(vista_finales(old(
                final_states)@), s.0 as int, t),
    {
        let mut i: usize = 0;
        proof {
            assert(vista_finales(final_states@).subrange(0, vista_finales(
                final_states@).len() as int) =~= vista_finales(final_states@));
        }
        while i < final_states.len()
            invariant
                i <= final_states@.len(),
                final_states@ == old(final_states)@,
                forall|j: int| 0 <= j < i ==> (#[trigger] final_states@[j]).0 != s,
                forall|a: int, b: int| 0 <= a < b < final_states@.len() ==> (
                    #[trigger] final_states@[a]).0 != (#[trigger] final_states@[b]).0,
                spec_idx_final(vista_finales(final_states@), s.0 as int) == match spec_idx_final(
                    vista_finales(final_states@).subrange(i as int,
                    final_states@.len() as int), s.0 as int) {
                    Some(k) => Some(k + i),
                    None => None,
                },
            decreases final_states@.len() - i,
        {
            proof {
                assert(vista_finales(final_states@).subrange(i as int,
                    final_states@.len() as int).drop_first() =~= vista_finales(final_states@)
                    .subrange(i + 1 as int, final_states@.len() as int));
                assert(vista_finales(final_states@)[i as int].0 == final_states@[
                    i as int].0.0 as int);
            }
            if final_states[i].0.as_usize() == s.as_usize() {
                proof {
                    assert(final_states@[i as int].0 == s);
                    assert(spec_idx_final(vista_finales(final_states@), s.0 as int) == Some(
                        i as int));
                }
                let ghost vieja = final_states@;
                let ghost pos = i as int;
                final_states[i] = (s, t);
                proof {
                    assert(final_states@ == vieja.update(pos, (s, t)));
                    assert(vista_finales(final_states@) =~= vista_finales(vieja).update(pos, (
                        s.0 as int,
                        t,
                    )));
                    assert forall|a: int, b: int|
                        0 <= a < b < final_states@.len() implies (
                        #[trigger] final_states@[a]).0 != (#[trigger] final_states@[b]).0 by {
                        if a != pos && b != pos {
                            assert(final_states@[a] == vieja[a]);
                            assert(final_states@[b] == vieja[b]);
                        } else if a == pos {
                            assert(vieja[b].0 != vieja[pos].0);
                        } else {
                            assert(vieja[a].0 != vieja[pos].0);
                        }
                    }
                    assert forall|a: int| 0 <= a < final_states@.len() implies (
                        #[trigger] final_states@[a]).0 == s || exists|j: int|
                            0 <= j < old(final_states)@.len() && old(final_states)@[j]
                                == final_states@[a] by {
                        if a != pos {
                            assert(old(final_states)@[a] == final_states@[a]);
                        }
                    }
                }
                return;
            }
            i = i + 1;
        }
        proof {
            assert(spec_idx_final(vista_finales(final_states@), s.0 as int) is None);
        }
        final_states.push((s, t));
        proof {
            assert(vista_finales(final_states@) =~= vista_finales(old(final_states)@).push((
                s.0 as int,
                t,
            )));
            assert forall|a: int| 0 <= a < final_states@.len() implies (
                #[trigger] final_states@[a]).0 == s || exists|j: int|
                    0 <= j < old(final_states)@.len() && old(final_states)@[j] == final_states@[
                        a] by {
                if a < old(final_states)@.len() {
                    assert(old(final_states)@[a] == final_states@[a]);
                }
            }
        }
    }

    /// Records (or replaces) a keyword entry, exactly as `spec_pon_palabra`
    /// prescribes.
    fn poner_keyword(keywords: &mut Vec<(String, TokenType)>, palabra: String, t: TokenType)
        requires
            forall|i: int, j: int| 0 <= i < j < old(keywords)@.len() ==> (
                #[trigger] old(keywords)@[i]).0@ != (#[trigger] old(keywords)@[j]).0@,
        ensures
            forall|i: int, j: int| 0 <= i < j < final(keywords)@.len() ==> (
                #[trigger] final(keywords)@[i]).0@ != (#[trigger] final(keywords)@[j]).0@,
            vista_palabras(final(keywords)@) == spec_pon_palabra(vista_palabras(old(keywords)@),
                palabra@, t),
    {
        let mut i: usize = 0;
        proof {
            assert(vista_palabras(keywords@).subrange(0, vista_palabras(keywords@).len() as int)
                =~= vista_palabras(keywords@));
        }
        while i < keywords.len()
            invariant
                i <= keywords@.len(),
                keywords@ == old(keywords)@,
                forall|j: int| 0 <= j < i ==> (#[trigger] keywords@[j]).0@ != palabra@,
                forall|a: int, b: int| 0 <= a < b < keywords@.len() ==> (
                    #[trigger] keywords@[a]).0@ != (#[trigger] keywords@[b]).0@,
                spec_idx_palabra(vista_palabras(keywords@), palabra@) == match spec_idx_palabra(
                    vista_palabras(keywords@).subrange(i as int, keywords@.len() as int),
                    palabra@) {
                    Some(k) => Some(k + i),
                    None => None,
                },
            decreases keywords@.len() - i,
        {
            proof {
                assert(vista_palabras(keywords@).subrange(i as int, keywords@.len() as int)
                    .drop_first() =~= vista_palabras(keywords@).subrange(i + 1 as int,
                    keywords@.len() as int));
                assert(vista_palabras(keywords@)[i as int].0 == keywords@[i as int].0@);
            }
            if keywords[i].0.eq(&palabra) {
                proof {
                    assert(spec_idx_palabra(vista_palabras(keywords@), palabra@) == Some(i as int));
                }
                let ghost vieja = keywords@;
                let ghost pos = i as int;
                keywords[i] = (palabra, t);
                proof {
                    assert(keywords@ == vieja.update(pos, keywords@[pos]));
                    assert(keywords@[pos].0@ == vieja[pos].0@);
                    assert(vista_palabras(keywords@) =~= vista_palabras(vieja).update(pos, (
                        vieja[pos].0@,
                        t,
                    )));
                    assert forall|a: int, b: int|
                        0 <= a < b < keywords@.len() implies (#[trigger] keywords@[a]).0@ != (
                        #[trigger] keywords@[b]).0@ by {
                        if a != pos && b != pos {
                            assert(keywords@[a] == vieja[a]);
                            assert(keywords@[b] == vieja[b]);
                        } else if a == pos {
                            assert(keywords@[b] == vieja[b]);
                            assert(vieja[b].0@ != vieja[pos].0@);
                        } else {
                            assert(keywords@[a] == vieja[a]);
                            assert(vieja[a].0@ != vieja[pos].0@);
                        }
                    }
                }
                return;
            }
            i = i + 1;
        }
        proof {
            assert(spec_idx_palabra(vista_palabras(keywords@), palabra@) is None);
        }
        keywords.push((palabra, t));
        proof {
            assert(vista_palabras(keywords@) =~= vista_palabras(old(keywords)@).push((
                palabra@,
                t,
            )));
        }
    }

    /// Looks a state name up in the interning table.
    fn buscar_estado(state_map: &Vec<(String, StateId)>, name: &Vec<char>) -> (r: Option<StateId>)
        ensures
            r == spec_buscar_estado(state_map@, name@),
    {
        let mut i: usize = 0;
        proof {
            assert(state_map@.subrange(0, state_map@.len() as int) =~= state_map@);
        }
        while i < state_map.len()
            invariant
                i <= state_map@.len(),
                spec_buscar_estado(state_map@, name@) == spec_buscar_estado(state_map@.subrange(
                    i as int, state_map@.len() as int), name@),
            decreases state_map@.len() - i,
        {
            proof {
                assert(state_map@.subrange(i as int, state_map@.len() as int).drop_first() =~=
                    state_map@.subrange(i + 1 as int, state_map@.len() as int));
            }
            if es_cadena(name, state_map[i].0.as_str()) {
                return Some(state_map[i].1);
            }
            i = i + 1;
        }
        None
    }
}

} // verus!
