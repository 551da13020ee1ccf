//! Small verified text utilities shared by the lexer, the parsers and the
//! error messages: conversions between `&str`, `String` and `Vec<char>`,
//! ASCII lower-casing, decimal rendering and parsing, trimming and splitting.

use vstd::prelude::*;

verus! {

/// Relies on std's `String::push`: appends exactly one character at the end.
#[verifier::external_body]
pub fn empujar_char(s: &mut String, c: char)
    ensures
        final(s)@ == old(s)@.push(c),
{
    s.push(c);
}

/// Collects the characters of a string slice into a vector.
pub fn chars_de(s: &str) -> (r: Vec<char>)
    ensures
        r@ == s@,
{
    let n: usize = s.unicode_len();
    let mut v: Vec<char> = Vec::new();
    let mut i: usize = 0;
    while i < n
        invariant
            i <= n,
            n == s@.len(),
            v@ == s@.subrange(0, i as int),
        decreases n - i,
    {
        let c = s.get_char(i);
        v.push(c);
        i = i + 1;
        proof {
            assert(v@ =~= s@.subrange(0, i as int));
        }
    }
    proof {
        assert(v@ =~= s@);
    }
    v
}

/// Builds an owned string out of a character vector.
pub fn cadena_de(v: &Vec<char>) -> (r: String)
    ensures
        r@ == v@,
{
    let mut s = String::new();
    let mut i: usize = 0;
    while i < v.len()
        invariant
            i <= v@.len(),
            s@ == v@.subrange(0, i as int),
        decreases v@.len() - i,
    {
        empujar_char(&mut s, v[i]);
        i = i + 1;
        proof {
            assert(s@ =~= v@.subrange(0, i as int));
        }
    }
    proof {
        assert(s@ =~= v@);
    }
    s
}

/// Compares a character vector against a string slice.
pub fn es_cadena(v: &Vec<char>, s: &str) -> (r: bool)
    ensures
        r == (v@ == s@),
{
    let n: usize = s.unicode_len();
    if v.len() != n {
        return false;
    }
    let mut i: usize = 0;
    while i < n
        invariant
            i <= n,
            n == s@.len(),
            n == v@.len(),
            forall|j: int| 0 <= j < i ==> v@[j] == s@[j],
        decreases n - i,
    {
        if v[i] != s.get_char(i) {
            return false;
        }
        i = i + 1;
    }
    proof {
        assert(v@ =~= s@);
    }
    true
}

/// ASCII lower-casing of a single character; anything outside `A`..`Z` is kept.
pub open spec fn spec_minuscula_char(c: char) -> char {
    if 'A' <= c && c <= 'Z' {
        ((c as u8) + 32) as char
    } else {
        c
    }
}

/// ASCII lower-casing of a character sequence.
pub open spec fn spec_minusculas(s: Seq<char>) -> Seq<char> {
    s.map_values(|c: char| spec_minuscula_char(c))
}

/// Lower-cases the ASCII letters of a string; other characters are unchanged.
pub fn minusculas(s: &String) -> (r: String)
    ensures
        r@ == spec_minusculas(s@),
{
    let v = chars_de(s.as_str());
    let mut out: Vec<char> = Vec::new();
    let mut i: usize = 0;
    while i < v.len()
        invariant
            i <= v@.len(),
            v@ == s@,
            out@ == spec_minusculas(s@.subrange(0, i as int)),
        decreases v@.len() - i,
    {
        let c = v[i];
        if 'A' <= c && c <= 'Z' {
            out.push(((c as u8) + 32) as char);
        } else {
            out.push(c);
        }
        i = i + 1;
        proof {
            assert(out@ =~= spec_minusculas(s@.subrange(0, i as int)));
        }
    }
    proof {
        assert(out@ =~= spec_minusculas(s@));
    }
    cadena_de(&out)
}

/// Decimal rendering of a natural number, most significant digit first.
pub open spec fn spec_decimal(n: nat) -> Seq<char>
    decreases n,
{
    if n < 10 {
        seq![((n + 48) as u8) as char]
    } else {
        spec_decimal(n / 10) + seq![((n % 10 + 48) as u8) as char]
    }
}

/// Decimal rendering of a signed 32-bit value, with a leading minus sign for
/// negative values.
pub open spec fn spec_decimal_i32(n: int) -> Seq<char> {
    if n < 0 {
        seq!['-'] + spec_decimal((-n) as nat)
    } else {
        spec_decimal(n as nat)
    }
}

/// Renders an unsigned value in decimal.
pub fn u64_a_cadena(n: u64) -> (r: String)
    ensures
        r@ == spec_decimal(n as nat),
    decreases n,
{
    if n < 10 {
        let mut s = String::new();
        empujar_char(&mut s, ((n as u8) + 48) as char);
        proof {
            assert(s@ =~= spec_decimal(n as nat));
        }
        s
    } else {
        let mut s = u64_a_cadena(n / 10);
        empujar_char(&mut s, (((n % 10) as u8) + 48) as char);
        proof {
            assert(s@ =~= spec_decimal(n as nat));
        }
        s
    }
}

/// Renders a `usize` in decimal.
pub fn usize_a_cadena(n: usize) -> (r: String)
    ensures
        r@ == spec_decimal(n as nat),
{
    u64_a_cadena(n as u64)
}

/// Renders a signed 32-bit value in decimal.
pub fn i32_a_cadena(n: i32) -> (r: String)
    ensures
        r@ == spec_decimal_i32(n as int),
{
    if n < 0 {
        let mut s = String::new();
        empujar_char(&mut s, '-');
        let m: u64 = if n == i32::MIN {
            2147483648u64
        } else {
            (-n) as u64
        };
        let d = u64_a_cadena(m);
        let r = s.concat(d.as_str());
        proof {
            assert(r@ =~= spec_decimal_i32(n as int));
        }
        r
    } else {
        u64_a_cadena(n as u64)
    }
}

/// Whether every character of the sequence is a decimal digit, and the
/// sequence is not empty.
pub open spec fn spec_todo_digitos(s: Seq<char>) -> bool {
    s.len() > 0 && forall|i: int| 0 <= i < s.len() ==> '0' <= #[trigger] s[i] && s[i] <= '9'
}

/// Value of a digit sequence read in base ten.
pub open spec fn spec_valor_decimal(s: Seq<char>) -> nat
    decreases s.len(),
{
    if s.len() == 0 {
        0
    } else {
        spec_valor_decimal(s.drop_last()) * 10 + ((s.last() as u8) - 48) as nat
    }
}

/// Parses a digit string as a signed 32-bit value; any malformed or
/// out-of-range input yields 0, mirroring a parse-with-default.
pub fn digitos_a_i32(v: &Vec<char>) -> (r: i32)
    ensures
        r as int == if spec_todo_digitos(v@) && spec_valor_decimal(v@) <= i32::MAX as nat {
            spec_valor_decimal(v@) as int
        } else {
            0
        },
{
    if v.len() == 0 {
        return 0;
    }
    let mut acc: u64 = 0;
    let mut desborde: bool = false;
    let mut i: usize = 0;
    while i < v.len()
        invariant
            i <= v@.len(),
            v@.len() > 0,
            forall|j: int| 0 <= j < i ==> '0' <= #[trigger] v@[j] && v@[j] <= '9',
            !desborde ==> acc as nat == spec_valor_decimal(v@.subrange(0, i as int))
                && acc <= i32::MAX as u64,
            desborde ==> spec_valor_decimal(v@.subrange(0, i as int)) > i32::MAX as nat,
        decreases v@.len() - i,
    {
        let c = v[i];
        if c < '0' || c > '9' {
            return 0;
        }
        let d: u64 = ((c as u8) - 48) as u64;
        proof {
            assert(v@.subrange(0, i + 1 as int).drop_last() =~= v@.subrange(0, i as int));
        }
        if desborde {
            proof {
                let pref = v@.subrange(0, i as int);
                let ext = v@.subrange(0, i + 1 as int);
                assert(spec_valor_decimal(ext) == spec_valor_decimal(pref) * 10 + ((c as u8)
                    - 48) as nat);
                assert(spec_valor_decimal(pref) * 10 >= spec_valor_decimal(pref)) by (nonlinear_arith);
            }
        } else {
            let nuevo: u64 = acc * 10 + d;
            if nuevo > i32::MAX as u64 {
                desborde = true;
            } else {
                acc = nuevo;
            }
        }
        i = i + 1;
    }
    proof {
        assert(v@.subrange(0, v@.len() as int) =~= v@);
    }
    if desborde {
        0
    } else {
        acc as i32
    }
}

/// Whether a character counts as blank when trimming specification lines.
pub open spec fn spec_es_blanco(c: char) -> bool {
    c == ' ' || c == '\t' || c == '\r'
}

pub fn es_blanco(c: char) -> (r: bool)
    ensures
        r == spec_es_blanco(c),
{
    c == ' ' || c == '\t' || c == '\r'
}

/// The sequence with leading blanks removed.
pub open spec fn spec_sin_blancos_inicio(s: Seq<char>) -> Seq<char>
    decreases s.len(),
{
    if s.len() > 0 && spec_es_blanco(s.first()) {
        spec_sin_blancos_inicio(s.drop_first())
    } else {
        s
    }
}

/// The sequence with trailing blanks removed.
pub open spec fn spec_sin_blancos_final(s: Seq<char>) -> Seq<char>
    decreases s.len(),
{
    if s.len() > 0 && spec_es_blanco(s.last()) {
        spec_sin_blancos_final(s.drop_last())
    } else {
        s
    }
}

/// The sequence with blanks removed at both ends.
pub open spec fn spec_recortada(s: Seq<char>) -> Seq<char> {
    spec_sin_blancos_final(spec_sin_blancos_inicio(s))
}

/// Trims blanks (spaces, tabs, carriage returns) from both ends.
pub fn recortar(v: &Vec<char>) -> (r: Vec<char>)
    ensures
        r@ == spec_recortada(v@),
{
    let mut a: usize = 0;
    proof {
        assert(v@.subrange(0, v@.len() as int) =~= v@);
    }
    while a < v.len() && es_blanco(v[a])
        invariant
            a <= v@.len(),
            spec_sin_blancos_inicio(v@) == spec_sin_blancos_inicio(v@.subrange(a as int, v@.len() as int)),
        decreases v@.len() - a,
    {
        proof {
            assert(v@.subrange(a as int, v@.len() as int).drop_first() =~= v@.subrange(
                a + 1 as int, v@.len() as int));
        }
        a = a + 1;
    }
    let mut b: usize = v.len();
    proof {
        let resto = v@.subrange(a as int, v@.len() as int);
        if resto.len() > 0 {
            assert(!spec_es_blanco(resto.first()));
        }
        assert(spec_sin_blancos_inicio(v@) == resto);
    }
    while b > a && es_blanco(v[b - 1])
        invariant
            a <= b <= v@.len(),
            spec_sin_blancos_inicio(v@) == v@.subrange(a as int, v@.len() as int),
            spec_sin_blancos_final(v@.subrange(a as int, v@.len() as int)) == spec_sin_blancos_final(
                v@.subrange(a as int, b as int)),
        decreases b,
    {
        proof {
            assert(v@.subrange(a as int, b as int).drop_last() =~= v@.subrange(
                a as int, b - 1 as int));
        }
        b = b - 1;
    }
    proof {
        let seg = v@.subrange(a as int, b as int);
        if seg.len() > 0 {
            assert(seg.last() == v@[b - 1]);
            assert(!spec_es_blanco(seg.last()));
        }
        assert(spec_sin_blancos_final(seg) == seg);
        assert(spec_recortada(v@) == seg);
    }
    let mut r: Vec<char> = Vec::new();
    let mut i: usize = a;
    while i < b
        invariant
            a <= i <= b <= v@.len(),
            r@ == v@.subrange(a as int, i as int),
        decreases b - i,
    {
        r.push(v[i]);
        i = i + 1;
        proof {
            assert(r@ =~= v@.subrange(a as int, i as int));
        }
    }
    r
}

/// The pieces of `s` cut at every occurrence of `sep` (separators removed;
/// empty pieces kept, as a plain split produces).
pub open spec fn spec_dividida(s: Seq<char>, sep: char) -> Seq<Seq<char>>
    decreases s.len(),
{
    if s.len() == 0 {
        seq![Seq::<char>::empty()]
    } else if s.last() == sep {
        spec_dividida(s.drop_last(), sep) + seq![Seq::<char>::empty()]
    } else {
        let resto = spec_dividida(s.drop_last(), sep);
        resto.update(resto.len() - 1, resto.last().push(s.last()))
    }
}

/// Splits a character vector at every occurrence of a separator.
pub fn dividir(v: &Vec<char>, sep: char) -> (r: Vec<Vec<char>>)
    ensures
        r@.map_values(|p: Vec<char>| p@) == spec_dividida(v@, sep),
        r@.len() > 0,
{
    let mut r: Vec<Vec<char>> = Vec::new();
    let mut actual: Vec<char> = Vec::new();
    let mut i: usize = 0;
    while i < v.len()
        invariant
            i <= v@.len(),
            spec_dividida(v@.subrange(0, i as int), sep) == r@.map_values(|p: Vec<char>| p@).push(
                actual@),
        decreases v@.len() - i,
    {
        proof {
            assert(v@.subrange(0, i + 1 as int).drop_last() =~= v@.subrange(0, i as int));
        }
        let c = v[i];
        if c == sep {
            r.push(actual);
            actual = Vec::new();
            proof {
                assert(r@.map_values(|p: Vec<char>| p@).push(actual@) =~= spec_dividida(
                    v@.subrange(0, i + 1 as int), sep));
            }
        } else {
            actual.push(c);
            proof {
                let antes = spec_dividida(v@.subrange(0, i as int), sep);
                assert(antes.last() == antes[antes.len() - 1]);
                assert(r@.map_values(|p: Vec<char>| p@).push(actual@) =~= antes.update(
                    antes.len() - 1, antes.last().push(c)));
            }
        }
        i = i + 1;
    }
    proof {
        assert(v@.subrange(0, v@.len() as int) =~= v@);
    }
    r.push(actual);
    proof {
        assert(r@.map_values(|p: Vec<char>| p@) =~= spec_dividida(v@, sep));
    }
    r
}

/// Splits into lines at every newline character.
pub fn lineas(v: &Vec<char>) -> (r: Vec<Vec<char>>)
    ensures
        r@.map_values(|p: Vec<char>| p@) == spec_dividida(v@, '\n'),
        r@.len() > 0,
{
    dividir(v, '\n')
}

/// The blank-separated words of a sequence, empty pieces dropped.
pub open spec fn spec_palabras(s: Seq<char>) -> Seq<Seq<char>> {
    spec_dividida(s, ' ').filter(|p: Seq<char>| p.len() > 0)
}

/// Splits at spaces and drops the empty pieces. Tabs and carriage returns are
/// expected to have been trimmed or are treated as word characters.
pub fn palabras(v: &Vec<char>) -> (r: Vec<Vec<char>>)
    ensures
        r@.map_values(|p: Vec<char>| p@) == spec_palabras(v@),
{
    let piezas = dividir(v, ' ');
    let mut r: Vec<Vec<char>> = Vec::new();
    let mut i: usize = 0;
    proof {
        assert(piezas@.map_values(|p: Vec<char>| p@).subrange(0, 0) =~= Seq::<Seq<char>>::empty());
        assert(Seq::<Seq<char>>::empty().filter(|p: Seq<char>| p.len() > 0) =~= Seq::<
            Seq<char>,
        >::empty());
        assert(r@.map_values(|p: Vec<char>| p@) =~= Seq::<Seq<char>>::empty());
    }
    while i < piezas.len()
        invariant
            i <= piezas@.len(),
            r@.map_values(|p: Vec<char>| p@) == piezas@.map_values(|p: Vec<char>| p@).subrange(
                0, i as int).filter(|p: Seq<char>| p.len() > 0),
        decreases piezas@.len() - i,
    {
        proof {
            let todas = piezas@.map_values(|p: Vec<char>| p@);
            assert(todas.subrange(0, i + 1 as int).drop_last() =~= todas.subrange(0, i as int));
            reveal_with_fuel(Seq::filter, 2);
            assert(todas.subrange(0, i + 1 as int).last() == todas[i as int]);
        }
        if piezas[i].len() > 0 {
            let p = piezas[i].clone();
            r.push(p);
            proof {
                let todas = piezas@.map_values(|p: Vec<char>| p@);
                assert(r@.map_values(|p: Vec<char>| p@) =~= todas.subrange(0, i + 1 as int).filter(
                    |p: Seq<char>| p.len() > 0));
            }
        }
        i = i + 1;
    }
    proof {
        let todas = piezas@.map_values(|p: Vec<char>| p@);
        assert(todas.subrange(0, todas.len() as int) =~= todas);
    }
    r
}

/// Copies a character vector.
pub fn copiar_chars(v: &Vec<char>) -> (r: Vec<char>)
    ensures
        r@ == v@,
{
    let mut r: Vec<char> = Vec::new();
    let mut i: usize = 0;
    while i < v.len()
        invariant
            i <= v@.len(),
            r@ == v@.subrange(0, i as int),
        decreases v@.len() - i,
    {
        r.push(v[i]);
        i = i + 1;
        proof {
            assert(r@ =~= v@.subrange(0, i as int));
        }
    }
    proof {
        assert(r@ =~= v@);
    }
    r
}

/// Compares an owned string against a string slice.
pub fn str_eq(a: &String, lit: &str) -> (r: bool)
    ensures
        r == (a@ == lit@),
{
    a.eq(&String::from_str(lit))
}

/// Whether `prefijo` is a prefix of `v`.
pub fn empieza_con(v: &Vec<char>, prefijo: &str) -> (r: bool)
    ensures
        r == (v@.len() >= prefijo@.len() && v@.subrange(0, prefijo@.len() as int) == prefijo@),
{
    let n: usize = prefijo.unicode_len();
    if v.len() < n {
        return false;
    }
    let mut i: usize = 0;
    while i < n
        invariant
            i <= n,
            n == prefijo@.len(),
            v@.len() >= n,
            forall|j: int| 0 <= j < i ==> v@[j] == prefijo@[j],
        decreases n - i,
    {
        if v[i] != prefijo.get_char(i) {
            proof {
                assert(v@.subrange(0, n as int)[i as int] == v@[i as int]);
            }
            return false;
        }
        i = i + 1;
    }
    proof {
        assert(v@.subrange(0, n as int) =~= prefijo@);
    }
    true
}

} // verus!
