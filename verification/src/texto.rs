//! Text operations on the character sequences behind `&str` and `String`.

use vstd::prelude::*;
use vstd::string::*;

verus! {

// ---------------------------------------------------------------------------
// Searching
// ---------------------------------------------------------------------------

/// `pat` occurs in `s` at position `i`.
pub open spec fn aparece_en(s: Seq<char>, pat: Seq<char>, i: int) -> bool {
    0 <= i && i + pat.len() <= s.len() && s.subrange(i, i + pat.len()) == pat
}

/// `pat` occurs somewhere in `s`.
pub open spec fn contiene(s: Seq<char>, pat: Seq<char>) -> bool {
    exists|i: int| aparece_en(s, pat, i)
}

/// `i` is the leftmost position at which `pat` occurs in `s`.
pub open spec fn es_primera(s: Seq<char>, pat: Seq<char>, i: int) -> bool {
    aparece_en(s, pat, i) && forall|j: int| 0 <= j < i ==> !aparece_en(s, pat, j)
}

/// The leftmost position at which `pat` occurs in `s`, if it occurs at all.
pub open spec fn primera(s: Seq<char>, pat: Seq<char>) -> Option<int> {
    if contiene(s, pat) {
        Some(choose|i: int| es_primera(s, pat, i))
    } else {
        None
    }
}

/// `s` begins with `pat`.
pub open spec fn empieza(s: Seq<char>, pat: Seq<char>) -> bool {
    aparece_en(s, pat, 0)
}

/// The leftmost occurrence is unique, so naming one position settles `primera`.
pub proof fn lemma_primera(s: Seq<char>, pat: Seq<char>, i: int)
    requires
        es_primera(s, pat, i),
    ensures
        primera(s, pat) == Some(i),
{
    assert(contiene(s, pat));
    let k = choose|k: int| es_primera(s, pat, k);
    assert(es_primera(s, pat, k));
    if k < i {
        assert(!aparece_en(s, pat, k));
    }
    if i < k {
        assert(!aparece_en(s, pat, i));
    }
}

/// A sequence that contains `pat` has a leftmost occurrence of it.
pub proof fn lemma_hay_primera(s: Seq<char>, pat: Seq<char>)
    requires
        contiene(s, pat),
    ensures
        primera(s, pat) is Some,
        es_primera(s, pat, primera(s, pat)->0),
{
    let i = choose|i: int| aparece_en(s, pat, i);
    lemma_bajar(s, pat, i);
}

proof fn lemma_bajar(s: Seq<char>, pat: Seq<char>, i: int)
    requires
        aparece_en(s, pat, i),
    ensures
        exists|k: int| es_primera(s, pat, k),
    decreases i,
{
    if exists|j: int| 0 <= j < i && aparece_en(s, pat, j) {
        let j = choose|j: int| 0 <= j < i && aparece_en(s, pat, j);
        lemma_bajar(s, pat, j);
    } else {
        assert(es_primera(s, pat, i));
    }
}

/// The characters of `s`, in order.
pub fn a_chars(s: &str) -> (r: Vec<char>)
    ensures
        r@ == s@,
{
    let mut v: Vec<char> = Vec::new();
    for c in it: s.chars()
        invariant
            v@ == it.seq().take(it.index() as int),
            it.seq() == s@,
    {
        v.push(c);
    }
    v
}

fn coincide(s: &Vec<char>, pat: &Vec<char>, i: usize) -> (r: bool)
    requires
        i + pat.len() <= s.len(),
    ensures
        r == aparece_en(s@, pat@, i as int),
{
    let mut k: usize = 0;
    while k < pat.len()
        invariant
            k <= pat.len(),
            i + pat.len() <= s.len(),
            forall|j: int| 0 <= j < k ==> s@[i + j] == pat@[j],
        decreases pat.len() - k,
    {
        if s[i + k] != pat[k] {
            assert(s@.subrange(i as int, i + pat@.len())[k as int] == s@[i + k]);
            return false;
        }
        k += 1;
    }
    assert(s@.subrange(i as int, i + pat@.len()) =~= pat@);
    true
}

/// Whether two texts hold the same characters.
pub fn iguales(a: &str, b: &str) -> (r: bool)
    ensures
        r == (a@ == b@),
{
    let x = a_chars(a);
    let y = a_chars(b);
    if x.len() != y.len() {
        return false;
    }
    let r = coincide(&x, &y, 0);
    assert(x@.subrange(0, x@.len() as int) =~= x@);
    r
}

/// The position of the first occurrence of `pat` in `s`, counted in characters.
pub fn buscar_texto(s: &str, pat: &str) -> (r: Option<usize>)
    ensures
        match r {
            Some(i) => primera(s@, pat@) == Some(i as int) && es_primera(s@, pat@, i as int),
            None => !contiene(s@, pat@) && primera(s@, pat@) is None,
        },
{
    let x = a_chars(s);
    let y = a_chars(pat);
    let mut i: usize = 0;
    if y.len() > x.len() {
        return None;
    }
    let ultimo: usize = x.len() - y.len();
    loop
        invariant
            x@ == s@,
            y@ == pat@,
            ultimo == x.len() - y.len(),
            i <= ultimo,
            forall|j: int| 0 <= j < i ==> !aparece_en(s@, pat@, j),
        decreases ultimo - i,
    {
        if coincide(&x, &y, i) {
            proof {
                lemma_primera(s@, pat@, i as int);
            }
            return Some(i);
        }
        if i == ultimo {
            return None;
        }
        i += 1;
    }
}

/// Whether `pat` occurs in `s`.
pub fn contiene_texto(s: &str, pat: &str) -> (r: bool)
    ensures
        r == contiene(s@, pat@),
{
    match buscar_texto(s, pat) {
        Some(_) => true,
        None => false,
    }
}

/// Whether `s` begins with `pat`.
pub fn empieza_por(s: &str, pat: &str) -> (r: bool)
    ensures
        r == empieza(s@, pat@),
{
    let x = a_chars(s);
    let y = a_chars(pat);
    if y.len() > x.len() {
        return false;
    }
    coincide(&x, &y, 0)
}

/// The position of the first `c` in `s`, counted in characters.
pub fn buscar_char(s: &str, c: char) -> (r: Option<usize>)
    ensures
        match r {
            Some(i) => {
                &&& i < s@.len()
                &&& s@[i as int] == c
                &&& !s@.take(i as int).contains(c)
                &&& posicion(s@, c) == Some(i as int)
            },
            None => !s@.contains(c) && posicion(s@, c) is None,
        },
{
    let x = a_chars(s);
    let mut i: usize = 0;
    while i < x.len()
        invariant
            x@ == s@,
            i <= x.len(),
            forall|j: int| 0 <= j < i ==> s@[j] != c,
        decreases x.len() - i,
    {
        if x[i] == c {
            proof {
                lemma_posicion(s@, c, i as int);
            }
            return Some(i);
        }
        i += 1;
    }
    None
}

/// The index of the first `c` in `s`, if `s` holds one.
pub open spec fn posicion(s: Seq<char>, c: char) -> Option<int> {
    if s.contains(c) {
        Some(choose|i: int| es_posicion(s, c, i))
    } else {
        None
    }
}

/// `i` is the index of the first `c` in `s`.
pub open spec fn es_posicion(s: Seq<char>, c: char, i: int) -> bool {
    0 <= i < s.len() && s[i] == c && forall|j: int| 0 <= j < i ==> s[j] != c
}

/// The first index is unique, so exhibiting it settles `posicion`.
pub proof fn lemma_posicion(s: Seq<char>, c: char, i: int)
    requires
        es_posicion(s, c, i),
    ensures
        s.contains(c),
        posicion(s, c) == Some(i),
{
    assert(s[i] == c);
    let k = choose|k: int| es_posicion(s, c, k);
    assert(es_posicion(s, c, k));
}

/// A sequence that holds `c` has a first index of it.
pub proof fn lemma_hay_posicion(s: Seq<char>, c: char)
    requires
        s.contains(c),
    ensures
        posicion(s, c) is Some,
        es_posicion(s, c, posicion(s, c)->0),
{
    let i = choose|i: int| 0 <= i < s.len() && s[i] == c;
    lemma_bajar_posicion(s, c, i);
}

proof fn lemma_bajar_posicion(s: Seq<char>, c: char, i: int)
    requires
        0 <= i < s.len(),
        s[i] == c,
    ensures
        exists|k: int| es_posicion(s, c, k),
    decreases i,
{
    if exists|j: int| 0 <= j < i && s[j] == c {
        let j = choose|j: int| 0 <= j < i && s[j] == c;
        lemma_bajar_posicion(s, c, j);
    } else {
        assert(es_posicion(s, c, i));
    }
}

// ---------------------------------------------------------------------------
// Lines
// ---------------------------------------------------------------------------

/// A line without the carriage return that ended it.
pub open spec fn sin_retorno(linea: Seq<char>) -> Seq<char> {
    if linea.len() > 0 && linea.last() == '\r' {
        linea.drop_last()
    } else {
        linea
    }
}

/// The lines of `s`: each ends at a line feed or at the pair of a carriage
/// return and a line feed, the last one possibly at the end of `s`. The line
/// endings are not part of the lines.
pub open spec fn lineas(s: Seq<char>) -> Seq<Seq<char>>
    decreases s.len(),
{
    if s.len() == 0 {
        seq![]
    } else if !s.contains('\n') {
        seq![s]
    } else {
        let i = posicion(s, '\n')->0;
        if 0 <= i < s.len() {
            seq![sin_retorno(s.take(i))] + lineas(s.skip(i + 1))
        } else {
            seq![]
        }
    }
}

/// The contents of a list of strings.
pub open spec fn vistas(v: Seq<String>) -> Seq<Seq<char>> {
    v.map_values(|s: String| s@)
}

/// The lines of `s`.
pub fn dividir_lineas(s: &str) -> (r: Vec<String>)
    ensures
        vistas(r@) == lineas(s@),
{
    let mut salida: Vec<String> = Vec::new();
    let mut resto: String = s.to_owned();
    assert(vistas(salida@) + lineas(resto@) =~= lineas(s@));
    loop
        invariant
            vistas(salida@) + lineas(resto@) == lineas(s@),
        decreases resto@.len(),
    {
        let n: usize = resto.as_str().unicode_len();
        if n == 0 {
            assert(vistas(salida@) + lineas(resto@) =~= vistas(salida@));
            return salida;
        }
        match buscar_char(resto.as_str(), '\n') {
            None => {
                let ghost previa = salida@;
                salida.push(resto);
                assert(vistas(salida@) =~= vistas(previa) + lineas(resto@));
                return salida;
            },
            Some(i) => {
                let mut fin: usize = i;
                if i > 0 && resto.as_str().get_char(i - 1) == '\r' {
                    fin = i - 1;
                }
                let linea = resto.as_str().substring_char(0, fin).to_owned();
                let cola = resto.as_str().substring_char(i + 1, n).to_owned();
                proof {
                    assert(resto@.contains('\n'));
                    assert(sin_retorno(resto@.take(i as int)) =~= linea@);
                    assert(resto@.skip(i + 1) =~= cola@);
                    assert(lineas(resto@) == seq![linea@] + lineas(cola@));
                }
                let ghost previa = salida@;
                salida.push(linea);
                proof {
                    assert(vistas(salida@) =~= vistas(previa) + seq![linea@]);
                    assert(vistas(previa) + (seq![linea@] + lineas(cola@)) =~= vistas(salida@) + lineas(cola@));
                }
                resto = cola;
            },
        }
    }
}

// ---------------------------------------------------------------------------
// Trimming
// ---------------------------------------------------------------------------

/// `c` has the Unicode property `White_Space`.
pub open spec fn blanco(c: char) -> bool {
    ||| '\u{9}' <= c <= '\u{d}'
    ||| c == ' '
    ||| c == '\u{85}'
    ||| c == '\u{a0}'
    ||| c == '\u{1680}'
    ||| '\u{2000}' <= c <= '\u{200a}'
    ||| c == '\u{2028}'
    ||| c == '\u{2029}'
    ||| c == '\u{202f}'
    ||| c == '\u{205f}'
    ||| c == '\u{3000}'
}

fn es_blanco(c: char) -> (r: bool)
    ensures
        r == blanco(c),
{
    ('\u{9}' <= c && c <= '\u{d}') || c == ' ' || c == '\u{85}' || c == '\u{a0}' || c == '\u{1680}'
        || ('\u{2000}' <= c && c <= '\u{200a}') || c == '\u{2028}' || c == '\u{2029}'
        || c == '\u{202f}' || c == '\u{205f}' || c == '\u{3000}'
}

/// `s` without the white space at its two ends.
pub open spec fn recortado(s: Seq<char>) -> Seq<char>
    decreases s.len(),
{
    if s.len() == 0 {
        s
    } else if blanco(s.first()) {
        recortado(s.skip(1))
    } else if blanco(s.last()) {
        recortado(s.drop_last())
    } else {
        s
    }
}

/// `s` without the white space at its two ends.
pub fn recortar(s: &str) -> (r: &str)
    ensures
        r@ == recortado(s@),
{
    let x = a_chars(s);
    let mut a: usize = 0;
    let mut b: usize = x.len();
    assert(s@.subrange(0, b as int) =~= s@);
    while a < b && es_blanco(x[a])
        invariant
            x@ == s@,
            a <= b == x.len(),
            recortado(s@) == recortado(s@.subrange(a as int, b as int)),
        decreases b - a,
    {
        assert(s@.subrange(a as int, b as int).skip(1) =~= s@.subrange(a + 1, b as int));
        a += 1;
    }
    while a < b && es_blanco(x[b - 1])
        invariant
            x@ == s@,
            a <= b <= x.len(),
            a < b ==> !blanco(s@[a as int]),
            recortado(s@) == recortado(s@.subrange(a as int, b as int)),
        decreases b - a,
    {
        assert(s@.subrange(a as int, b as int).drop_last() =~= s@.subrange(a as int, b - 1));
        b -= 1;
    }
    s.substring_char(a, b)
}

// ---------------------------------------------------------------------------
// Removing
// ---------------------------------------------------------------------------

/// `s` with every occurrence of `pat` taken out, found from left to right
/// without overlaps.
pub open spec fn sin_apariciones(s: Seq<char>, pat: Seq<char>) -> Seq<char>
    decreases s.len(),
{
    if pat.len() == 0 || !contiene(s, pat) {
        s
    } else {
        let i = primera(s, pat)->0;
        if 0 <= i && i + pat.len() <= s.len() {
            s.take(i) + sin_apariciones(s.skip(i + pat.len()), pat)
        } else {
            s
        }
    }
}

/// `s` with every occurrence of `pat` taken out.
pub fn quitar_apariciones(s: &str, pat: &str) -> (r: String)
    ensures
        r@ == sin_apariciones(s@, pat@),
{
    let m: usize = pat.unicode_len();
    if m == 0 {
        return s.to_owned();
    }
    let mut salida = String::new();
    let mut resto: String = s.to_owned();
    assert(salida@ + sin_apariciones(resto@, pat@) =~= sin_apariciones(s@, pat@));
    loop
        invariant
            m == pat@.len(),
            m > 0,
            salida@ + sin_apariciones(resto@, pat@) == sin_apariciones(s@, pat@),
        decreases resto@.len(),
    {
        match buscar_texto(resto.as_str(), pat) {
            None => {
                salida.append(resto.as_str());
                return salida;
            },
            Some(i) => {
                let n: usize = resto.as_str().unicode_len();
                let ghost previa = salida@;
                salida.append(resto.as_str().substring_char(0, i));
                let cola = resto.as_str().substring_char(i + m, n).to_owned();
                proof {
                    assert(contiene(resto@, pat@));
                    assert(resto@.take(i as int) =~= resto@.subrange(0, i as int));
                    assert(resto@.skip(i + m) =~= cola@);
                    assert(previa + (resto@.take(i as int) + sin_apariciones(cola@, pat@)) =~= salida@
                        + sin_apariciones(cola@, pat@));
                }
                resto = cola;
            },
        }
    }
}

// ---------------------------------------------------------------------------
// Decimal numbers
// ---------------------------------------------------------------------------

/// The decimal digit of `d`.
pub open spec fn digito(d: nat) -> char {
    (d + '0' as nat) as char
}

/// `n` written in decimal, without leading zeros.
pub open spec fn decimal(n: nat) -> Seq<char>
    decreases n,
{
    if n < 10 {
        seq![digito(n)]
    } else {
        decimal(n / 10).push(digito(n % 10))
    }
}

/// `c` is one of the ten ASCII digits.
pub open spec fn es_digito(c: char) -> bool {
    '0' <= c <= '9'
}

/// Every character of `s` is an ASCII digit.
pub open spec fn solo_digitos(s: Seq<char>) -> bool {
    forall|i: int| 0 <= i < s.len() ==> es_digito(#[trigger] s[i])
}

/// The number that a sequence of decimal digits writes.
pub open spec fn valor(s: Seq<char>) -> nat
    decreases s.len(),
{
    if s.len() == 0 {
        0
    } else {
        10 * valor(s.drop_last()) + (s.last() as nat - '0' as nat) as nat
    }
}

/// The digits of a number that may carry a leading plus sign.
pub open spec fn sin_signo(s: Seq<char>) -> Seq<char> {
    if s.len() > 0 && s.first() == '+' {
        s.skip(1)
    } else {
        s
    }
}

/// The `usize` that `s` writes: an optional plus sign and at least one digit.
pub open spec fn leido(s: Seq<char>) -> Option<usize> {
    let d = sin_signo(s);
    if d.len() > 0 && solo_digitos(d) && valor(d) <= usize::MAX {
        Some(valor(d) as usize)
    } else {
        None
    }
}

fn texto_digito(d: usize) -> (r: &'static str)
    requires
        d < 10,
    ensures
        r@ == seq![digito(d as nat)],
{
    proof {
        reveal_strlit("0");
        reveal_strlit("1");
        reveal_strlit("2");
        reveal_strlit("3");
        reveal_strlit("4");
        reveal_strlit("5");
        reveal_strlit("6");
        reveal_strlit("7");
        reveal_strlit("8");
        reveal_strlit("9");
    }
    match d {
        0 => "0",
        1 => "1",
        2 => "2",
        3 => "3",
        4 => "4",
        5 => "5",
        6 => "6",
        7 => "7",
        8 => "8",
        _ => "9",
    }
}

/// `n` written in decimal.
pub fn a_decimal(n: usize) -> (r: String)
    ensures
        r@ == decimal(n as nat),
    decreases n,
{
    if n < 10 {
        return texto_digito(n).to_owned();
    }
    let mut r = a_decimal(n / 10);
    r.append(texto_digito(n % 10));
    assert(r@ =~= decimal(n as nat));
    r
}

/// Whether every character of `s` is an ASCII digit.
pub fn son_digitos(s: &str) -> (r: bool)
    ensures
        r == solo_digitos(s@),
{
    let x = a_chars(s);
    let mut i: usize = 0;
    while i < x.len()
        invariant
            x@ == s@,
            i <= x.len(),
            forall|j: int| 0 <= j < i ==> es_digito(#[trigger] s@[j]),
        decreases x.len() - i,
    {
        if x[i] < '0' || x[i] > '9' {
            assert(!es_digito(s@[i as int]));
            return false;
        }
        i += 1;
    }
    true
}

/// Digits added on the right never make the number smaller.
proof fn lemma_valor_crece(s: Seq<char>, k: int)
    requires
        solo_digitos(s),
        0 <= k <= s.len(),
    ensures
        valor(s.take(k)) <= valor(s),
    decreases s.len(),
{
    if k < s.len() {
        assert(solo_digitos(s.drop_last()));
        lemma_valor_crece(s.drop_last(), k);
        assert(s.drop_last().take(k) =~= s.take(k));
    } else {
        assert(s.take(k) =~= s);
    }
}

/// Reads a `usize` in decimal, with or without a plus sign.
pub fn leer_numero(s: &str) -> (r: Option<usize>)
    ensures
        r == leido(s@),
{
    let x = a_chars(s);
    let mut i: usize = 0;
    if x.len() > 0 && x[0] == '+' {
        i = 1;
    }
    let ghost d = sin_signo(s@);
    assert(d =~= s@.skip(i as int));
    if i == x.len() {
        return None;
    }
    let ghost base = i;
    let mut v: usize = 0;
    assert(d.take(0) =~= seq![]);
    while i < x.len()
        invariant
            x@ == s@,
            base <= i <= x.len(),
            d == s@.skip(base as int),
            d == sin_signo(s@),
            d.len() > 0,
            solo_digitos(d.take(i - base)),
            v == valor(d.take(i - base)),
        decreases x.len() - i,
    {
        let c = x[i];
        let ghost k = i - base;
        assert(d[k] == c);
        if c < '0' || c > '9' {
            assert(!es_digito(d[k]));
            return None;
        }
        let u: usize = (c as u32 - '0' as u32) as usize;
        proof {
            assert(d.take(k + 1).drop_last() =~= d.take(k));
            assert(solo_digitos(d.take(k + 1)));
            assert(valor(d.take(k + 1)) == 10 * v + u);
        }
        if v > usize::MAX / 10 || v * 10 > usize::MAX - u {
            proof {
                if solo_digitos(d) {
                    lemma_valor_crece(d, k + 1);
                }
            }
            return None;
        }
        v = v * 10 + u;
        i += 1;
    }
    assert(d.take(x.len() - base) =~= d);
    Some(v)
}

/// The decimal writing of a number consists of digits only and reads back as
/// that number.
pub proof fn ley_decimal_se_lee(n: nat)
    ensures
        decimal(n).len() > 0,
        solo_digitos(decimal(n)),
        valor(decimal(n)) == n,
        n <= usize::MAX ==> leido(decimal(n)) == Some(n as usize),
    decreases n,
{
    if n < 10 {
        assert(decimal(n).drop_last() =~= seq![]);
        assert(valor(decimal(n).drop_last()) == 0);
    } else {
        ley_decimal_se_lee(n / 10);
        assert(decimal(n).drop_last() =~= decimal(n / 10));
    }
    assert(es_digito(decimal(n)[0]));
    assert(sin_signo(decimal(n)) == decimal(n));
}

// ---------------------------------------------------------------------------
// What the operations are for
// ---------------------------------------------------------------------------

/// An occurrence is a match of every character, and a search finds the leftmost
/// one: it succeeds exactly where there is a match, and nothing matches before.
pub proof fn ley_busqueda(s: Seq<char>, pat: Seq<char>)
    ensures
        contiene(s, pat) <==> exists|i: int|
            0 <= i <= s.len() - pat.len() && #[trigger] s.subrange(i, i + pat.len()) =~= pat,
        primera(s, pat) is Some <==> contiene(s, pat),
        primera(s, pat) matches Some(i) ==> {
            &&& 0 <= i <= s.len() - pat.len()
            &&& forall|k: int| 0 <= k < pat.len() ==> s[i + k] == #[trigger] pat[k]
            &&& forall|j: int| 0 <= j < i ==> #[trigger] s.subrange(j, j + pat.len()) != pat
        },
{
    if contiene(s, pat) {
        let i = choose|i: int| aparece_en(s, pat, i);
        assert(s.subrange(i, i + pat.len()) =~= pat);
        lemma_hay_primera(s, pat);
        let p = primera(s, pat)->0;
        assert forall|k: int| 0 <= k < pat.len() implies s[p + k] == #[trigger] pat[k] by {
            assert(s.subrange(p, p + pat.len())[k] == pat[k]);
        }
        assert forall|j: int| 0 <= j < p implies #[trigger] s.subrange(j, j + pat.len()) != pat by {
            assert(!aparece_en(s, pat, j));
        }
    }
    if exists|i: int| 0 <= i <= s.len() - pat.len() && #[trigger] s.subrange(i, i + pat.len()) =~= pat {
        let i = choose|i: int| 0 <= i <= s.len() - pat.len() && #[trigger] s.subrange(i, i + pat.len()) =~= pat;
        assert(aparece_en(s, pat, i));
    }
}

/// A text occurs wherever it is put, and a beginning is what comes first.
pub proof fn ley_contiene_lo_puesto(a: Seq<char>, pat: Seq<char>, b: Seq<char>)
    ensures
        contiene(a + pat + b, pat),
        empieza(pat + b, pat),
        empieza(a, pat) ==> a.len() >= pat.len() && a == pat + a.skip(pat.len() as int),
{
    let s = a + pat + b;
    assert(s.subrange(a.len() as int, (a.len() + pat.len()) as int) =~= pat);
    assert(aparece_en(s, pat, a.len() as int));
    assert((pat + b).subrange(0, pat.len() as int) =~= pat);
    if empieza(a, pat) {
        assert(a =~= a.subrange(0, pat.len() as int) + a.skip(pat.len() as int));
    }
}

/// The first `c` is found behind everything that holds none.
pub proof fn ley_primer_caracter(a: Seq<char>, c: char, b: Seq<char>)
    requires
        !a.contains(c),
    ensures
        posicion(a.push(c) + b, c) == Some(a.len() as int),
        posicion(a, c) is None,
{
    let s = a.push(c) + b;
    assert(s[a.len() as int] == c);
    assert forall|j: int| 0 <= j < a.len() implies s[j] != c by {
        assert(a[j] == s[j]);
    }
    lemma_posicion(s, c, a.len() as int);
}

/// A text is read line by line: what comes before a line feed is one line, but
/// for a carriage return right before it, and the rest is read in the same way;
/// without a line feed all of it is the last line.
pub proof fn ley_lineas(l: Seq<char>, resto: Seq<char>)
    requires
        !l.contains('\n'),
    ensures
        lineas(Seq::<char>::empty()) == Seq::<Seq<char>>::empty(),
        l.len() > 0 ==> lineas(l) == seq![l],
        l.len() == 0 || l.last() != '\r' ==> lineas(l.push('\n') + resto) == seq![l] + lineas(resto),
        lineas(l.push('\r').push('\n') + resto) == seq![l] + lineas(resto),
{
    let s = l.push('\n') + resto;
    ley_primer_caracter(l, '\n', resto);
    assert(s[l.len() as int] == '\n');
    assert(s.contains('\n'));
    assert(s.take(l.len() as int) =~= l);
    assert(s.skip(l.len() as int + 1) =~= resto);
    let r = l.push('\r');
    let t = r.push('\n') + resto;
    assert(!r.contains('\n')) by {
        if r.contains('\n') {
            let i = choose|i: int| 0 <= i < r.len() && r[i] == '\n';
            assert(l[i] == '\n');
        }
    }
    ley_primer_caracter(r, '\n', resto);
    assert(t[r.len() as int] == '\n');
    assert(t.contains('\n'));
    assert(t.take(r.len() as int) =~= r);
    assert(t.skip(r.len() as int + 1) =~= resto);
    assert(r.drop_last() =~= l);
}

/// White space is what the Unicode standard lists as such, by code point.
pub proof fn ley_blancos(c: char)
    ensures
        blanco(c) <==> {
            ||| 9 <= c as int <= 13
            ||| c as int == 32
            ||| c as int == 0x85
            ||| c as int == 0xa0
            ||| c as int == 0x1680
            ||| 0x2000 <= c as int <= 0x200a
            ||| 0x2028 <= c as int <= 0x2029
            ||| c as int == 0x202f
            ||| c as int == 0x205f
            ||| c as int == 0x3000
        },
{
}

proof fn lemma_recorte_izquierda(a: Seq<char>, m: Seq<char>)
    requires
        forall|i: int| 0 <= i < a.len() ==> blanco(#[trigger] a[i]),
    ensures
        recortado(a + m) == recortado(m),
    decreases a.len(),
{
    if a.len() > 0 {
        lemma_recorte_izquierda(a.skip(1), m);
        assert((a + m).skip(1) =~= a.skip(1) + m);
        assert((a + m).first() == a[0]);
    } else {
        assert(a + m =~= m);
    }
}

proof fn lemma_recorte_derecha(m: Seq<char>, b: Seq<char>)
    requires
        m.len() > 0,
        !blanco(m.first()),
        !blanco(m.last()),
        forall|i: int| 0 <= i < b.len() ==> blanco(#[trigger] b[i]),
    ensures
        recortado(m + b) == m,
    decreases b.len(),
{
    if b.len() > 0 {
        lemma_recorte_derecha(m, b.drop_last());
        assert((m + b).drop_last() =~= m + b.drop_last());
        assert((m + b).first() == m[0]);
        assert((m + b).last() == b[b.len() - 1]);
    } else {
        assert(m + b =~= m);
    }
}

/// Trimming takes away the white space at the two ends and nothing else: a core
/// that neither begins nor ends with white space comes out whole, whatever white
/// space stands round it, and white space alone leaves nothing.
pub proof fn ley_recorte(a: Seq<char>, m: Seq<char>, b: Seq<char>)
    requires
        forall|i: int| 0 <= i < a.len() ==> blanco(#[trigger] a[i]),
        forall|i: int| 0 <= i < b.len() ==> blanco(#[trigger] b[i]),
        m.len() > 0 ==> !blanco(m.first()) && !blanco(m.last()),
    ensures
        recortado(a + m + b) == m,
{
    assert(a + m + b =~= a + (m + b));
    lemma_recorte_izquierda(a, m + b);
    if m.len() > 0 {
        lemma_recorte_derecha(m, b);
    } else {
        assert(m + b =~= b + m);
        lemma_recorte_izquierda(b, m);
    }
}

/// Removal takes out the occurrences and nothing else: what stands before the
/// first one stays, the occurrence goes, and so on behind it; a text without
/// occurrences stays as it is.
pub proof fn ley_quitar(a: Seq<char>, pat: Seq<char>, b: Seq<char>)
    requires
        pat.len() > 0,
        forall|j: int| 0 <= j < a.len() ==> #[trigger] (a + pat + b).subrange(j, j + pat.len()) != pat,
    ensures
        sin_apariciones(a + pat + b, pat) == a + sin_apariciones(b, pat),
        !contiene(b, pat) ==> sin_apariciones(b, pat) == b,
{
    let s = a + pat + b;
    let n = a.len() as int;
    assert(s.subrange(n, n + pat.len()) =~= pat);
    assert forall|j: int| 0 <= j < n implies !aparece_en(s, pat, j) by {
        assert(s.subrange(j, j + pat.len()) != pat);
    }
    assert(es_primera(s, pat, n));
    lemma_primera(s, pat, n);
    assert(contiene(s, pat));
    assert(s.take(n) =~= a);
    assert(s.skip(n + pat.len()) =~= b);
}

/// Decimal writing goes digit by digit, from `0` (code point 48) to `9`, the
/// last digit last and no zero in front.
pub proof fn ley_cifras(n: nat, d: nat)
    requires
        d < 10,
    ensures
        decimal(d).len() == 1,
        decimal(d)[0] as int == 48 + d,
        n > 0 ==> decimal(10 * n + d) == decimal(n).push(decimal(d)[0]),
        n > 0 ==> decimal(n)[0] as int != 48,
    decreases n,
{
    if n > 0 {
        assert((10 * n + d) / 10 == n);
        assert((10 * n + d) % 10 == d);
        if n >= 10 {
            ley_cifras(n / 10, 0);
            assert(decimal(n)[0] == decimal(n / 10)[0]);
        }
    }
}

proof fn lemma_valor_con_cero(s: Seq<char>)
    requires
        solo_digitos(s),
    ensures
        valor(seq!['0'] + s) == valor(s),
        solo_digitos(seq!['0'] + s),
    decreases s.len(),
{
    let z = seq!['0'] + s;
    assert forall|i: int| 0 <= i < z.len() implies es_digito(#[trigger] z[i]) by {
        if i > 0 {
            assert(z[i] == s[i - 1]);
        }
    }
    if s.len() > 0 {
        assert(z.drop_last() =~= seq!['0'] + s.drop_last());
        assert(solo_digitos(s.drop_last()));
        lemma_valor_con_cero(s.drop_last());
    } else {
        assert(z.drop_last() =~= seq![]);
        assert(valor(z.drop_last()) == 0);
    }
}

/// A number is read from its decimal writing, with or without a plus sign or a
/// zero in front, as far as it fits in a `usize`. Nothing is read from a text
/// that is empty, is the sign alone, or holds anything but digits behind it.
pub proof fn ley_numero_leido(n: nat, s: Seq<char>)
    ensures
        leido(decimal(n)) == (if n <= usize::MAX {
            Some(n as usize)
        } else {
            None
        }),
        leido(seq!['+'] + decimal(n)) == leido(decimal(n)),
        leido(seq!['0'] + decimal(n)) == leido(decimal(n)),
        leido(Seq::<char>::empty()) is None,
        leido(seq!['+']) is None,
        (exists|i: int| 0 < i < s.len() && !('0' <= #[trigger] s[i] <= '9')) ==> leido(s) is None,
        s.len() > 0 && s[0] != '+' && !('0' <= s[0] <= '9') ==> leido(s) is None,
{
    let d = decimal(n);
    ley_decimal_se_lee(n);
    assert(es_digito(d[0]));
    assert(sin_signo(d) == d);
    assert((seq!['+'] + d).skip(1) =~= d);
    lemma_valor_con_cero(d);
    assert(sin_signo(seq!['0'] + d) == seq!['0'] + d);
    assert(seq!['+'].skip(1) =~= seq![]);
    if exists|i: int| 0 < i < s.len() && !('0' <= #[trigger] s[i] <= '9') {
        let i = choose|i: int| 0 < i < s.len() && !('0' <= #[trigger] s[i] <= '9');
        if s[0] == '+' {
            assert(s.skip(1)[i - 1] == s[i]);
            assert(!es_digito(s.skip(1)[i - 1]));
        } else {
            assert(!es_digito(s[i]));
        }
    }
    if s.len() > 0 && s[0] != '+' && !('0' <= s[0] <= '9') {
        assert(!es_digito(s[0]));
    }
}

/// The contents of a list of strings are those of each, in order, and nothing
/// more.
pub proof fn ley_vistas(v: Seq<String>)
    ensures
        vistas(v).len() == v.len(),
        forall|i: int| 0 <= i < v.len() ==> #[trigger] vistas(v)[i] == v[i]@,
{
}

/// Zeros in front of a number, and one plus sign before all of it, change nothing.
pub proof fn ley_ceros_y_signo(s: Seq<char>)
    requires
        s.len() > 0,
        forall|i: int| 0 <= i < s.len() ==> '0' <= #[trigger] s[i] <= '9',
    ensures
        leido(seq!['0'] + s) == leido(s),
        leido(seq!['+'] + s) == leido(s),
{
    assert(solo_digitos(s));
    assert(es_digito(s[0]));
    lemma_valor_con_cero(s);
    assert((seq!['+'] + s).skip(1) =~= s);
    assert(sin_signo(s) == s);
    assert(sin_signo(seq!['0'] + s) == seq!['0'] + s);
}

} // verus!
