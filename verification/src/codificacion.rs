//! Text that arrives as bytes, and letter case: what the standard library
//! computes by tables that are not stated here.

use vstd::prelude::*;
use vstd::utf8::*;

verus! {

/// The text that `String::from_utf8_lossy` makes of `bytes`.
pub uninterp spec fn utf8_con_perdida(bytes: Seq<u8>) -> Seq<char>;

/// The text that `str::to_lowercase` makes of `s`.
pub uninterp spec fn en_minusculas(s: Seq<char>) -> Seq<char>;

/// `s` with the letters `A` to `Z` in lower case and everything else unchanged.
pub open spec fn ascii_en_minusculas(s: Seq<char>) -> Seq<char> {
    s.map_values(
        |c: char|
            if 'A' <= c <= 'Z' {
                (c as u32 + 32) as char
            } else {
                c
            },
    )
}

/// Calls `String::from_utf8_lossy`. Claimed of it: bytes that are UTF-8 give the
/// text that they encode, and equal bytes give equal texts. What stands in for
/// the parts that are not UTF-8 is named, not stated.
#[verifier::external_body]
pub(crate) fn texto_con_perdida(bytes: &[u8]) -> (r: String)
    ensures
        r@ == utf8_con_perdida(bytes@),
        valid_utf8(bytes@) ==> r@ == decode_utf8(bytes@),
{
    String::from_utf8_lossy(bytes).into_owned()
}

/// Calls `std::str::from_utf8`. Claimed of it: it succeeds on UTF-8 only, and
/// then gives the text that the bytes encode.
#[verifier::external_body]
pub(crate) fn texto_estricto(bytes: &[u8]) -> (r: Option<&str>)
    ensures
        r is Some <==> valid_utf8(bytes@),
        r is Some ==> r->0@ == decode_utf8(bytes@),
{
    std::str::from_utf8(bytes).ok()
}

/// Calls `str::to_lowercase`. Claimed of it: on ASCII text it lowers the letters
/// `A` to `Z`, and equal texts give equal results. Other letters follow the
/// Unicode tables, which are named, not stated.
#[verifier::external_body]
pub(crate) fn a_minusculas(s: &str) -> (r: String)
    ensures
        r@ == en_minusculas(s@),
        is_ascii_chars(s@) ==> r@ == ascii_en_minusculas(s@),
{
    s.to_lowercase()
}

/// Lower case over ASCII changes the letters `A` to `Z`, each to the one 32 code
/// points on, and nothing else.
pub proof fn ley_minusculas_ascii(s: Seq<char>, i: int)
    requires
        0 <= i < s.len(),
    ensures
        ascii_en_minusculas(s).len() == s.len(),
        65 <= s[i] as int <= 90 ==> ascii_en_minusculas(s)[i] as int == s[i] as int + 32,
        !(65 <= s[i] as int <= 90) ==> ascii_en_minusculas(s)[i] == s[i],
{
}

} // verus!
