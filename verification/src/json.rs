//! JSON documents as `serde_json` reads them.

use vstd::prelude::*;

verus! {

/// A JSON document. Numbers are not told apart: nothing here reads one.
pub enum Json {
    Nulo,
    Booleano(bool),
    Numero,
    Texto(Seq<char>),
    Lista(Seq<Json>),
    Objeto(Map<Seq<char>, Json>),
}

/// The text that a document is, where it is one.
pub open spec fn como_texto(j: Json) -> Option<Seq<char>> {
    match j {
        Json::Texto(t) => Some(t),
        _ => None,
    }
}

/// The member `clave` of a document, where it is an object that has it.
pub open spec fn miembro_de(j: Json, clave: Seq<char>) -> Option<Json> {
    match j {
        Json::Objeto(m) if m.dom().contains(clave) => Some(m[clave]),
        _ => None,
    }
}

/// The member `clave` of a document, where it is a text.
pub open spec fn texto_en(j: Json, clave: Seq<char>) -> Option<Seq<char>> {
    match miembro_de(j, clave) {
        Some(m) => como_texto(m),
        None => None,
    }
}

/// A parsed document of `serde_json`.
#[verifier::external_type_specification]
#[verifier::external_body]
pub struct ExValor(serde_json::Value);

/// A parsing error of `serde_json`.
#[verifier::external_type_specification]
#[verifier::external_body]
pub struct ExErrorJson(serde_json::Error);

/// The document that a `serde_json::Value` holds.
pub uninterp spec fn contenido(v: serde_json::Value) -> Json;

/// The document that `serde_json::from_str` reads in a text, if the text is one.
pub uninterp spec fn documento(texto: Seq<char>) -> Option<Json>;

/// The document that `serde_json::from_slice` reads in bytes, if they are one.
pub uninterp spec fn documento_en_bytes(bytes: Seq<u8>) -> Option<Json>;

/// Calls `serde_json::from_str`. Claimed of it: whether it succeeds, and the
/// document that it gives, depend on the text alone.
#[verifier::external_body]
pub(crate) fn leer_texto(texto: &str) -> (r: Result<serde_json::Value, serde_json::Error>)
    ensures
        match r {
            Ok(v) => documento(texto@) == Some(contenido(v)),
            Err(_) => documento(texto@) is None,
        },
{
    serde_json::from_str(texto)
}

/// Calls `serde_json::from_slice`. Claimed of it: whether it succeeds, and the
/// document that it gives, depend on the bytes alone.
#[verifier::external_body]
pub(crate) fn leer_bytes(bytes: &[u8]) -> (r: Result<serde_json::Value, serde_json::Error>)
    ensures
        match r {
            Ok(v) => documento_en_bytes(bytes@) == Some(contenido(v)),
            Err(_) => documento_en_bytes(bytes@) is None,
        },
{
    serde_json::from_slice(bytes)
}

/// Calls `serde_json::Value::get` with a text index. Claimed of it: it gives the
/// member of that name where the document is an object that has one, and
/// nothing otherwise.
#[verifier::external_body]
pub(crate) fn miembro<'a>(v: &'a serde_json::Value, clave: &str) -> (r: Option<&'a serde_json::Value>)
    ensures
        match r {
            Some(m) => miembro_de(contenido(*v), clave@) == Some(contenido(*m)),
            None => miembro_de(contenido(*v), clave@) is None,
        },
{
    v.get(clave)
}

/// `serde_json::Value::as_str`. Claimed of it: it gives the text of a document
/// that is a text, and nothing otherwise.
pub assume_specification[ serde_json::Value::as_str ](v: &serde_json::Value) -> (r: Option<&str>)
    ensures
        match r {
            Some(t) => como_texto(contenido(*v)) == Some(t@),
            None => como_texto(contenido(*v)) is None,
        },
;

/// The text that an optional string holds.
pub open spec fn vista_opcional(s: Option<String>) -> Option<Seq<char>> {
    match s {
        Some(t) => Some(t@),
        None => None,
    }
}

/// The member `clave` of a document, where it is a text.
pub fn texto_de_miembro(v: &serde_json::Value, clave: &str) -> (r: Option<String>)
    ensures
        vista_opcional(r) == texto_en(contenido(*v), clave@),
{
    match miembro(v, clave) {
        Some(m) => match m.as_str() {
            Some(t) => Some(t.to_owned()),
            None => None,
        },
        None => None,
    }
}

/// A member is read as a text exactly where the document is an object that has
/// it and the member is a text; nothing else gives one.
pub proof fn ley_miembro_de_texto(m: Map<Seq<char>, Json>, clave: Seq<char>, t: Seq<char>, j: Json)
    ensures
        m.dom().contains(clave) && m[clave] == Json::Texto(t) ==> texto_en(Json::Objeto(m), clave) == Some(t),
        m.dom().contains(clave) && !(m[clave] is Texto) ==> texto_en(Json::Objeto(m), clave) is None,
        !m.dom().contains(clave) ==> texto_en(Json::Objeto(m), clave) is None,
        !(j is Objeto) ==> texto_en(j, clave) is None,
        m.dom().contains(clave) ==> miembro_de(Json::Objeto(m), clave) == Some(m[clave]),
        como_texto(Json::Texto(t)) == Some(t),
        !(j is Texto) ==> como_texto(j) is None,
{
}

/// An optional string is read as it is.
pub proof fn ley_vista_opcional(s: String)
    ensures
        vista_opcional(Some(s)) == Some(s@),
        vista_opcional(None) is None,
{
}

} // verus!
