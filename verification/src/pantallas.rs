//! The screens that can be captured, as the device listings of the platform
//! tools name them.

use vstd::prelude::*;
use vstd::string::*;
use vstd::utf8::*;

use crate::codificacion::{a_minusculas, ascii_en_minusculas, en_minusculas, texto_con_perdida, utf8_con_perdida};
use crate::texto::{
    a_decimal, aparece_en, blanco, buscar_char, buscar_texto, contiene, contiene_texto, decimal, dividir_lineas,
    es_primera, iguales, leer_numero, leido, lemma_hay_posicion, lemma_hay_primera, lemma_posicion, lemma_primera,
    ley_decimal_se_lee, ley_primer_caracter, ley_recorte, lineas, posicion, primera, recortado, recortar, solo_digitos,
    son_digitos, vistas,
};

verus! {

/// A screen that can be captured.
#[derive(Clone, Debug)]
pub struct PantallaReal {
    pub avf_index: String,
    pub etiqueta: String,
}

/// `PantallaReal` over character sequences.
pub struct Pantalla {
    pub avf_index: Seq<char>,
    pub etiqueta: Seq<char>,
}

impl View for PantallaReal {
    type V = Pantalla;

    open spec fn view(&self) -> Pantalla {
        Pantalla { avf_index: self.avf_index@, etiqueta: self.etiqueta@ }
    }
}

/// The contents of a list of screens.
pub open spec fn vistas_pantallas(v: Seq<PantallaReal>) -> Seq<Pantalla> {
    v.map_values(|p: PantallaReal| p@)
}

// ---------------------------------------------------------------------------
// AVFoundation listings
// ---------------------------------------------------------------------------

/// The part of a listing that comes before the audio devices.
pub open spec fn bloque_video(texto: Seq<char>) -> Seq<char> {
    match primera(texto, "AVFoundation audio devices"@) {
        Some(i) => texto.take(i),
        None => texto,
    }
}

/// The words that tell a camera from a screen.
pub open spec fn palabras_camara() -> Seq<Seq<char>> {
    seq!["facetime"@, "webcam"@, "camera"@, "iphone"@, "ipad"@, "continuity"@]
}

/// A line, given in lower case, that lists a screen and no camera.
pub open spec fn lista_pantalla(linea_lower: Seq<char>) -> bool {
    &&& contiene(linea_lower, "capture screen"@) || contiene(linea_lower, "capture_screen"@)
    &&& forall|k: int| 0 <= k < palabras_camara().len() ==> !contiene(linea_lower, #[trigger] palabras_camara()[k])
}

/// What follows the first closing bracket of a line, if it has one.
pub open spec fn tras_dispositivo(linea: Seq<char>) -> Option<Seq<char>> {
    match posicion(linea, ']') {
        Some(d) => Some(linea.skip(d + 1)),
        None => None,
    }
}

/// The first opening bracket comes before the first closing one, where the text
/// has both.
pub open spec fn corchetes_en_orden(s: Seq<char>) -> bool {
    match (posicion(s, '['), posicion(s, ']')) {
        (Some(a), Some(b)) => a < b,
        _ => true,
    }
}

/// The text between the first opening and the first closing bracket, trimmed.
pub open spec fn entre_corchetes(s: Seq<char>) -> Option<Seq<char>> {
    match (posicion(s, '['), posicion(s, ']')) {
        (Some(a), Some(b)) => Some(recortado(s.subrange(a + 1, b))),
        _ => None,
    }
}

/// The device index in a line: behind the name of the input, in brackets and
/// made of digits.
pub open spec fn indice_en(linea: Seq<char>) -> Option<Seq<char>> {
    match tras_dispositivo(linea) {
        Some(resto) => match entre_corchetes(resto) {
            Some(idx) => if idx.len() > 0 && solo_digitos(idx) {
                Some(idx)
            } else {
                None
            },
            None => None,
        },
        None => None,
    }
}

/// A line whose brackets can be read: those behind the name of the input come in
/// order.
pub open spec fn linea_legible(linea: Seq<char>) -> bool {
    match tras_dispositivo(linea) {
        Some(resto) => corchetes_en_orden(resto),
        None => true,
    }
}

/// The index of the screen that a line lists, if it lists one; `linea_lower` is
/// the line in lower case.
pub open spec fn indice_de_pantalla(linea: Seq<char>, linea_lower: Seq<char>) -> Option<Seq<char>> {
    if lista_pantalla(linea_lower) {
        indice_en(linea)
    } else {
        None
    }
}

/// A line in lower case: by the rule for ASCII letters or by that for all text.
pub open spec fn en_minuscula(ascii: bool, linea: Seq<char>) -> Seq<char> {
    if ascii {
        ascii_en_minusculas(linea)
    } else {
        en_minusculas(linea)
    }
}

/// The indices of the screens in the lines, each once, in order of appearance.
pub open spec fn indices_en(ascii: bool, ls: Seq<Seq<char>>) -> Seq<Seq<char>>
    decreases ls.len(),
{
    if ls.len() == 0 {
        seq![]
    } else {
        let previos = indices_en(ascii, ls.drop_last());
        match indice_de_pantalla(ls.last(), en_minuscula(ascii, ls.last())) {
            Some(idx) => if previos.contains(idx) {
                previos
            } else {
                previos.push(idx)
            },
            None => previos,
        }
    }
}

/// Every line that lists a screen can be read.
pub open spec fn lineas_legibles(ascii: bool, ls: Seq<Seq<char>>) -> bool {
    forall|k: int|
        0 <= k < ls.len() && lista_pantalla(en_minuscula(ascii, #[trigger] ls[k])) ==> linea_legible(ls[k])
}

/// Every line of the video part that lists a screen can be read.
pub open spec fn listado_legible(ascii: bool, texto: Seq<char>) -> bool {
    lineas_legibles(ascii, lineas(bloque_video(texto)))
}

/// The indices of the screens in a listing.
pub open spec fn indices_de_listado(ascii: bool, texto: Seq<char>) -> Seq<Seq<char>> {
    indices_en(ascii, lineas(bloque_video(texto)))
}

proof fn lemma_lineas_ascii(s: Seq<char>)
    requires
        is_ascii_chars(s),
    ensures
        forall|k: int| 0 <= k < lineas(s).len() ==> is_ascii_chars(#[trigger] lineas(s)[k]),
    decreases s.len(),
{
    if s.contains('\n') {
        lemma_hay_posicion(s, '\n');
        let i = posicion(s, '\n')->0;
        lemma_lineas_ascii(s.skip(i + 1));
        assert forall|k: int| 0 <= k < lineas(s).len() implies is_ascii_chars(#[trigger] lineas(s)[k]) by {
            if k > 0 {
                assert(lineas(s)[k] == lineas(s.skip(i + 1))[k - 1]);
            }
        }
    }
}

/// Whether a line, given in lower case, lists a screen and no camera.
pub fn es_linea_de_pantalla(linea_lower: &str) -> (r: bool)
    ensures
        r == lista_pantalla(linea_lower@),
{
    if !contiene_texto(linea_lower, "capture screen") && !contiene_texto(linea_lower, "capture_screen") {
        return false;
    }
    let camara = contiene_texto(linea_lower, "facetime") || contiene_texto(linea_lower, "webcam") || contiene_texto(
        linea_lower,
        "camera",
    ) || contiene_texto(linea_lower, "iphone") || contiene_texto(linea_lower, "ipad") || contiene_texto(
        linea_lower,
        "continuity",
    );
    proof {
        let p = palabras_camara();
        assert(p[0] == "facetime"@ && p[1] == "webcam"@ && p[2] == "camera"@ && p[3] == "iphone"@ && p[4] == "ipad"@
            && p[5] == "continuity"@);
    }
    !camara
}

/// The text behind the first closing bracket, if there is one.
fn resto_de_dispositivo(linea: &str) -> (r: Option<String>)
    ensures
        match r {
            Some(t) => tras_dispositivo(linea@) == Some(t@),
            None => tras_dispositivo(linea@) is None,
        },
{
    match buscar_char(linea, ']') {
        None => None,
        Some(d) => {
            let n: usize = linea.unicode_len();
            let t = linea.substring_char(d + 1, n).to_owned();
            assert(linea@.skip(d + 1) =~= t@);
            Some(t)
        },
    }
}

/// Whether the first opening bracket comes before the first closing one, where
/// the text has both.
fn estan_en_orden(s: &str) -> (r: bool)
    ensures
        r == corchetes_en_orden(s@),
{
    match (buscar_char(s, '['), buscar_char(s, ']')) {
        (Some(a), Some(b)) => a < b,
        _ => true,
    }
}

/// The text between the first opening and the first closing bracket, trimmed.
fn leer_corchetes(s: &str) -> (r: Option<String>)
    requires
        corchetes_en_orden(s@),
    ensures
        match r {
            Some(t) => entre_corchetes(s@) == Some(t@),
            None => entre_corchetes(s@) is None,
        },
{
    match (buscar_char(s, '['), buscar_char(s, ']')) {
        (Some(a), Some(b)) => Some(recortar(s.substring_char(a + 1, b)).to_owned()),
        _ => None,
    }
}

/// The device index in a line.
pub fn leer_indice(linea: &str) -> (r: Option<String>)
    requires
        linea_legible(linea@),
    ensures
        match r {
            Some(t) => indice_en(linea@) == Some(t@),
            None => indice_en(linea@) is None,
        },
{
    match resto_de_dispositivo(linea) {
        None => None,
        Some(resto) => match leer_corchetes(resto.as_str()) {
            None => None,
            Some(idx) => {
                if !idx.as_str().is_empty() && son_digitos(idx.as_str()) {
                    Some(idx)
                } else {
                    None
                }
            },
        },
    }
}

/// Whether a line can be read.
pub fn es_legible(linea: &str) -> (r: bool)
    ensures
        r == linea_legible(linea@),
{
    match resto_de_dispositivo(linea) {
        None => true,
        Some(resto) => estan_en_orden(resto.as_str()),
    }
}

/// Whether a list of strings holds a text.
fn esta_en(v: &Vec<String>, t: &str) -> (r: bool)
    ensures
        r == vistas(v@).contains(t@),
{
    let mut i: usize = 0;
    while i < v.len()
        invariant
            i <= v.len(),
            forall|j: int| 0 <= j < i ==> vistas(v@)[j] != t@,
        decreases v.len() - i,
    {
        if iguales(v[i].as_str(), t) {
            assert(vistas(v@)[i as int] == t@);
            return true;
        }
        i += 1;
    }
    false
}

/// The lines of the video part of a listing.
fn lineas_de_video(texto: &str) -> (r: Vec<String>)
    ensures
        vistas(r@) == lineas(bloque_video(texto@)),
        is_ascii_chars(texto@) ==> forall|k: int|
            0 <= k < vistas(r@).len() ==> is_ascii_chars(#[trigger] vistas(r@)[k]),
{
    proof {
        if is_ascii_chars(texto@) {
            if contiene(texto@, "AVFoundation audio devices"@) {
                lemma_hay_primera(texto@, "AVFoundation audio devices"@);
            }
            lemma_lineas_ascii(bloque_video(texto@));
        }
    }
    match buscar_texto(texto, "AVFoundation audio devices") {
        Some(i) => {
            assert(texto@.take(i as int) =~= texto@.subrange(0, i as int));
            dividir_lineas(texto.substring_char(0, i))
        },
        None => dividir_lineas(texto),
    }
}

/// Whether every line of the video part that lists a screen can be read.
pub fn es_listado_legible(texto: &str) -> (r: bool)
    ensures
        r == listado_legible(false, texto@),
        is_ascii_chars(texto@) ==> r == listado_legible(true, texto@),
{
    let ls = lineas_de_video(texto);
    let ghost m = vistas(ls@);
    let mut i: usize = 0;
    while i < ls.len()
        invariant
            i <= ls.len(),
            m == vistas(ls@),
            m == lineas(bloque_video(texto@)),
            forall|k: int| 0 <= k < i && lista_pantalla(en_minusculas(#[trigger] m[k])) ==> linea_legible(m[k]),
            is_ascii_chars(texto@) ==> forall|k: int| 0 <= k < m.len() ==> is_ascii_chars(#[trigger] m[k]),
            is_ascii_chars(texto@) ==> forall|k: int|
                0 <= k < i && lista_pantalla(ascii_en_minusculas(#[trigger] m[k])) ==> linea_legible(m[k]),
        decreases ls.len() - i,
    {
        assert(m[i as int] == ls@[i as int]@);
        let lower = a_minusculas(ls[i].as_str());
        if es_linea_de_pantalla(lower.as_str()) && !es_legible(ls[i].as_str()) {
            return false;
        }
        i += 1;
    }
    true
}

/// The indices of the screens in a listing, each once, in order of appearance.
pub fn indices_capturados(texto: &str) -> (r: Vec<String>)
    requires
        listado_legible(false, texto@),
    ensures
        vistas(r@) == indices_de_listado(false, texto@),
        is_ascii_chars(texto@) ==> vistas(r@) == indices_de_listado(true, texto@),
{
    let ls = lineas_de_video(texto);
    let ghost m = vistas(ls@);
    let mut salida: Vec<String> = Vec::new();
    assert(vistas(salida@) =~= indices_en(false, m.take(0)));
    assert(vistas(salida@) =~= indices_en(true, m.take(0)));
    let mut i: usize = 0;
    while i < ls.len()
        invariant
            i <= ls.len(),
            m == vistas(ls@),
            lineas_legibles(false, m),
            m == lineas(bloque_video(texto@)),
            is_ascii_chars(texto@) ==> forall|k: int| 0 <= k < m.len() ==> is_ascii_chars(#[trigger] m[k]),
            vistas(salida@) == indices_en(false, m.take(i as int)),
            is_ascii_chars(texto@) ==> vistas(salida@) == indices_en(true, m.take(i as int)),
        decreases ls.len() - i,
    {
        assert(m[i as int] == ls@[i as int]@);
        assert(m.take(i + 1).drop_last() =~= m.take(i as int));
        assert(m.take(i + 1).last() == m[i as int]);
        let lower = a_minusculas(ls[i].as_str());
        if es_linea_de_pantalla(lower.as_str()) {
            match leer_indice(ls[i].as_str()) {
                Some(idx) => {
                    if !esta_en(&salida, idx.as_str()) {
                        let ghost previa = salida@;
                        salida.push(idx);
                        assert(vistas(salida@) =~= vistas(previa).push(idx@));
                    }
                },
                None => {},
            }
        }
        i += 1;
    }
    assert(m.take(m.len() as int) =~= m);
    salida
}

// ---------------------------------------------------------------------------
// The list of screens
// ---------------------------------------------------------------------------

/// The number of screens that the window system reports: one where it reports
/// nothing that reads as a number.
pub open spec fn conteo_en(salida: Option<Seq<char>>) -> usize {
    match salida {
        Some(t) => match leido(recortado(t)) {
            Some(n) => n,
            None => 1,
        },
        None => 1,
    }
}

/// The indices from zero on, for want of a listing.
pub open spec fn indices_por_conteo(n: nat) -> Seq<Seq<char>> {
    Seq::new(n, |i: int| decimal(i as nat))
}

/// The caption of the screen at position `i`: the first one is the primary
/// monitor, all others are external ones.
pub open spec fn etiqueta_de(i: int, idx: Seq<char>) -> Seq<char> {
    if i == 0 {
        "Monitor Principal (Pantalla 1) [AVF idx "@ + idx + "]"@
    } else {
        "Monitor Externo (Pantalla "@ + decimal((i + 1) as nat) + ") [AVF idx "@ + idx + "]"@
    }
}

/// Screens with their captions.
pub open spec fn etiquetadas(indices: Seq<Seq<char>>) -> Seq<Pantalla> {
    Seq::new(
        indices.len(),
        |i: int| Pantalla { avf_index: indices[i], etiqueta: etiqueta_de(i, indices[i]) },
    )
}

/// The screens: those that the listing names or, where it names none, as many as
/// the window system reports.
pub open spec fn pantallas_de(indices: Seq<Seq<char>>, conteo: Option<Seq<char>>) -> Seq<Pantalla> {
    if indices.len() > 0 {
        etiquetadas(indices)
    } else {
        etiquetadas(indices_por_conteo(conteo_en(conteo) as nat))
    }
}

/// The text behind optional bytes, with what is not UTF-8 replaced.
pub open spec fn texto_de(bytes: Option<Seq<u8>>) -> Option<Seq<char>> {
    match bytes {
        Some(b) => Some(utf8_con_perdida(b)),
        None => None,
    }
}

/// The bytes, if any, are UTF-8.
pub open spec fn es_utf8(bytes: Option<Seq<u8>>) -> bool {
    match bytes {
        Some(b) => valid_utf8(b),
        None => true,
    }
}

/// The text that optional bytes encode, where they are UTF-8.
pub open spec fn descifrado(bytes: Option<Seq<u8>>) -> Option<Seq<char>> {
    match bytes {
        Some(b) => Some(decode_utf8(b)),
        None => None,
    }
}

/// The bytes, if any, encode ASCII text.
pub open spec fn es_ascii(bytes: Option<Seq<u8>>) -> bool {
    match bytes {
        Some(b) => valid_utf8(b) && is_ascii_chars(decode_utf8(b)),
        None => true,
    }
}

/// The bytes behind an optional slice.
pub open spec fn vista_bytes(b: Option<&[u8]>) -> Option<Seq<u8>> {
    match b {
        Some(s) => Some(s@),
        None => None,
    }
}

/// The number of screens that the window system reports.
pub fn contar_pantallas(salida: Option<String>) -> (r: usize)
    ensures
        r == conteo_en(
            match salida {
                Some(t) => Some(t@),
                None => None,
            },
        ),
{
    match salida {
        Some(t) => match leer_numero(recortar(t.as_str())) {
            Some(n) => n,
            None => 1,
        },
        None => 1,
    }
}

/// Gives every screen its caption.
pub fn etiquetar(indices: Vec<String>) -> (r: Vec<PantallaReal>)
    ensures
        vistas_pantallas(r@) == etiquetadas(vistas(indices@)),
{
    let mut salida: Vec<PantallaReal> = Vec::new();
    let mut i: usize = 0;
    while i < indices.len()
        invariant
            i <= indices.len(),
            vistas_pantallas(salida@) =~= etiquetadas(vistas(indices@)).take(i as int),
        decreases indices.len() - i,
    {
        let mut etiqueta: String;
        if i == 0 {
            etiqueta = "Monitor Principal (Pantalla 1) [AVF idx ".to_owned();
        } else {
            etiqueta = "Monitor Externo (Pantalla ".to_owned();
            etiqueta.append(a_decimal(i + 1).as_str());
            etiqueta.append(") [AVF idx ");
        }
        etiqueta.append(indices[i].as_str());
        etiqueta.append("]");
        let p = PantallaReal { avf_index: indices[i].clone(), etiqueta };
        let ghost previa = salida@;
        salida.push(p);
        assert(vistas_pantallas(salida@) =~= vistas_pantallas(previa).push(p@));
        i += 1;
    }
    salida
}

/// The screens: those of the listing or, where there are none, as many as the
/// window system reports.
pub fn completar_pantallas(indices: Vec<String>, conteo: Option<String>) -> (r: Vec<PantallaReal>)
    ensures
        vistas_pantallas(r@) == pantallas_de(
            vistas(indices@),
            match conteo {
                Some(t) => Some(t@),
                None => None,
            },
        ),
{
    if indices.len() > 0 {
        return etiquetar(indices);
    }
    let n: usize = contar_pantallas(conteo);
    let mut salida: Vec<String> = Vec::new();
    let mut i: usize = 0;
    while i < n
        invariant
            i <= n,
            vistas(salida@) =~= indices_por_conteo(n as nat).take(i as int),
        decreases n - i,
    {
        let d = a_decimal(i);
        let ghost previa = salida@;
        salida.push(d);
        assert(vistas(salida@) =~= vistas(previa).push(d@));
        i += 1;
    }
    assert(vistas(salida@) =~= indices_por_conteo(n as nat));
    etiquetar(salida)
}

/// What the device listing gives: the indices it names, or nothing where a line
/// that lists a screen cannot be read. Without a listing there are no indices.
pub open spec fn capturadas(ascii: bool, listado: Option<Seq<char>>) -> Option<Seq<Seq<char>>> {
    match listado {
        None => Some(seq![]),
        Some(t) => if listado_legible(ascii, t) {
            Some(indices_de_listado(ascii, t))
        } else {
            None
        },
    }
}

/// The indices in the output of the device listing; `None` where a line that
/// lists a screen cannot be read.
pub fn pantallas_capturadas(listado: Option<&[u8]>) -> (r: Option<Vec<String>>)
    ensures
        ({
            let v = match r {
                Some(x) => Some(vistas(x@)),
                None => None,
            };
            &&& v == capturadas(false, texto_de(vista_bytes(listado)))
            &&& es_ascii(vista_bytes(listado)) ==> v == capturadas(true, descifrado(vista_bytes(listado)))
        }),
{
    match listado {
        None => {
            let v: Vec<String> = Vec::new();
            assert(vistas(v@) =~= seq![]);
            Some(v)
        },
        Some(bytes) => {
            let t = texto_con_perdida(bytes);
            if es_listado_legible(t.as_str()) {
                Some(indices_capturados(t.as_str()))
            } else {
                None
            }
        },
    }
}

/// The screens that the outputs of the two tools give, if they can be read.
pub open spec fn pantallas_reales(
    ascii: bool,
    listado: Option<Seq<char>>,
    conteo: Option<Seq<char>>,
) -> Option<Seq<Pantalla>> {
    match capturadas(ascii, listado) {
        Some(indices) => Some(pantallas_de(indices, conteo)),
        None => None,
    }
}

/// The screens in the output of the two tools: the device listing and, where it
/// names none, the count of the window system. Either output is missing where
/// its tool could not be run. `None` where a line that lists a screen cannot be
/// read.
pub fn obtener_pantallas_reales_macos(listado: Option<&[u8]>, conteo: Option<&[u8]>) -> (r: Option<
    Vec<PantallaReal>,
>)
    ensures
        ({
            let v = match r {
                Some(x) => Some(vistas_pantallas(x@)),
                None => None,
            };
            &&& v == pantallas_reales(false, texto_de(vista_bytes(listado)), texto_de(vista_bytes(conteo)))
            &&& es_ascii(vista_bytes(listado)) && es_utf8(vista_bytes(conteo)) ==> v == pantallas_reales(
                true,
                descifrado(vista_bytes(listado)),
                descifrado(vista_bytes(conteo)),
            )
        }),
{
    let salida = match conteo {
        Some(bytes) => Some(texto_con_perdida(bytes)),
        None => None,
    };
    match pantallas_capturadas(listado) {
        Some(indices) => Some(completar_pantallas(indices, salida)),
        None => None,
    }
}

/// The indices of a list of screens.
pub open spec fn indices_de(ps: Seq<Pantalla>) -> Seq<Seq<char>> {
    ps.map_values(|p: Pantalla| p.avf_index)
}

/// The indices of an optional list of screens.
pub open spec fn solo_indices_de(ps: Option<Seq<Pantalla>>) -> Option<Seq<Seq<char>>> {
    match ps {
        Some(v) => Some(indices_de(v)),
        None => None,
    }
}

fn solo_indices(pantallas: &Vec<PantallaReal>) -> (r: Vec<String>)
    ensures
        vistas(r@) == indices_de(vistas_pantallas(pantallas@)),
{
    let mut salida: Vec<String> = Vec::new();
    let mut i: usize = 0;
    while i < pantallas.len()
        invariant
            i <= pantallas.len(),
            vistas(salida@) =~= indices_de(vistas_pantallas(pantallas@)).take(i as int),
        decreases pantallas.len() - i,
    {
        let ghost previa = salida@;
        let c = pantallas[i].avf_index.clone();
        salida.push(c);
        assert(vistas(salida@) =~= vistas(previa).push(c@));
        i += 1;
    }
    salida
}

/// The device indices of the screens in the output of the two tools.
pub fn obtener_indices_pantalla_macos(listado: Option<&[u8]>, conteo: Option<&[u8]>) -> (r: Option<Vec<String>>)
    ensures
        ({
            let v = match r {
                Some(x) => Some(vistas(x@)),
                None => None,
            };
            &&& v == solo_indices_de(
                pantallas_reales(false, texto_de(vista_bytes(listado)), texto_de(vista_bytes(conteo))),
            )
            &&& es_ascii(vista_bytes(listado)) && es_utf8(vista_bytes(conteo)) ==> v == solo_indices_de(
                pantallas_reales(true, descifrado(vista_bytes(listado)), descifrado(vista_bytes(conteo))),
            )
        }),
{
    match obtener_pantallas_reales_macos(listado, conteo) {
        Some(ps) => Some(solo_indices(&ps)),
        None => None,
    }
}

// ---------------------------------------------------------------------------
// What every list of screens keeps
// ---------------------------------------------------------------------------

/// A listing gives no index twice, and every index is a number.
pub proof fn ley_indices_distintos(ascii: bool, ls: Seq<Seq<char>>)
    ensures
        indices_en(ascii, ls).no_duplicates(),
        forall|k: int|
            0 <= k < indices_en(ascii, ls).len() ==> {
                &&& (#[trigger] indices_en(ascii, ls)[k]).len() > 0
                &&& solo_digitos(indices_en(ascii, ls)[k])
            },
    decreases ls.len(),
{
    if ls.len() > 0 {
        ley_indices_distintos(ascii, ls.drop_last());
    }
}

/// The captions tell the screens apart, whatever their indices.
pub proof fn ley_etiquetas_distintas(indices: Seq<Seq<char>>, i: int, j: int)
    requires
        0 <= i < j < indices.len(),
    ensures
        etiquetadas(indices)[i].etiqueta != etiquetadas(indices)[j].etiqueta,
{
    let a = etiquetadas(indices)[i].etiqueta;
    let b = etiquetadas(indices)[j].etiqueta;
    reveal_strlit("Monitor Principal (Pantalla 1) [AVF idx ");
    reveal_strlit("Monitor Externo (Pantalla ");
    reveal_strlit(") [AVF idx ");
    if i == 0 {
        assert(a[8] == 'P');
        assert(b[8] == 'E');
    } else if a == b {
        let p = "Monitor Externo (Pantalla "@.len() as int;
        let da = decimal((i + 1) as nat);
        let db = decimal((j + 1) as nat);
        ley_decimal_se_lee((i + 1) as nat);
        ley_decimal_se_lee((j + 1) as nat);
        assert(a[p + da.len()] == ')');
        assert(b[p + db.len()] == ')');
        assert(forall|k: int| 0 <= k < da.len() ==> a[p + k] == da[k]);
        assert(forall|k: int| 0 <= k < db.len() ==> b[p + k] == db[k]);
        if da.len() < db.len() {
            assert(b[p + da.len()] == db[da.len() as int]);
            assert(crate::texto::es_digito(db[da.len() as int]));
        } else if db.len() < da.len() {
            assert(a[p + db.len()] == da[db.len() as int]);
            assert(crate::texto::es_digito(da[db.len() as int]));
        } else {
            assert forall|k: int| 0 <= k < da.len() implies da[k] == db[k] by {
                assert(a[p + k] == b[p + k]);
            }
            assert(da =~= db);
        }
    }
}

/// A listing is read completely: every line that lists a screen and gives its
/// index has that index in the result.
pub proof fn ley_listado_completo(ascii: bool, ls: Seq<Seq<char>>, k: int)
    requires
        0 <= k < ls.len(),
        lista_pantalla(en_minuscula(ascii, ls[k])),
        indice_en(ls[k]) is Some,
    ensures
        indices_en(ascii, ls).contains(indice_en(ls[k])->0),
    decreases ls.len(),
{
    let previas = ls.drop_last();
    let antes = indices_en(ascii, previas);
    let r = indices_en(ascii, ls);
    let x = indice_en(ls[k])->0;
    if k < ls.len() - 1 {
        assert(previas[k] == ls[k]);
        ley_listado_completo(ascii, previas, k);
        let j = choose|j: int| 0 <= j < antes.len() && antes[j] == x;
        assert(r[j] == x);
    } else {
        assert(ls.last() == ls[k]);
        if !antes.contains(x) {
            assert(r[r.len() - 1] == x);
        }
    }
}

/// A listing gives nothing but what it lists: every index in the result is that
/// of some line that lists a screen.
pub proof fn ley_listado_sin_inventos(ascii: bool, ls: Seq<Seq<char>>, j: int)
    requires
        0 <= j < indices_en(ascii, ls).len(),
    ensures
        exists|k: int|
            0 <= k < ls.len() && lista_pantalla(en_minuscula(ascii, #[trigger] ls[k])) && indice_en(ls[k]) == Some(
                indices_en(ascii, ls)[j],
            ),
    decreases ls.len(),
{
    let n = ls.len() - 1;
    let previas = ls.drop_last();
    let antes = indices_en(ascii, previas);
    if j < antes.len() {
        ley_listado_sin_inventos(ascii, previas, j);
        let k = choose|k: int|
            0 <= k < previas.len() && lista_pantalla(en_minuscula(ascii, #[trigger] previas[k])) && indice_en(previas[k])
                == Some(antes[j]);
        assert(ls[k] == previas[k]);
    } else {
        assert(ls[n] == ls.last());
    }
}

/// A listing is read in order of first appearance: wherever a line gives an
/// index, an earlier line gives each of the indices that come before it in the
/// result.
pub proof fn ley_listado_ordenado(ascii: bool, ls: Seq<Seq<char>>, a: int, b: int, k: int)
    requires
        0 <= a < b < indices_en(ascii, ls).len(),
        0 <= k < ls.len(),
        lista_pantalla(en_minuscula(ascii, ls[k])),
        indice_en(ls[k]) == Some(indices_en(ascii, ls)[b]),
    ensures
        exists|h: int|
            0 <= h < k && lista_pantalla(en_minuscula(ascii, #[trigger] ls[h])) && indice_en(ls[h]) == Some(
                indices_en(ascii, ls)[a],
            ),
    decreases ls.len(),
{
    let n = ls.len() - 1;
    let previas = ls.drop_last();
    let antes = indices_en(ascii, previas);
    let r = indices_en(ascii, ls);
    assert(ls[n] == ls.last());
    if k < n && b < antes.len() {
        assert(previas[k] == ls[k]);
        ley_listado_ordenado(ascii, previas, a, b, k);
        let h = choose|h: int|
            0 <= h < k && lista_pantalla(en_minuscula(ascii, #[trigger] previas[h])) && indice_en(previas[h]) == Some(
                antes[a],
            );
        assert(ls[h] == previas[h]);
    } else {
        if k < n {
            assert(previas[k] == ls[k]);
            ley_listado_completo(ascii, previas, k);
        }
        ley_listado_sin_inventos(ascii, previas, a);
        let h = choose|h: int|
            0 <= h < previas.len() && lista_pantalla(en_minuscula(ascii, #[trigger] previas[h])) && indice_en(previas[h])
                == Some(antes[a]);
        assert(ls[h] == previas[h]);
    }
}

/// A line lists a screen exactly where it speaks of a screen capture and of none
/// of the things that are cameras; then its index is the number in it, and else
/// it has none.
pub proof fn ley_linea_de_pantalla(linea: Seq<char>, lower: Seq<char>)
    ensures
        lista_pantalla(lower) <==> {
            &&& contiene(lower, "capture screen"@) || contiene(lower, "capture_screen"@)
            &&& !contiene(lower, "facetime"@)
            &&& !contiene(lower, "webcam"@)
            &&& !contiene(lower, "camera"@)
            &&& !contiene(lower, "iphone"@)
            &&& !contiene(lower, "ipad"@)
            &&& !contiene(lower, "continuity"@)
        },
        lista_pantalla(lower) ==> indice_de_pantalla(linea, lower) == indice_en(linea),
        !lista_pantalla(lower) ==> indice_de_pantalla(linea, lower) is None,
{
    let p = palabras_camara();
    assert(p[0] == "facetime"@ && p[1] == "webcam"@ && p[2] == "camera"@ && p[3] == "iphone"@ && p[4] == "ipad"@
        && p[5] == "continuity"@);
}

/// The index in a line is the number in the brackets behind the first closing
/// bracket, with or without white space round it. Anything else between those
/// brackets is no index.
pub proof fn ley_indice_de_linea(
    nombre: Seq<char>,
    medio: Seq<char>,
    a: Seq<char>,
    idx: Seq<char>,
    b: Seq<char>,
    resto: Seq<char>,
)
    requires
        !nombre.contains(']'),
        !medio.contains('['),
        !medio.contains(']'),
        !idx.contains(']'),
        forall|i: int| 0 <= i < a.len() ==> blanco(#[trigger] a[i]),
        forall|i: int| 0 <= i < b.len() ==> blanco(#[trigger] b[i]),
        idx.len() > 0 ==> !blanco(idx.first()) && !blanco(idx.last()),
    ensures
        ({
            let linea = nombre.push(']') + (medio.push('[') + ((a + idx + b).push(']') + resto));
            &&& linea_legible(linea)
            &&& idx.len() > 0 && (forall|i: int| 0 <= i < idx.len() ==> '0' <= #[trigger] idx[i] <= '9')
                ==> indice_en(linea) == Some(idx)
            &&& idx.len() == 0 || (exists|i: int| 0 <= i < idx.len() && !('0' <= #[trigger] idx[i] <= '9'))
                ==> indice_en(linea) is None
        }),
{
    let dentro = a + idx + b;
    let cola = dentro.push(']') + resto;
    let detras = medio.push('[') + cola;
    let linea = nombre.push(']') + detras;
    ley_primer_caracter(nombre, ']', detras);
    assert(linea.skip(nombre.len() as int + 1) =~= detras);
    ley_primer_caracter(medio, '[', cola);
    let previo = medio.push('[') + dentro;
    assert(!previo.contains(']')) by {
        if previo.contains(']') {
            let i = choose|i: int| 0 <= i < previo.len() && previo[i] == ']';
            let m = medio.len() as int;
            if i < m {
                assert(medio[i] == ']');
            } else if i > m {
                let j = i - m - 1;
                assert(dentro[j] == ']');
                if j < a.len() {
                    assert(blanco(a[j]));
                } else if j < a.len() + idx.len() {
                    assert(idx[j - a.len()] == ']');
                } else {
                    assert(blanco(b[j - a.len() - idx.len()]));
                }
            }
        }
    }
    assert(detras =~= previo.push(']') + resto);
    ley_primer_caracter(previo, ']', resto);
    assert(detras.subrange(medio.len() as int + 1, previo.len() as int) =~= dentro);
    ley_recorte(a, idx, b);
    if exists|i: int| 0 <= i < idx.len() && !('0' <= #[trigger] idx[i] <= '9') {
        let i = choose|i: int| 0 <= i < idx.len() && !('0' <= #[trigger] idx[i] <= '9');
        assert(!crate::texto::es_digito(idx[i]));
    }
}

/// Lines without an index: those without a closing bracket, and those that lack
/// either bracket behind the first closing one. A line cannot be read exactly
/// where, behind it, a closing bracket comes before the first opening one.
pub proof fn ley_linea_sin_indice(nombre: Seq<char>, a: Seq<char>, b: Seq<char>)
    requires
        !nombre.contains(']'),
        !a.contains('['),
    ensures
        indice_en(nombre) is None && linea_legible(nombre),
        indice_en(nombre.push(']') + a) is None && linea_legible(nombre.push(']') + a),
        !a.contains(']') && !b.contains(']') ==> {
            let l = nombre.push(']') + (a.push('[') + b);
            indice_en(l) is None && linea_legible(l)
        },
        a.contains(']') ==> !linea_legible(nombre.push(']') + (a.push('[') + b)),
{
    ley_primer_caracter(nombre, ']', a);
    assert((nombre.push(']') + a).skip(nombre.len() as int + 1) =~= a);
    let t = a.push('[') + b;
    ley_primer_caracter(nombre, ']', t);
    assert((nombre.push(']') + t).skip(nombre.len() as int + 1) =~= t);
    ley_primer_caracter(a, '[', b);
    if !a.contains(']') && !b.contains(']') {
        assert(!t.contains(']')) by {
            if t.contains(']') {
                let i = choose|i: int| 0 <= i < t.len() && t[i] == ']';
                if i < a.len() {
                    assert(a[i] == ']');
                } else if i > a.len() {
                    assert(b[i - a.len() - 1] == ']');
                }
            }
        }
    }
    if a.contains(']') {
        lemma_hay_posicion(a, ']');
        let i = posicion(a, ']')->0;
        assert forall|j: int| 0 <= j < i implies t[j] != ']' by {
            assert(a[j] == t[j]);
        }
        assert(t[i] == a[i]);
        lemma_posicion(t, ']', i);
    }
}

/// Only what stands before the first heading of the audio devices is read, and
/// without such a heading everything is. A listing can be read exactly where no
/// line in that part lists a screen and cannot be read.
pub proof fn ley_solo_el_video(ascii: bool, a: Seq<char>, b: Seq<char>)
    ensures
        ({
            let h = "AVFoundation audio devices"@;
            let t = a + h + b;
            (forall|j: int| 0 <= j < a.len() ==> #[trigger] t.subrange(j, j + h.len()) != h) ==> {
                &&& indices_de_listado(ascii, t) == indices_en(ascii, lineas(a))
                &&& listado_legible(ascii, t) <==> !exists|k: int|
                    0 <= k < lineas(a).len() && lista_pantalla(en_minuscula(ascii, #[trigger] lineas(a)[k]))
                        && !linea_legible(lineas(a)[k])
            }
        }),
        !contiene(a, "AVFoundation audio devices"@) ==> {
            &&& indices_de_listado(ascii, a) == indices_en(ascii, lineas(a))
            &&& listado_legible(ascii, a) <==> !exists|k: int|
                0 <= k < lineas(a).len() && lista_pantalla(en_minuscula(ascii, #[trigger] lineas(a)[k]))
                    && !linea_legible(lineas(a)[k])
        },
{
    let h = "AVFoundation audio devices"@;
    let t = a + h + b;
    let n = a.len() as int;
    if forall|j: int| 0 <= j < a.len() ==> #[trigger] t.subrange(j, j + h.len()) != h {
        assert(t.subrange(n, n + h.len()) =~= h);
        assert forall|j: int| 0 <= j < n implies !aparece_en(t, h, j) by {
            assert(t.subrange(j, j + h.len()) != h);
        }
        assert(es_primera(t, h, n));
        lemma_primera(t, h, n);
        assert(t.take(n) =~= a);
    }
}

/// The screens of a listing are its indices, one for one and in order, the first
/// under the caption of the primary monitor and the others under that of an
/// external one with its number. What the window system counts does not matter
/// then.
pub proof fn ley_pantallas_del_listado(indices: Seq<Seq<char>>, conteo: Option<Seq<char>>, i: int)
    requires
        0 <= i < indices.len(),
    ensures
        pantallas_de(indices, conteo).len() == indices.len(),
        pantallas_de(indices, conteo)[i].avf_index == indices[i],
        pantallas_de(indices, conteo)[i].etiqueta == (if i == 0 {
            "Monitor Principal (Pantalla 1) [AVF idx "@ + indices[i] + "]"@
        } else {
            "Monitor Externo (Pantalla "@ + decimal((i + 1) as nat) + ") [AVF idx "@ + indices[i] + "]"@
        }),
        indices_de(pantallas_de(indices, conteo)) == indices,
{
    assert(indices_de(pantallas_de(indices, conteo)) =~= indices);
}

/// Where the listing names no screen there are as many as the window system
/// counts, numbered from zero, and one where it gives no number.
pub proof fn ley_pantallas_contadas(a: Seq<char>, n: usize, b: Seq<char>, otro: Seq<char>, i: int)
    requires
        forall|k: int| 0 <= k < a.len() ==> blanco(#[trigger] a[k]),
        forall|k: int| 0 <= k < b.len() ==> blanco(#[trigger] b[k]),
    ensures
        ({
            let ps = pantallas_de(seq![], Some(a + decimal(n as nat) + b));
            &&& ps.len() == n
            &&& 0 <= i < n ==> ps[i].avf_index == decimal(i as nat)
            &&& 0 < i < n ==> ps[i].etiqueta == "Monitor Externo (Pantalla "@ + decimal((i + 1) as nat)
                + ") [AVF idx "@ + decimal(i as nat) + "]"@
            &&& i == 0 && n > 0 ==> ps[i].etiqueta == "Monitor Principal (Pantalla 1) [AVF idx "@ + decimal(0) + "]"@
        }),
        leido(recortado(otro)) matches Some(m) ==> pantallas_de(seq![], Some(otro)).len() == m,
        pantallas_de(seq![], None).len() == 1,
        pantallas_de(seq![], None)[0].avf_index == "0"@,
        leido(recortado(otro)) is None ==> pantallas_de(seq![], Some(otro)) == pantallas_de(seq![], None),
{
    let d = decimal(n as nat);
    ley_decimal_se_lee(n as nat);
    assert(crate::texto::es_digito(d[0]) && crate::texto::es_digito(d[d.len() - 1]));
    ley_recorte(a, d, b);
    reveal_strlit("0");
    assert(decimal(0) =~= "0"@);
}

/// The tools' outputs give screens exactly where the listing, if there is one,
/// can be read: those of its indices, or the counted ones where it has none.
pub proof fn ley_salida_de_las_herramientas(ascii: bool, t: Seq<char>, conteo: Option<Seq<char>>)
    ensures
        capturadas(ascii, None) == Some(Seq::<Seq<char>>::empty()),
        capturadas(ascii, Some(t)) is Some <==> listado_legible(ascii, t),
        capturadas(ascii, Some(t)) is Some ==> capturadas(ascii, Some(t))->0 == indices_de_listado(ascii, t),
        pantallas_reales(ascii, None, conteo) == Some(pantallas_de(seq![], conteo)),
        pantallas_reales(ascii, Some(t), conteo) is Some <==> listado_legible(ascii, t),
        listado_legible(ascii, t) ==> pantallas_reales(ascii, Some(t), conteo)->0 == pantallas_de(
            indices_de_listado(ascii, t),
            conteo,
        ),
        en_minuscula(true, t) == ascii_en_minusculas(t),
        en_minuscula(false, t) == en_minusculas(t),
{
}

/// The lists of the contracts are read element by element: nothing is left out,
/// added or moved. Bytes count as ASCII or UTF-8 text by what they encode.
pub proof fn ley_vistas_de_pantallas(v: Seq<PantallaReal>, ps: Seq<Pantalla>, b: &[u8])
    ensures
        vistas_pantallas(v).len() == v.len(),
        forall|i: int|
            0 <= i < v.len() ==> {
                &&& (#[trigger] vistas_pantallas(v)[i]).avf_index == v[i].avf_index@
                &&& vistas_pantallas(v)[i].etiqueta == v[i].etiqueta@
            },
        indices_de(ps).len() == ps.len(),
        forall|i: int| 0 <= i < ps.len() ==> #[trigger] indices_de(ps)[i] == ps[i].avf_index,
        solo_indices_de(Some(ps)) == Some(indices_de(ps)),
        solo_indices_de(None) is None,
        vista_bytes(Some(b)) == Some(b@),
        vista_bytes(None) is None,
        texto_de(Some(b@)) == Some(utf8_con_perdida(b@)),
        texto_de(None) is None,
        descifrado(Some(b@)) == Some(decode_utf8(b@)),
        descifrado(None) is None,
        es_utf8(Some(b@)) <==> valid_utf8(b@),
        es_utf8(None),
        es_ascii(Some(b@)) <==> valid_utf8(b@) && is_ascii_chars(decode_utf8(b@)),
        es_ascii(None),
{
}

} // verus!
