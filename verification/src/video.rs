//! The displays of the system, with the names that the device listing gives
//! them.

use vstd::prelude::*;
use vstd::string::*;

use crate::codificacion::texto_con_perdida;
use crate::pantallas::{corchetes_en_orden, descifrado, es_utf8, texto_de, vista_bytes};
use crate::texto::{
    buscar_char, contiene, contiene_texto, dividir_lineas, ley_primer_caracter, lineas, posicion, recortado, recortar,
    vistas,
};

verus! {

/// A line that names a display.
pub open spec fn nombra_monitor(linea: Seq<char>) -> bool {
    contiene(linea, "Capture screen"@) || contiene(linea, "DisplayLink"@) || contiene(linea, "Display"@)
}

/// The identifier and the name in a line: the trimmed text between the first
/// brackets and the trimmed text behind them.
pub open spec fn monitor_en(linea: Seq<char>) -> Option<(Seq<char>, Seq<char>)> {
    match (posicion(linea, '['), posicion(linea, ']')) {
        (Some(a), Some(b)) => Some((recortado(linea.subrange(a + 1, b)), recortado(linea.skip(b + 1)))),
        _ => None,
    }
}

/// The displays in the lines of a listing. `captura` says whether the heading of
/// the video devices has been passed; the heading of the audio devices ends the
/// search.
pub open spec fn monitores(ls: Seq<Seq<char>>, captura: bool) -> Seq<(Seq<char>, Seq<char>)>
    decreases ls.len(),
{
    if ls.len() == 0 {
        seq![]
    } else {
        let l = ls.first();
        let resto = ls.skip(1);
        if contiene(l, "AVFoundation video devices:"@) {
            monitores(resto, true)
        } else if captura && contiene(l, "AVFoundation audio devices:"@) {
            seq![]
        } else if captura && nombra_monitor(l) {
            match monitor_en(l) {
                Some(m) => seq![m] + monitores(resto, captura),
                None => monitores(resto, captura),
            }
        } else {
            monitores(resto, captura)
        }
    }
}

/// In every line that the search reads, the first brackets come in order.
pub open spec fn monitores_legibles(ls: Seq<Seq<char>>, captura: bool) -> bool
    decreases ls.len(),
{
    if ls.len() == 0 {
        true
    } else {
        let l = ls.first();
        let resto = ls.skip(1);
        if contiene(l, "AVFoundation video devices:"@) {
            monitores_legibles(resto, true)
        } else if captura && contiene(l, "AVFoundation audio devices:"@) {
            true
        } else if captura && nombra_monitor(l) {
            corchetes_en_orden(l) && monitores_legibles(resto, captura)
        } else {
            monitores_legibles(resto, captura)
        }
    }
}

/// The displays offered where the listing names none.
pub open spec fn monitores_por_defecto() -> Seq<(Seq<char>, Seq<char>)> {
    seq![("1"@, "Pantalla por defecto / Principal"@), ("0"@, "Pantalla secundaria"@)]
}

/// The displays in a listing, or the default ones where there are none.
pub open spec fn monitores_de(listado: Option<Seq<char>>) -> Seq<(Seq<char>, Seq<char>)> {
    let hallados = match listado {
        Some(t) => monitores(lineas(t), false),
        None => seq![],
    };
    if hallados.len() == 0 {
        monitores_por_defecto()
    } else {
        hallados
    }
}

/// The listing, if any, can be read.
pub open spec fn es_legible(listado: Option<Seq<char>>) -> bool {
    match listado {
        Some(t) => monitores_legibles(lineas(t), false),
        None => true,
    }
}

/// The contents of a list of pairs.
pub open spec fn vistas_pares(v: Seq<(String, String)>) -> Seq<(Seq<char>, Seq<char>)> {
    v.map_values(|p: (String, String)| (p.0@, p.1@))
}

fn es_linea_de_monitor(linea: &str) -> (r: bool)
    ensures
        r == nombra_monitor(linea@),
{
    contiene_texto(linea, "Capture screen") || contiene_texto(linea, "DisplayLink") || contiene_texto(linea, "Display")
}

/// Whether every line that the search reads has its brackets in order.
pub fn listado_en_orden(texto: &str) -> (r: bool)
    ensures
        r == monitores_legibles(lineas(texto@), false),
{
    let ls = dividir_lineas(texto);
    let ghost m = vistas(ls@);
    let mut captura = false;
    let mut i: usize = 0;
    assert(m.skip(0) =~= m);
    while i < ls.len()
        invariant
            i <= ls.len(),
            m == vistas(ls@),
            m == lineas(texto@),
            monitores_legibles(m, false) == monitores_legibles(m.skip(i as int), captura),
        decreases ls.len() - i,
    {
        let l = ls[i].as_str();
        assert(m.skip(i as int).first() == l@);
        assert(m.skip(i as int).skip(1) =~= m.skip(i + 1));
        if contiene_texto(l, "AVFoundation video devices:") {
            captura = true;
        } else if captura && contiene_texto(l, "AVFoundation audio devices:") {
            return true;
        } else if captura && es_linea_de_monitor(l) {
            match (buscar_char(l, '['), buscar_char(l, ']')) {
                (Some(a), Some(b)) => {
                    if a >= b {
                        return false;
                    }
                },
                _ => {},
            }
        }
        i += 1;
    }
    true
}

/// The displays that a listing names.
pub fn monitores_en_listado(texto: &str) -> (r: Vec<(String, String)>)
    requires
        monitores_legibles(lineas(texto@), false),
    ensures
        vistas_pares(r@) == monitores(lineas(texto@), false),
{
    let ls = dividir_lineas(texto);
    let ghost m = vistas(ls@);
    let mut salida: Vec<(String, String)> = Vec::new();
    let mut captura = false;
    let mut i: usize = 0;
    assert(m.skip(0) =~= m);
    assert(vistas_pares(salida@) + monitores(m, false) =~= monitores(m, false));
    while i < ls.len()
        invariant
            i <= ls.len(),
            m == vistas(ls@),
            m == lineas(texto@),
            monitores_legibles(m.skip(i as int), captura),
            vistas_pares(salida@) + monitores(m.skip(i as int), captura) == monitores(m, false),
        decreases ls.len() - i,
    {
        let l = ls[i].as_str();
        assert(m.skip(i as int).first() == l@);
        assert(m.skip(i as int).skip(1) =~= m.skip(i + 1));
        if contiene_texto(l, "AVFoundation video devices:") {
            captura = true;
        } else if captura && contiene_texto(l, "AVFoundation audio devices:") {
            assert(vistas_pares(salida@) + monitores(m.skip(i as int), captura) =~= vistas_pares(salida@));
            return salida;
        } else if captura && es_linea_de_monitor(l) {
            match (buscar_char(l, '['), buscar_char(l, ']')) {
                (Some(a), Some(b)) => {
                    let n: usize = l.unicode_len();
                    let id = recortar(l.substring_char(a + 1, b)).to_owned();
                    let nombre = recortar(l.substring_char(b + 1, n)).to_owned();
                    let ghost previa = salida@;
                    salida.push((id, nombre));
                    proof {
                        assert(l@.skip(b + 1) =~= l@.subrange(b + 1, n as int));
                        assert(vistas_pares(salida@) =~= vistas_pares(previa) + seq![(id@, nombre@)]);
                        assert(vistas_pares(previa) + (seq![(id@, nombre@)] + monitores(m.skip(i + 1), captura))
                            =~= vistas_pares(salida@) + monitores(m.skip(i + 1), captura));
                    }
                },
                _ => {},
            }
        }
        i += 1;
    }
    assert(vistas_pares(salida@) + monitores(m.skip(i as int), captura) =~= vistas_pares(salida@));
    salida
}

/// The displays in the output of the device listing, or the default ones where
/// it names none or could not be run. `None` where a line that names a display
/// has its brackets out of order.
pub fn detectar_pantallas_sistema(listado: Option<&[u8]>) -> (r: Option<Vec<(String, String)>>)
    ensures
        r is Some <==> es_legible(texto_de(vista_bytes(listado))),
        r is Some ==> vistas_pares(r->0@) == monitores_de(texto_de(vista_bytes(listado))),
        es_utf8(vista_bytes(listado)) ==> {
            &&& r is Some <==> es_legible(descifrado(vista_bytes(listado)))
            &&& r is Some ==> vistas_pares(r->0@) == monitores_de(descifrado(vista_bytes(listado)))
        },
{
    let mut lista: Vec<(String, String)> = Vec::new();
    match listado {
        Some(bytes) => {
            let t = texto_con_perdida(bytes);
            if !listado_en_orden(t.as_str()) {
                return None;
            }
            lista = monitores_en_listado(t.as_str());
        },
        None => {},
    }
    if lista.len() == 0 {
        lista.push(("1".to_owned(), "Pantalla por defecto / Principal".to_owned()));
        lista.push(("0".to_owned(), "Pantalla secundaria".to_owned()));
        assert(vistas_pares(lista@) =~= monitores_por_defecto());
    }
    Some(lista)
}

/// There is always a display to offer.
pub proof fn ley_siempre_hay_monitor(listado: Option<Seq<char>>)
    ensures
        monitores_de(listado).len() > 0,
{
}

/// A listing is searched line by line. Nothing counts before the heading of the
/// video devices, nor behind the next heading of the audio devices. In between,
/// a line that speaks of a screen capture or a display gives one entry, in its
/// place, and every other line gives none.
pub proof fn ley_busqueda_de_monitores(l: Seq<char>, resto: Seq<Seq<char>>, captura: bool)
    ensures
        monitores(Seq::<Seq<char>>::empty(), captura) == Seq::<(Seq<char>, Seq<char>)>::empty(),
        contiene(l, "AVFoundation video devices:"@) ==> monitores(seq![l] + resto, captura) == monitores(resto, true),
        !contiene(l, "AVFoundation video devices:"@) ==> {
            &&& monitores(seq![l] + resto, false) == monitores(resto, false)
            &&& contiene(l, "AVFoundation audio devices:"@) ==> monitores(seq![l] + resto, true).len() == 0
            &&& !contiene(l, "AVFoundation audio devices:"@) && !contiene(l, "Capture screen"@) && !contiene(
                l,
                "Display"@,
            ) && !contiene(l, "DisplayLink"@) ==> monitores(seq![l] + resto, true) == monitores(resto, true)
            &&& !(l.contains('[') && l.contains(']')) && !contiene(l, "AVFoundation audio devices:"@) ==> monitores(
                seq![l] + resto,
                true,
            ) == monitores(resto, true)
        },
{
    assert((seq![l] + resto).skip(1) =~= resto);
    assert((seq![l] + resto).first() == l);
}

/// The entry of a line is the trimmed text in its first brackets and the trimmed
/// text behind them.
pub proof fn ley_entrada_de_monitor(previo: Seq<char>, id: Seq<char>, nombre: Seq<char>, resto: Seq<Seq<char>>)
    requires
        !previo.contains('['),
        !previo.contains(']'),
        !id.contains(']'),
    ensures
        ({
            let l = previo.push('[') + (id.push(']') + nombre);
            &&& !contiene(l, "AVFoundation video devices:"@) && !contiene(l, "AVFoundation audio devices:"@) && (
            contiene(l, "Capture screen"@) || contiene(l, "DisplayLink"@) || contiene(l, "Display"@)) ==> {
                &&& monitores(seq![l] + resto, true) == seq![(recortado(id), recortado(nombre))] + monitores(
                    resto,
                    true,
                )
                &&& monitores_legibles(seq![l] + resto, true) <==> monitores_legibles(resto, true)
            }
        }),
{
    let cola = id.push(']') + nombre;
    let l = previo.push('[') + cola;
    ley_primer_caracter(previo, '[', cola);
    let antes = previo.push('[') + id;
    assert(!antes.contains(']')) by {
        if antes.contains(']') {
            let i = choose|i: int| 0 <= i < antes.len() && antes[i] == ']';
            if i < previo.len() {
                assert(previo[i] == ']');
            } else if i > previo.len() {
                assert(id[i - previo.len() - 1] == ']');
            }
        }
    }
    assert(l =~= antes.push(']') + nombre);
    ley_primer_caracter(antes, ']', nombre);
    assert(l.subrange(previo.len() as int + 1, antes.len() as int) =~= id);
    assert(l.skip(antes.len() as int + 1) =~= nombre);
    assert((seq![l] + resto).skip(1) =~= resto);
    assert((seq![l] + resto).first() == l);
}

/// A listing cannot be read exactly where a line that gives an entry has a
/// closing bracket before the first opening one.
pub proof fn ley_listado_en_orden(l: Seq<char>, resto: Seq<Seq<char>>, captura: bool, a: int, b: int)
    ensures
        monitores_legibles(Seq::<Seq<char>>::empty(), captura),
        contiene(l, "AVFoundation video devices:"@) ==> (monitores_legibles(seq![l] + resto, captura)
            <==> monitores_legibles(resto, true)),
        !contiene(l, "AVFoundation video devices:"@) ==> {
            &&& monitores_legibles(seq![l] + resto, false) <==> monitores_legibles(resto, false)
            &&& contiene(l, "AVFoundation audio devices:"@) ==> monitores_legibles(seq![l] + resto, true)
            &&& !contiene(l, "AVFoundation audio devices:"@) ==> {
                let entra = contiene(l, "Capture screen"@) || contiene(l, "DisplayLink"@) || contiene(l, "Display"@);
                let cruzada = posicion(l, '[') == Some(a) && posicion(l, ']') == Some(b) && b <= a;
                &&& !entra ==> (monitores_legibles(seq![l] + resto, true) <==> monitores_legibles(resto, true))
                &&& entra && cruzada ==> !monitores_legibles(seq![l] + resto, true)
                &&& entra && posicion(l, '[') == Some(a) && posicion(l, ']') == Some(b) && a < b ==> (
                monitores_legibles(seq![l] + resto, true) <==> monitores_legibles(resto, true))
                &&& entra && !(l.contains('[') && l.contains(']')) ==> (monitores_legibles(seq![l] + resto, true)
                    <==> monitores_legibles(resto, true))
            }
        },
{
    assert((seq![l] + resto).skip(1) =~= resto);
    assert((seq![l] + resto).first() == l);
}

/// The displays on offer are those that the listing names, as they are; only
/// where it names none, or there is no listing, are they the two default ones.
pub proof fn ley_monitores_ofrecidos(t: Seq<char>)
    ensures
        monitores(lineas(t), false).len() > 0 ==> monitores_de(Some(t)) == monitores(lineas(t), false),
        monitores(lineas(t), false).len() == 0 ==> monitores_de(Some(t)) == monitores_de(None),
        monitores_de(None) == seq![
            ("1"@, "Pantalla por defecto / Principal"@),
            ("0"@, "Pantalla secundaria"@),
        ],
        es_legible(None),
        es_legible(Some(t)) <==> monitores_legibles(lineas(t), false),
{
}

/// A list of pairs is read pair by pair.
pub proof fn ley_vistas_pares(v: Seq<(String, String)>)
    ensures
        vistas_pares(v).len() == v.len(),
        forall|i: int| 0 <= i < v.len() ==> #[trigger] vistas_pares(v)[i] == (v[i].0@, v[i].1@),
{
}

} // verus!
