//! The alert sentinel: a stream of JSON lines that announces downloads and
//! orders the temporary storage to be emptied.

use vstd::prelude::*;
use vstd::string::*;
use vstd::utf8::*;

use crate::codificacion::texto_estricto;
use crate::estado::{con_log, AppState};
use crate::json::{documento, leer_texto, texto_de_miembro, texto_en, vista_opcional, Json};
use crate::texto::{
    buscar_char, contiene, empieza, empieza_por, es_posicion, iguales, lemma_hay_posicion, lemma_posicion,
    ley_contiene_lo_puesto, ley_primer_caracter, ley_quitar, posicion, quitar_apariciones, sin_apariciones,
};

verus! {

/// Seconds between two attempts to open the alert stream.
pub const PAUSA_CENTINELA_S: u64 = 5;

// ---------------------------------------------------------------------------
// One line
// ---------------------------------------------------------------------------

/// What an alert asks of the agent.
#[derive(Clone, Debug, PartialEq, Eq)]
pub enum AccionAlerta {
    /// Fetch the file of this name.
    Descargar { archivo: String },
    /// Empty the download directory.
    Purgar,
}

/// `AccionAlerta` over character sequences.
pub enum Alerta {
    Descargar(Seq<char>),
    Purgar,
}

impl View for AccionAlerta {
    type V = Alerta;

    open spec fn view(&self) -> Alerta {
        match *self {
            AccionAlerta::Descargar { archivo } => Alerta::Descargar(archivo@),
            AccionAlerta::Purgar => Alerta::Purgar,
        }
    }
}

/// The action behind the `event` and `payload` of an alert. Only the events
/// `alert` and `clean` count; the payload alone says what is asked.
pub open spec fn alerta(event: Option<Seq<char>>, payload: Option<Seq<char>>) -> Option<Alerta> {
    if event != Some("alert"@) && event != Some("clean"@) {
        None
    } else {
        match payload {
            None => None,
            Some(p) => {
                if empieza(p, "INCOMING_STREAM:"@) {
                    Some(Alerta::Descargar(sin_apariciones(p, "INCOMING_STREAM:"@)))
                } else if p == "COMMAND:CLEAN_STORAGE"@ {
                    Some(Alerta::Purgar)
                } else {
                    None
                }
            },
        }
    }
}

/// The action that a line of the stream asks for: none unless it is a JSON
/// document with the two texts of an alert.
pub open spec fn alerta_de_linea(linea: Seq<char>) -> Option<Alerta> {
    match documento(linea) {
        Some(j) => alerta(texto_en(j, "event"@), texto_en(j, "payload"@)),
        None => None,
    }
}

/// `AccionAlerta` of an optional result over character sequences.
pub open spec fn vista_alerta(a: Option<AccionAlerta>) -> Option<Alerta> {
    match a {
        Some(x) => Some(x@),
        None => None,
    }
}

/// The action behind the `event` and `payload` of an alert.
pub fn decidir_alerta(event: Option<String>, payload: Option<String>) -> (r: Option<AccionAlerta>)
    ensures
        vista_alerta(r) == alerta(vista_opcional(event), vista_opcional(payload)),
{
    match event {
        None => return None,
        Some(e) => {
            if !iguales(e.as_str(), "alert") && !iguales(e.as_str(), "clean") {
                return None;
            }
        },
    }
    match payload {
        None => None,
        Some(p) => {
            if empieza_por(p.as_str(), "INCOMING_STREAM:") {
                Some(AccionAlerta::Descargar { archivo: quitar_apariciones(p.as_str(), "INCOMING_STREAM:") })
            } else if iguales(p.as_str(), "COMMAND:CLEAN_STORAGE") {
                Some(AccionAlerta::Purgar)
            } else {
                None
            }
        },
    }
}

/// The action that a line of the stream asks for.
pub fn leer_alerta(linea: &str) -> (r: Option<AccionAlerta>)
    ensures
        vista_alerta(r) == alerta_de_linea(linea@),
{
    match leer_texto(linea) {
        Ok(v) => decidir_alerta(texto_de_miembro(&v, "event"), texto_de_miembro(&v, "payload")),
        Err(_) => None,
    }
}

// ---------------------------------------------------------------------------
// The stream
// ---------------------------------------------------------------------------

/// The lines of `s` that a line feed has closed, without it.
pub open spec fn lineas_cerradas(s: Seq<char>) -> Seq<Seq<char>>
    decreases s.len(),
{
    if !s.contains('\n') {
        seq![]
    } else {
        let i = posicion(s, '\n')->0;
        if 0 <= i < s.len() {
            seq![s.take(i)] + lineas_cerradas(s.skip(i + 1))
        } else {
            seq![]
        }
    }
}

/// What follows the last line feed of `s`.
pub open spec fn pendiente(s: Seq<char>) -> Seq<char>
    decreases s.len(),
{
    if !s.contains('\n') {
        s
    } else {
        let i = posicion(s, '\n')->0;
        if 0 <= i < s.len() {
            pendiente(s.skip(i + 1))
        } else {
            s
        }
    }
}

/// The actions that the lines ask for, in order; lines that ask for none are
/// passed over.
pub open spec fn alertas_de(lineas: Seq<Seq<char>>) -> Seq<Alerta>
    decreases lineas.len(),
{
    if lineas.len() == 0 {
        seq![]
    } else {
        let previas = alertas_de(lineas.drop_last());
        match alerta_de_linea(lineas.last()) {
            Some(a) => previas.push(a),
            None => previas,
        }
    }
}

/// The contents of a list of actions.
pub open spec fn vistas_alertas(v: Seq<AccionAlerta>) -> Seq<Alerta> {
    v.map_values(|a: AccionAlerta| a@)
}

/// One connection to the alert stream: the text of the line that is still open.
pub struct Centinela {
    buffer: String,
}

impl View for Centinela {
    type V = Seq<char>;

    closed spec fn view(&self) -> Seq<char> {
        self.buffer@
    }
}

impl Centinela {
    /// A new connection starts with nothing pending.
    pub fn new() -> (r: Self)
        ensures
            r@ == Seq::<char>::empty(),
    {
        Centinela { buffer: String::new() }
    }

    /// Takes the next piece of the stream as text.
    pub fn recibir_texto(&mut self, texto: &str) -> (r: Vec<AccionAlerta>)
        ensures
            final(self)@ == pendiente(old(self)@ + texto@),
            vistas_alertas(r@) == alertas_de(lineas_cerradas(old(self)@ + texto@)),
    {
        let mut salida: Vec<AccionAlerta> = Vec::new();
        let mut resto = self.buffer.clone();
        resto.append(texto);
        let ghost todo = resto@;
        let ghost mut cerradas: Seq<Seq<char>> = seq![];
        assert(cerradas + lineas_cerradas(resto@) =~= lineas_cerradas(todo));
        loop
            invariant
                todo == old(self)@ + texto@,
                pendiente(resto@) == pendiente(todo),
                cerradas + lineas_cerradas(resto@) == lineas_cerradas(todo),
                vistas_alertas(salida@) == alertas_de(cerradas),
            decreases resto@.len(),
        {
            match buscar_char(resto.as_str(), '\n') {
                None => {
                    assert(cerradas + lineas_cerradas(resto@) =~= cerradas);
                    self.buffer = resto;
                    return salida;
                },
                Some(i) => {
                    let n: usize = resto.as_str().unicode_len();
                    let linea = resto.as_str().substring_char(0, i).to_owned();
                    let cola = resto.as_str().substring_char(i + 1, n).to_owned();
                    let ghost previas = cerradas;
                    proof {
                        assert(resto@.contains('\n'));
                        assert(resto@.take(i as int) =~= linea@);
                        assert(resto@.skip(i + 1) =~= cola@);
                        cerradas = cerradas.push(linea@);
                        assert(cerradas.drop_last() =~= previas);
                        assert(previas + (seq![linea@] + lineas_cerradas(cola@)) =~= cerradas + lineas_cerradas(
                            cola@,
                        ));
                    }
                    let ghost antes = salida@;
                    match leer_alerta(linea.as_str()) {
                        Some(a) => {
                            salida.push(a);
                            assert(vistas_alertas(salida@) =~= vistas_alertas(antes).push(a@));
                        },
                        None => {},
                    }
                    resto = cola;
                },
            }
        }
    }

    /// Takes the next piece of the stream as bytes. A piece that is not UTF-8 is
    /// dropped whole.
    pub fn recibir(&mut self, trozo: &[u8]) -> (r: Vec<AccionAlerta>)
        ensures
            valid_utf8(trozo@) ==> {
                &&& final(self)@ == pendiente(old(self)@ + decode_utf8(trozo@))
                &&& vistas_alertas(r@) == alertas_de(lineas_cerradas(old(self)@ + decode_utf8(trozo@)))
            },
            !valid_utf8(trozo@) ==> final(self)@ == old(self)@ && r@.len() == 0,
    {
        match texto_estricto(trozo) {
            Some(texto) => self.recibir_texto(texto),
            None => Vec::new(),
        }
    }
}

/// Lines put back together, each with the line feed that closed it.
pub open spec fn reunidas(lineas: Seq<Seq<char>>) -> Seq<char>
    decreases lineas.len(),
{
    if lineas.len() == 0 {
        seq![]
    } else {
        lineas.first().push('\n') + reunidas(lineas.skip(1))
    }
}

/// Nothing of the stream is lost or moved: the closed lines and the pending
/// text are the stream itself, and neither a line nor the pending text holds a
/// line feed.
pub proof fn ley_nada_se_pierde(s: Seq<char>)
    ensures
        reunidas(lineas_cerradas(s)) + pendiente(s) == s,
        !pendiente(s).contains('\n'),
        forall|k: int| 0 <= k < lineas_cerradas(s).len() ==> !(#[trigger] lineas_cerradas(s)[k]).contains('\n'),
    decreases s.len(),
{
    if s.contains('\n') {
        lemma_hay_posicion(s, '\n');
        let i = posicion(s, '\n')->0;
        let cola = s.skip(i + 1);
        ley_nada_se_pierde(cola);
        assert(lineas_cerradas(s).skip(1) =~= lineas_cerradas(cola));
        assert(reunidas(lineas_cerradas(s)) + pendiente(s) =~= s.take(i).push('\n') + (reunidas(
            lineas_cerradas(cola),
        ) + pendiente(cola)));
        assert(s.take(i).push('\n') + cola =~= s);
        assert forall|k: int| 0 <= k < lineas_cerradas(s).len() implies !(
        #[trigger] lineas_cerradas(s)[k]).contains('\n') by {
            if k > 0 {
                assert(lineas_cerradas(s)[k] == lineas_cerradas(cola)[k - 1]);
            }
        }
    } else {
        assert(reunidas(lineas_cerradas(s)) + pendiente(s) =~= s);
    }
}

proof fn lemma_partir(s: Seq<char>, t: Seq<char>)
    ensures
        lineas_cerradas(s + t) == lineas_cerradas(s) + lineas_cerradas(pendiente(s) + t),
        pendiente(s + t) == pendiente(pendiente(s) + t),
    decreases s.len(),
{
    if s.contains('\n') {
        lemma_hay_posicion(s, '\n');
        let i = posicion(s, '\n')->0;
        let cola = s.skip(i + 1);
        assert(es_posicion(s + t, '\n', i));
        lemma_posicion(s + t, '\n', i);
        assert((s + t).take(i) =~= s.take(i));
        assert((s + t).skip(i + 1) =~= cola + t);
        lemma_partir(cola, t);
        assert(lineas_cerradas(s + t) =~= lineas_cerradas(s) + lineas_cerradas(pendiente(s) + t));
    } else {
        assert(lineas_cerradas(s) + lineas_cerradas(s + t) =~= lineas_cerradas(s + t));
    }
}

proof fn lemma_alertas_suma(a: Seq<Seq<char>>, b: Seq<Seq<char>>)
    ensures
        alertas_de(a + b) == alertas_de(a) + alertas_de(b),
    decreases b.len(),
{
    if b.len() == 0 {
        assert(a + b =~= a);
        assert(alertas_de(a) + alertas_de(b) =~= alertas_de(a));
    } else {
        lemma_alertas_suma(a, b.drop_last());
        assert((a + b).drop_last() =~= a + b.drop_last());
        assert(alertas_de(a + b) =~= alertas_de(a) + alertas_de(b));
    }
}

proof fn lemma_decodificar_suma(a: Seq<u8>, b: Seq<u8>)
    requires
        valid_utf8(a),
        valid_utf8(b),
    ensures
        valid_utf8(a + b),
        decode_utf8(a + b) == decode_utf8(a) + decode_utf8(b),
    decreases a.len(),
{
    valid_utf8_concat(a, b);
    if a.len() == 0 {
        assert(a + b =~= b);
        assert(decode_utf8(a) + decode_utf8(b) =~= decode_utf8(b));
    } else {
        lemma_decodificar_suma(pop_first_scalar(a), b);
        assert(pop_first_scalar(a + b) =~= pop_first_scalar(a) + b);
        assert(decode_utf8(a + b) =~= decode_utf8(a) + decode_utf8(b));
    }
}

/// The cuts between the pieces do not matter: two pieces that are UTF-8 leave
/// the same text pending, and ask for the same actions in the same order, as
/// both in one piece.
pub proof fn ley_troceado(previo: Seq<char>, a: Seq<u8>, b: Seq<u8>)
    requires
        valid_utf8(a),
        valid_utf8(b),
    ensures
        valid_utf8(a + b),
        ({
            let tras_a = pendiente(previo + decode_utf8(a));
            let juntas = previo + decode_utf8(a + b);
            &&& pendiente(tras_a + decode_utf8(b)) == pendiente(juntas)
            &&& alertas_de(lineas_cerradas(previo + decode_utf8(a))) + alertas_de(
                lineas_cerradas(tras_a + decode_utf8(b)),
            ) == alertas_de(lineas_cerradas(juntas))
        }),
{
    lemma_decodificar_suma(a, b);
    let s = previo + decode_utf8(a);
    assert(previo + decode_utf8(a + b) =~= s + decode_utf8(b));
    lemma_partir(s, decode_utf8(b));
    lemma_alertas_suma(lineas_cerradas(s), lineas_cerradas(pendiente(s) + decode_utf8(b)));
}

// ---------------------------------------------------------------------------
// The loop
// ---------------------------------------------------------------------------

/// Where the sentinel stands.
#[derive(Clone, Copy, Debug, PartialEq, Eq, Structural)]
pub enum FaseCentinela {
    Abriendo,
    Leyendo,
}

/// What happens to the sentinel.
#[derive(Clone, Copy, Debug, PartialEq, Eq, Structural)]
pub enum EventoCentinela {
    /// The request for the stream has been answered.
    Abierta,
    /// The request for the stream has failed.
    Fallida,
    /// A piece of the stream has come.
    Trozo,
    /// The stream has ended or broken.
    Terminada,
}

/// What the sentinel does next.
#[derive(Clone, Copy, Debug, PartialEq, Eq, Structural)]
pub enum AccionCentinela {
    /// Wait, then request the stream.
    Abrir { pausa_s: u64 },
    /// Wait for the next piece.
    Leer,
}

/// The event can happen at this point.
pub open spec fn cabe(f: FaseCentinela, e: EventoCentinela) -> bool {
    match f {
        FaseCentinela::Abriendo => e is Abierta || e is Fallida,
        FaseCentinela::Leyendo => e is Trozo || e is Terminada,
    }
}

/// The sentinel after an event: it reads while there is a stream, and else opens
/// one.
pub open spec fn fase_tras(f: FaseCentinela, e: EventoCentinela) -> FaseCentinela {
    match e {
        EventoCentinela::Abierta => FaseCentinela::Leyendo,
        EventoCentinela::Fallida => FaseCentinela::Abriendo,
        EventoCentinela::Trozo => FaseCentinela::Leyendo,
        EventoCentinela::Terminada => FaseCentinela::Abriendo,
    }
}

/// What the sentinel does on an event.
pub open spec fn accion_tras(e: EventoCentinela) -> AccionCentinela {
    match e {
        EventoCentinela::Abierta => AccionCentinela::Leer,
        EventoCentinela::Fallida => AccionCentinela::Abrir { pausa_s: PAUSA_CENTINELA_S },
        EventoCentinela::Trozo => AccionCentinela::Leer,
        EventoCentinela::Terminada => AccionCentinela::Abrir { pausa_s: PAUSA_CENTINELA_S },
    }
}

/// Takes an event of the sentinel and says what comes next.
pub fn paso_centinela(fase: &mut FaseCentinela, evento: EventoCentinela) -> (r: AccionCentinela)
    requires
        cabe(*old(fase), evento),
    ensures
        *final(fase) == fase_tras(*old(fase), evento),
        r == accion_tras(evento),
{
    match evento {
        EventoCentinela::Abierta | EventoCentinela::Trozo => {
            *fase = FaseCentinela::Leyendo;
            AccionCentinela::Leer
        },
        EventoCentinela::Fallida | EventoCentinela::Terminada => {
            *fase = FaseCentinela::Abriendo;
            AccionCentinela::Abrir { pausa_s: PAUSA_CENTINELA_S }
        },
    }
}

/// The sentinel through all its connections.
pub struct Vigilante {
    fase: FaseCentinela,
    conexion: Centinela,
}

/// `Vigilante` over character sequences.
#[verifier::ext_equal]
pub struct Vigilancia {
    pub fase: FaseCentinela,
    pub pendiente: Seq<char>,
}

impl View for Vigilante {
    type V = Vigilancia;

    closed spec fn view(&self) -> Vigilancia {
        Vigilancia { fase: self.fase, pendiente: self.conexion@ }
    }
}

/// The sentinel after an event that brings no piece: a new connection starts
/// with nothing pending.
pub open spec fn tras_suceso(v: Vigilancia, e: EventoCentinela) -> Vigilancia {
    Vigilancia {
        fase: fase_tras(v.fase, e),
        pendiente: if e is Abierta {
            seq![]
        } else {
            v.pendiente
        },
    }
}

/// The sentinel after a piece of the stream.
pub open spec fn tras_trozo(v: Vigilancia, trozo: Seq<u8>) -> Vigilancia {
    Vigilancia {
        fase: fase_tras(v.fase, EventoCentinela::Trozo),
        pendiente: if valid_utf8(trozo) {
            pendiente(v.pendiente + decode_utf8(trozo))
        } else {
            v.pendiente
        },
    }
}

/// The actions that a piece of the stream asks for.
pub open spec fn alertas_del_trozo(v: Vigilancia, trozo: Seq<u8>) -> Seq<Alerta> {
    if valid_utf8(trozo) {
        alertas_de(lineas_cerradas(v.pendiente + decode_utf8(trozo)))
    } else {
        seq![]
    }
}

impl Vigilante {
    /// The stream is requested without delay at first.
    pub fn new() -> (r: (Self, AccionCentinela))
        ensures
            r.0@ == (Vigilancia { fase: FaseCentinela::Abriendo, pendiente: seq![] }),
            r.1 == (AccionCentinela::Abrir { pausa_s: 0 }),
    {
        let v = Vigilante { fase: FaseCentinela::Abriendo, conexion: Centinela::new() };
        assert(v@ =~= (Vigilancia { fase: FaseCentinela::Abriendo, pendiente: seq![] }));
        (v, AccionCentinela::Abrir { pausa_s: 0 })
    }

    /// Takes an event that brings no piece of the stream.
    pub fn suceso(&mut self, evento: EventoCentinela) -> (r: AccionCentinela)
        requires
            cabe(old(self)@.fase, evento),
            !(evento is Trozo),
        ensures
            final(self)@ == tras_suceso(old(self)@, evento),
            r == accion_tras(evento),
    {
        if let EventoCentinela::Abierta = evento {
            self.conexion = Centinela::new();
        }
        let accion = paso_centinela(&mut self.fase, evento);
        assert(self@ =~= tras_suceso(old(self)@, evento));
        accion
    }

    /// Takes the next piece of the stream.
    pub fn recibir(&mut self, trozo: &[u8]) -> (r: (Vec<AccionAlerta>, AccionCentinela))
        requires
            old(self)@.fase is Leyendo,
        ensures
            final(self)@ == tras_trozo(old(self)@, trozo@),
            vistas_alertas(r.0@) == alertas_del_trozo(old(self)@, trozo@),
            r.1 == accion_tras(EventoCentinela::Trozo),
    {
        let alertas = self.conexion.recibir(trozo);
        let accion = paso_centinela(&mut self.fase, EventoCentinela::Trozo);
        assert(vistas_alertas(alertas@) =~= alertas_del_trozo(old(self)@, trozo@));
        (alertas, accion)
    }
}

/// No event ends the sentinel: each leaves it reading or opening the stream, and
/// doing what that calls for. After a failed request and after the end of a
/// stream it always opens the stream again, once the pause is over.
pub proof fn ley_centinela_sin_fin(f: FaseCentinela, e: EventoCentinela)
    requires
        cabe(f, e),
    ensures
        accion_tras(e) is Leer <==> fase_tras(f, e) is Leyendo,
        accion_tras(e) is Abrir <==> fase_tras(f, e) is Abriendo,
        fase_tras(f, e) is Leyendo || fase_tras(f, e) is Abriendo,
        e is Fallida || e is Terminada ==> accion_tras(e) == (AccionCentinela::Abrir {
            pausa_s: PAUSA_CENTINELA_S,
        }),
{
}

/// Connections do not mix: what the first piece of a new one asks for, and what
/// it leaves pending, is the same whatever the one before left unfinished.
pub proof fn ley_conexiones_separadas(a: Vigilancia, b: Vigilancia, trozo: Seq<u8>)
    ensures
        ({
            let (na, nb) = (tras_suceso(a, EventoCentinela::Abierta), tras_suceso(b, EventoCentinela::Abierta));
            &&& na == nb
            &&& alertas_del_trozo(na, trozo) == alertas_del_trozo(nb, trozo)
            &&& tras_trozo(na, trozo) == tras_trozo(nb, trozo)
            &&& valid_utf8(trozo) ==> alertas_del_trozo(na, trozo) == alertas_de(
                lineas_cerradas(decode_utf8(trozo)),
            )
        }),
{
    assert(seq![] + decode_utf8(trozo) =~= decode_utf8(trozo));
}

impl AppState {
    /// The download directory has been emptied.
    pub fn purga_completada(&mut self)
        ensures
            final(self)@ == con_log(
                old(self)@,
                "[ALMACENAMIENTO] 🧹 Purga de directorio temporal completada."@,
            ),
    {
        self.registrar("[ALMACENAMIENTO] 🧹 Purga de directorio temporal completada.");
    }
}

// ---------------------------------------------------------------------------
// Addresses
// ---------------------------------------------------------------------------

/// Address of the alert stream of a session.
pub fn url_alertas(backend_host: &str, session_uuid: &str) -> (r: String)
    ensures
        r@ == "http://"@ + backend_host@ + "/api/watcher/stream-alerts/"@ + session_uuid@,
{
    let mut u = "http://".to_owned();
    u.append(backend_host);
    u.append("/api/watcher/stream-alerts/");
    u.append(session_uuid);
    u
}

/// Address of a file announced to a session.
pub fn url_descarga(backend_host: &str, session_uuid: &str, archivo: &str) -> (r: String)
    ensures
        r@ == "http://"@ + backend_host@ + "/api/watcher/stream-download/"@ + session_uuid@ + "/"@ + archivo@,
{
    let mut u = "http://".to_owned();
    u.append(backend_host);
    u.append("/api/watcher/stream-download/");
    u.append(session_uuid);
    u.append("/");
    u.append(archivo);
    u
}

// ---------------------------------------------------------------------------
// What the alerts are for
// ---------------------------------------------------------------------------

proof fn lemma_quitar_prefijo(nombre: Seq<char>)
    requires
        !contiene(nombre, "INCOMING_STREAM:"@),
    ensures
        sin_apariciones("INCOMING_STREAM:"@ + nombre, "INCOMING_STREAM:"@) == nombre,
{
    let pat = "INCOMING_STREAM:"@;
    reveal_strlit("INCOMING_STREAM:");
    assert(pat.len() == 16);
    let nada = Seq::<char>::empty();
    assert(nada + pat + nombre =~= pat + nombre);
    ley_quitar(nada, pat, nombre);
    assert(nada + sin_apariciones(nombre, pat) =~= nombre);
}

/// An alert announces a file by its name: under either of the two events, the
/// name behind the announcement is the file that is fetched, whole. The purge is
/// ordered by its command alone. Any other event, any other payload, and an alert
/// without a payload ask for nothing.
pub proof fn ley_alertas(nombre: Seq<char>, event: Option<Seq<char>>, payload: Seq<char>)
    ensures
        (event == Some("alert"@) || event == Some("clean"@)) && !contiene(nombre, "INCOMING_STREAM:"@) ==> alerta(
            event,
            Some("INCOMING_STREAM:"@ + nombre),
        ) == Some(Alerta::Descargar(nombre)),
        event == Some("alert"@) || event == Some("clean"@) ==> alerta(event, Some("COMMAND:CLEAN_STORAGE"@)) == Some(
            Alerta::Purgar,
        ),
        event != Some("alert"@) && event != Some("clean"@) ==> alerta(event, Some(payload)) is None,
        alerta(event, None) is None,
        payload != "COMMAND:CLEAN_STORAGE"@ && (payload.len() < 16 || payload.take(16) != "INCOMING_STREAM:"@)
            ==> alerta(event, Some(payload)) is None,
        (event == Some("alert"@) || event == Some("clean"@)) && payload.len() >= 16 && payload.take(16)
            == "INCOMING_STREAM:"@ ==> (alerta(event, Some(payload)) matches Some(Alerta::Descargar(f)) && f
            == sin_apariciones(payload, "INCOMING_STREAM:"@)),
{
    let pat = "INCOMING_STREAM:"@;
    reveal_strlit("INCOMING_STREAM:");
    reveal_strlit("COMMAND:CLEAN_STORAGE");
    assert(pat.len() == 16 && pat[0] == 'I');
    let orden = "COMMAND:CLEAN_STORAGE"@;
    assert(orden.len() == 21 && orden[0] == 'C');
    assert(orden.subrange(0, 16)[0] == 'C');
    assert(!empieza(orden, pat));
    ley_contiene_lo_puesto(pat, pat, nombre);
    if !contiene(nombre, pat) {
        lemma_quitar_prefijo(nombre);
    }
    if payload.len() >= 16 {
        assert(payload.take(16) =~= payload.subrange(0, 16));
    }
}

/// A line of the stream is an alert exactly where it is a JSON object whose
/// members `event` and `payload` make one.
pub proof fn ley_linea_de_alerta(linea: Seq<char>, m: Map<Seq<char>, Json>, event: Seq<char>, payload: Seq<char>)
    ensures
        documento(linea) == Some(Json::Objeto(m)) && m.dom().contains("event"@) && m["event"@] == Json::Texto(event)
            && m.dom().contains("payload"@) && m["payload"@] == Json::Texto(payload) ==> alerta_de_linea(linea)
            == alerta(Some(event), Some(payload)),
        documento(linea) is None ==> alerta_de_linea(linea) is None,
        documento(linea) == Some(Json::Objeto(m)) && !(m.dom().contains("event"@) && m["event"@] is Texto)
            ==> alerta_de_linea(linea) is None,
        documento(linea) == Some(Json::Objeto(m)) && !(m.dom().contains("payload"@) && m["payload"@] is Texto)
            ==> alerta_de_linea(linea) is None,
        documento(linea) matches Some(j) ==> (!(j is Objeto) ==> alerta_de_linea(linea) is None),
{
}

/// The stream is cut at its line feeds: what one closes is a line, whole, and what
/// none has closed yet is kept. The actions are those of the lines, one line after
/// the other.
pub proof fn ley_corte_en_lineas(l: Seq<char>, resto: Seq<char>, ls: Seq<Seq<char>>)
    requires
        !l.contains('\n'),
    ensures
        lineas_cerradas(l) == Seq::<Seq<char>>::empty(),
        pendiente(l) == l,
        lineas_cerradas(l.push('\n') + resto) == seq![l] + lineas_cerradas(resto),
        pendiente(l.push('\n') + resto) == pendiente(resto),
        alertas_de(Seq::<Seq<char>>::empty()) == Seq::<Alerta>::empty(),
        alertas_de(ls.push(l)) == alertas_de(ls) + (match alerta_de_linea(l) {
            Some(a) => seq![a],
            None => seq![],
        }),
{
    let s = l.push('\n') + resto;
    ley_primer_caracter(l, '\n', resto);
    assert(s[l.len() as int] == '\n');
    assert(s.contains('\n'));
    assert(s.take(l.len() as int) =~= l);
    assert(s.skip(l.len() as int + 1) =~= resto);
    assert(ls.push(l).drop_last() =~= ls);
    assert(alertas_de(ls) + seq![] =~= alertas_de(ls));
    if alerta_de_linea(l) is Some {
        assert(alertas_de(ls).push(alerta_de_linea(l)->0) =~= alertas_de(ls) + seq![alerta_de_linea(l)->0]);
    }
}

/// The sentinel, event by event: an answered request is read from, with nothing
/// pending; a failed request and the end of a stream wait five seconds and then
/// request it again; a piece is taken up and the next one awaited.
pub proof fn ley_pasos_del_centinela(v: Vigilancia, e: EventoCentinela, trozo: Seq<u8>)
    ensures
        cabe(FaseCentinela::Abriendo, e) <==> e is Abierta || e is Fallida,
        cabe(FaseCentinela::Leyendo, e) <==> e is Trozo || e is Terminada,
        e is Abierta ==> {
            &&& accion_tras(e) is Leer
            &&& tras_suceso(v, e).fase is Leyendo
            &&& tras_suceso(v, e).pendiente.len() == 0
        },
        e is Fallida || e is Terminada ==> {
            &&& accion_tras(e) == (AccionCentinela::Abrir { pausa_s: 5 })
            &&& tras_suceso(v, e).fase is Abriendo
        },
        tras_trozo(v, trozo).fase is Leyendo,
        accion_tras(EventoCentinela::Trozo) is Leer,
        valid_utf8(trozo) ==> {
            &&& tras_trozo(v, trozo).pendiente == pendiente(v.pendiente + decode_utf8(trozo))
            &&& alertas_del_trozo(v, trozo) == alertas_de(lineas_cerradas(v.pendiente + decode_utf8(trozo)))
        },
        !valid_utf8(trozo) ==> {
            &&& tras_trozo(v, trozo).pendiente == v.pendiente
            &&& alertas_del_trozo(v, trozo).len() == 0
        },
{
}

/// The actions of the contracts are read one by one, each with all it holds.
pub proof fn ley_vistas_de_alertas(v: Seq<AccionAlerta>, archivo: String, a: AccionAlerta)
    ensures
        vistas_alertas(v).len() == v.len(),
        forall|i: int| 0 <= i < v.len() ==> #[trigger] vistas_alertas(v)[i] == v[i]@,
        (AccionAlerta::Descargar { archivo })@ == Alerta::Descargar(archivo@),
        AccionAlerta::Purgar@ is Purgar,
        vista_alerta(Some(a)) == Some(a@),
        vista_alerta(None) is None,
{
}

} // verus!
