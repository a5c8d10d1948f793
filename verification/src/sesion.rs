//! A control session: from the operator's permission over the handshake with
//! the viewer to its end.

use vstd::prelude::*;
use vstd::string::*;

use crate::estado::{
    coherente, con_log, seleccion_efectiva, tras_autorizacion, tras_cerrar_sesion, tras_permitir, tras_rechazar,
    tras_solicitud, AppState, Estado,
};
use crate::json::vista_opcional;
use crate::pantallas::{etiquetadas, ley_etiquetas_distintas, vistas_pantallas, Pantalla, PantallaReal};
use crate::texto::{iguales, vistas};

verus! {

/// Milliseconds between two looks at the operator's answer.
pub const PAUSA_PERMISO_MS: u64 = 200;

/// Milliseconds that the connection gets before the offer is made.
pub const PAUSA_OFERTA_MS: u64 = 1500;

// ---------------------------------------------------------------------------
// Permission
// ---------------------------------------------------------------------------

/// How a request stands.
#[derive(Clone, Debug, PartialEq, Eq)]
pub enum Permiso {
    /// The session was ended before an answer came.
    Cortado,
    /// No answer yet.
    EnEspera,
    /// The operator has refused.
    Denegado,
    /// The operator has agreed to show the screen with this caption.
    Concedido { etiqueta: Option<String> },
}

/// `Permiso` over character sequences.
pub enum Decision {
    Cortado,
    EnEspera,
    Denegado,
    Concedido(Option<Seq<char>>),
}

impl View for Permiso {
    type V = Decision;

    open spec fn view(&self) -> Decision {
        match *self {
            Permiso::Cortado => Decision::Cortado,
            Permiso::EnEspera => Decision::EnEspera,
            Permiso::Denegado => Decision::Denegado,
            Permiso::Concedido { etiqueta } => Decision::Concedido(vista_opcional(etiqueta)),
        }
    }
}

/// How a request stands, given whether the session has been ended meanwhile.
pub open spec fn decision(e: Estado, cortado: bool) -> Decision {
    if cortado {
        Decision::Cortado
    } else {
        match e.respuesta {
            None => Decision::EnEspera,
            Some(false) => Decision::Denegado,
            Some(true) => Decision::Concedido(e.seleccion),
        }
    }
}

/// The state after a look at the answer: a decision leaves a line in the log.
pub open spec fn tras_mirar(e: Estado, cortado: bool) -> Estado {
    match decision(e, cortado) {
        Decision::Denegado => con_log(e, "[SISTEMA] Conexión rechazada localmente."@),
        Decision::Concedido(_) => con_log(
            e,
            "[SISTEMA] Permiso concedido. Acoplando al canal de señalización WebRTC..."@,
        ),
        _ => e,
    }
}

impl AppState {
    /// Looks at the operator's answer. `cortado` says whether the session has
    /// been ended meanwhile.
    pub fn mirar_permiso(&mut self, cortado: bool) -> (r: Permiso)
        ensures
            r@ == decision(old(self)@, cortado),
            final(self)@ == tras_mirar(old(self)@, cortado),
    {
        if cortado {
            return Permiso::Cortado;
        }
        match self.respuesta_usuario {
            None => Permiso::EnEspera,
            Some(aprobado) => {
                if aprobado {
                    let etiqueta = match &self.pantalla_seleccionada_inicial {
                        Some(s) => Some(s.clone()),
                        None => None,
                    };
                    self.registrar("[SISTEMA] Permiso concedido. Acoplando al canal de señalización WebRTC...");
                    Permiso::Concedido { etiqueta }
                } else {
                    self.registrar("[SISTEMA] Conexión rechazada localmente.");
                    Permiso::Denegado
                }
            },
        }
    }
}

/// A request is answered as the operator decides: refused it is denied, granted
/// it is conceded for the screen in effect, and until then it waits, unless an
/// answer is left over from before.
pub proof fn ley_respuesta_del_operador(
    e: Estado,
    opciones: Seq<Seq<char>>,
    id: Seq<char>,
    email: Seq<char>,
    tx: tokio::sync::mpsc::Sender<()>,
)
    ensures
        ({
            let s = tras_solicitud(e, opciones, id, email, tx);
            &&& e.respuesta is None ==> decision(s, false) == Decision::EnEspera
            &&& decision(tras_rechazar(s), false) == Decision::Denegado
            &&& decision(tras_permitir(s), false) == Decision::Concedido(
                seleccion_efectiva(s),
            )
            &&& decision(tras_autorizacion(s), false) == Decision::Concedido(
                seleccion_efectiva(s),
            )
        }),
{
}

/// A session that has been cleaned up leaves no answer behind: the next request
/// waits for its own.
pub proof fn ley_sin_respuesta_heredada(
    e: Estado,
    opciones: Seq<Seq<char>>,
    id: Seq<char>,
    email: Seq<char>,
    tx: tokio::sync::mpsc::Sender<()>,
)
    ensures
        decision(
            tras_solicitud(tras_cerrar_sesion(e), opciones, id, email, tx),
            false,
        ) == Decision::EnEspera,
{
}

// ---------------------------------------------------------------------------
// The screen to show
// ---------------------------------------------------------------------------

/// The captions of the screens, as the operator chooses among them.
pub open spec fn etiquetas_de(ps: Seq<Pantalla>) -> Seq<Seq<char>> {
    ps.map_values(|p: Pantalla| p.etiqueta)
}

/// The captions of the screens.
pub fn opciones_de(pantallas: &Vec<PantallaReal>) -> (r: Vec<String>)
    ensures
        vistas(r@) == etiquetas_de(vistas_pantallas(pantallas@)),
{
    let mut salida: Vec<String> = Vec::new();
    let mut i: usize = 0;
    while i < pantallas.len()
        invariant
            i <= pantallas.len(),
            vistas(salida@) =~= etiquetas_de(vistas_pantallas(pantallas@)).take(i as int),
        decreases pantallas.len() - i,
    {
        let ghost previa = salida@;
        let c = pantallas[i].etiqueta.clone();
        salida.push(c);
        assert(vistas(salida@) =~= vistas(previa).push(c@));
        i += 1;
    }
    salida
}

/// What the operator chooses among where the screens cannot be listed: the first
/// one alone.
pub fn opciones_sin_listado() -> (r: Vec<String>)
    ensures
        vistas(r@) == seq!["0"@],
{
    let mut salida: Vec<String> = Vec::new();
    salida.push("0".to_owned());
    assert(vistas(salida@) =~= seq!["0"@]);
    salida
}

/// The index of the first screen with the caption, if one has it.
pub open spec fn indice_con(ps: Seq<Pantalla>, etiqueta: Seq<char>) -> Option<Seq<char>>
    decreases ps.len(),
{
    if ps.len() == 0 {
        None
    } else if ps.first().etiqueta == etiqueta {
        Some(ps.first().avf_index)
    } else {
        indice_con(ps.skip(1), etiqueta)
    }
}

/// The index to capture: that of the screen with the chosen caption, and
/// `id_pantalla` where nothing is chosen or no screen has the caption.
pub open spec fn indice_elegido(
    id_pantalla: Seq<char>,
    ps: Seq<Pantalla>,
    etiqueta: Option<Seq<char>>,
) -> Seq<char> {
    match etiqueta {
        Some(t) => match indice_con(ps, t) {
            Some(idx) => idx,
            None => id_pantalla,
        },
        None => id_pantalla,
    }
}

/// The index to capture on macOS.
pub fn elegir_indice_macos(id_pantalla: &str, pantallas: &Vec<PantallaReal>, etiqueta: Option<String>) -> (r: String)
    ensures
        r@ == indice_elegido(id_pantalla@, vistas_pantallas(pantallas@), vista_opcional(etiqueta)),
{
    let ghost ps = vistas_pantallas(pantallas@);
    let t = match etiqueta {
        Some(t) => t,
        None => return id_pantalla.to_owned(),
    };
    let mut i: usize = 0;
    assert(ps.skip(0) =~= ps);
    while i < pantallas.len()
        invariant
            i <= pantallas.len(),
            ps == vistas_pantallas(pantallas@),
            vista_opcional(etiqueta) == Some(t@),
            indice_con(ps, t@) == indice_con(ps.skip(i as int), t@),
        decreases pantallas.len() - i,
    {
        assert(ps.skip(i as int).first() == pantallas@[i as int]@);
        assert(ps.skip(i as int).skip(1) =~= ps.skip(i + 1));
        if iguales(pantallas[i].etiqueta.as_str(), t.as_str()) {
            return pantallas[i].avf_index.clone();
        }
        i += 1;
    }
    id_pantalla.to_owned()
}

/// The index to capture where the captions are the indices themselves.
pub fn elegir_indice(id_pantalla: &str, etiqueta: Option<String>) -> (r: String)
    ensures
        r@ == match vista_opcional(etiqueta) {
            Some(t) => t,
            None => id_pantalla@,
        },
{
    match etiqueta {
        Some(t) => t,
        None => id_pantalla.to_owned(),
    }
}

proof fn lemma_indice_con(ps: Seq<Pantalla>, etiqueta: Seq<char>, k: int)
    requires
        0 <= k < ps.len(),
        ps[k].etiqueta == etiqueta,
        forall|j: int| 0 <= j < k ==> (#[trigger] ps[j]).etiqueta != etiqueta,
    ensures
        indice_con(ps, etiqueta) == Some(ps[k].avf_index),
    decreases k,
{
    if k > 0 {
        assert(ps[0].etiqueta != etiqueta);
        let resto = ps.skip(1);
        assert forall|j: int| 0 <= j < k - 1 implies (#[trigger] resto[j]).etiqueta != etiqueta by {
            assert(ps[j + 1].etiqueta != etiqueta);
        }
        lemma_indice_con(resto, etiqueta, k - 1);
    }
}

/// The screen that the operator chooses by its caption is the one captured.
pub proof fn ley_se_captura_lo_elegido(indices: Seq<Seq<char>>, k: int, id_pantalla: Seq<char>)
    requires
        0 <= k < indices.len(),
    ensures
        ({
            let ps = etiquetadas(indices);
            indice_elegido(id_pantalla, ps, Some(etiquetas_de(ps)[k])) == indices[k]
        }),
{
    let ps = etiquetadas(indices);
    let t = etiquetas_de(ps)[k];
    assert forall|j: int| 0 <= j < k implies (#[trigger] ps[j]).etiqueta != t by {
        ley_etiquetas_distintas(indices, j, k);
    }
    lemma_indice_con(ps, t, k);
}

/// Whether a session starts on another screen than the first on macOS.
pub fn arranca_secundaria_macos(indice: &str, pantallas: &Vec<PantallaReal>) -> (r: bool)
    ensures
        r == (pantallas@.len() > 0 && indice@ != vistas_pantallas(pantallas@)[0].avf_index),
{
    if pantallas.len() > 0 {
        !iguales(indice, pantallas[0].avf_index.as_str())
    } else {
        false
    }
}

/// Whether a session starts on another screen than the first, where the indices
/// count from zero.
pub fn arranca_secundaria(indice: &str) -> (r: bool)
    ensures
        r == (indice@ != "0"@),
{
    !iguales(indice, "0")
}

// ---------------------------------------------------------------------------
// Signalling
// ---------------------------------------------------------------------------

/// A session description of one of the two sides.
#[derive(Clone, Debug, PartialEq, Eq)]
pub struct SdpPayload {
    pub sdp_type: String,
    pub sdp: String,
}

/// A message of the signalling channel.
pub struct SignalingMessage {
    pub sdp: Option<SdpPayload>,
    pub ice: Option<serde_json::Value>,
}

/// Address of the signalling channel of a session.
pub fn url_senalizacion(backend_host: &str, session_uuid: &str, token: &str) -> (r: String)
    ensures
        r@ == "ws://"@ + backend_host@ + "/api/remote/signaling/"@ + session_uuid@ + "/agente?token="@ + token@,
{
    let mut u = "ws://".to_owned();
    u.append(backend_host);
    u.append("/api/remote/signaling/");
    u.append(session_uuid);
    u.append("/agente?token=");
    u.append(token);
    u
}

/// The message that carries the agent's offer.
pub fn mensaje_oferta(sdp: String) -> (r: SignalingMessage)
    ensures
        r.sdp matches Some(p) && p.sdp_type@ == "offer"@ && p.sdp@ == sdp@,
        r.ice is None,
{
    SignalingMessage { sdp: Some(SdpPayload { sdp_type: "offer".to_owned(), sdp }), ice: None }
}

/// The message that carries a candidate of the agent.
pub fn mensaje_candidato(ice: serde_json::Value) -> (r: SignalingMessage)
    ensures
        r.sdp is None,
        r.ice == Some(ice),
{
    SignalingMessage { sdp: None, ice: Some(ice) }
}

/// What comes to a running session.
pub enum EventoSesion {
    /// The session is ended at this side.
    CorteLocal,
    /// The connection with the viewer is lost.
    FinDelVisor,
    /// A message of the signalling channel that could be read.
    Senal(SignalingMessage),
    /// Any other message.
    OtroMensaje,
    /// The signalling channel is closed or broken.
    CanalCerrado,
}

/// What a session does next.
pub enum AccionSesion {
    Seguir,
    /// Take the viewer's answer to the offer.
    AplicarRespuesta { sdp: String },
    /// Take a candidate of the viewer.
    AgregarCandidato { ice: serde_json::Value },
    /// Clean up and go back to waiting.
    Terminar,
}

/// `AccionSesion` over character sequences.
pub enum Reaccion {
    Seguir,
    AplicarRespuesta(Seq<char>),
    AgregarCandidato(serde_json::Value),
    Terminar,
}

impl View for AccionSesion {
    type V = Reaccion;

    open spec fn view(&self) -> Reaccion {
        match *self {
            AccionSesion::Seguir => Reaccion::Seguir,
            AccionSesion::AplicarRespuesta { sdp } => Reaccion::AplicarRespuesta(sdp@),
            AccionSesion::AgregarCandidato { ice } => Reaccion::AgregarCandidato(ice),
            AccionSesion::Terminar => Reaccion::Terminar,
        }
    }
}

/// What a message of the signalling channel asks for. A description counts only
/// as an answer; a candidate counts only where there is no description.
pub open spec fn reaccion_a(m: SignalingMessage) -> Reaccion {
    match m.sdp {
        Some(p) => if p.sdp_type@ == "answer"@ {
            Reaccion::AplicarRespuesta(p.sdp@)
        } else {
            Reaccion::Seguir
        },
        None => match m.ice {
            Some(ice) => Reaccion::AgregarCandidato(ice),
            None => Reaccion::Seguir,
        },
    }
}

/// What a session does on an event.
pub open spec fn reaccion(ev: EventoSesion) -> Reaccion {
    match ev {
        EventoSesion::CorteLocal => Reaccion::Terminar,
        EventoSesion::FinDelVisor => Reaccion::Terminar,
        EventoSesion::Senal(m) => reaccion_a(m),
        EventoSesion::OtroMensaje => Reaccion::Seguir,
        EventoSesion::CanalCerrado => Reaccion::Terminar,
    }
}

/// The shared state after an event: the end of a session gives its reason in
/// the log.
pub open spec fn tras_evento(e: Estado, ev: EventoSesion) -> Estado {
    match ev {
        EventoSesion::CorteLocal => con_log(e, "[SISTEMA] Apagado forzado desde el Agente."@),
        EventoSesion::FinDelVisor => con_log(e, "[SISTEMA] El Visor cortó la conexión abruptamente."@),
        EventoSesion::CanalCerrado => con_log(e, "[SISTEMA] Canal WebSocket del visor cerrado."@),
        _ => e,
    }
}

/// Takes an event of a running session and says what comes next.
pub fn paso_sesion(estado: &mut AppState, evento: EventoSesion) -> (r: AccionSesion)
    ensures
        final(estado)@ == tras_evento(old(estado)@, evento),
        r@ == reaccion(evento),
        evento matches EventoSesion::Senal(m) ==> (m.sdp matches Some(p) ==> (p.sdp_type@ == "answer"@ ==> (
        r matches AccionSesion::AplicarRespuesta { sdp } && sdp@ == p.sdp@))),
        evento matches EventoSesion::Senal(m) ==> (m.sdp is None ==> (m.ice matches Some(x) ==> (
        r matches AccionSesion::AgregarCandidato { ice } && ice == x))),
{
    match evento {
        EventoSesion::CorteLocal => {
            estado.registrar("[SISTEMA] Apagado forzado desde el Agente.");
            AccionSesion::Terminar
        },
        EventoSesion::FinDelVisor => {
            estado.registrar("[SISTEMA] El Visor cortó la conexión abruptamente.");
            AccionSesion::Terminar
        },
        EventoSesion::Senal(m) => match m.sdp {
            Some(p) => {
                if iguales(p.sdp_type.as_str(), "answer") {
                    AccionSesion::AplicarRespuesta { sdp: p.sdp }
                } else {
                    AccionSesion::Seguir
                }
            },
            None => match m.ice {
                Some(ice) => AccionSesion::AgregarCandidato { ice },
                None => AccionSesion::Seguir,
            },
        },
        EventoSesion::OtroMensaje => AccionSesion::Seguir,
        EventoSesion::CanalCerrado => {
            estado.registrar("[SISTEMA] Canal WebSocket del visor cerrado.");
            AccionSesion::Terminar
        },
    }
}

/// Nothing that a session reads opens or closes the control panel, answers a
/// request or changes the state of the connection.
pub proof fn ley_sesion_solo_registra(e: Estado, cortado: bool, ev: EventoSesion)
    ensures
        tras_mirar(e, cortado) == (Estado { logs: tras_mirar(e, cortado).logs, ..e }),
        tras_evento(e, ev) == (Estado { logs: tras_evento(e, ev).logs, ..e }),
        coherente(e) ==> coherente(tras_mirar(e, cortado)) && coherente(tras_evento(e, ev)),
{
}

/// A session ends exactly on a local cut, the loss of the viewer or the end of
/// the signalling channel; no message can end it.
pub proof fn ley_ningun_mensaje_termina(ev: EventoSesion)
    ensures
        reaccion(ev) is Terminar <==> (ev is CorteLocal || ev is FinDelVisor || ev is CanalCerrado),
{
}

impl AppState {
    /// The offer is on its way to the viewer.
    pub fn oferta_enviada(&mut self)
        ensures
            final(self)@ == con_log(old(self)@, "[AGENTE] Oferta SDP enviada al visor."@),
    {
        self.registrar("[AGENTE] Oferta SDP enviada al visor.");
    }
}

// ---------------------------------------------------------------------------
// The connection with the viewer
// ---------------------------------------------------------------------------

/// State of the peer connection.
#[derive(Clone, Copy, Debug, PartialEq, Eq, Structural)]
pub enum EstadoPar {
    SinEspecificar,
    Nuevo,
    Conectando,
    Conectado,
    Desconectado,
    Fallido,
    Cerrado,
}

/// Takes note of a state of the peer connection, under the name `nombre`, and
/// tells whether it ends the session.
pub fn cambio_de_par(estado: &mut AppState, nombre: &str, par: EstadoPar) -> (r: bool)
    ensures
        final(estado)@ == con_log(old(estado)@, "[WEBRTC] Estado: "@ + nombre@),
        r == (par is Fallido || par is Desconectado || par is Cerrado),
{
    let mut linea = "[WEBRTC] Estado: ".to_owned();
    linea.append(nombre);
    estado.registrar(linea.as_str());
    match par {
        EstadoPar::Fallido => true,
        EstadoPar::Desconectado => true,
        EstadoPar::Cerrado => true,
        _ => false,
    }
}

/// Takes note that the viewer has opened a data channel.
pub fn canal_de_datos(estado: &mut AppState, etiqueta: &str)
    ensures
        final(estado)@ == con_log(old(estado)@, "[AGENTE] Canal de Datos Abierto por Visor: "@ + etiqueta@),
{
    let mut linea = "[AGENTE] Canal de Datos Abierto por Visor: ".to_owned();
    linea.append(etiqueta);
    estado.registrar(linea.as_str());
}

// ---------------------------------------------------------------------------
// What a session is for
// ---------------------------------------------------------------------------

/// The viewer's answer reaches the peer connection unchanged, whatever else its
/// message holds; a candidate without a description does too; a description that
/// is no answer, and an empty message, are passed over.
pub proof fn ley_senales_integras(m: SignalingMessage, p: SdpPayload, ice: serde_json::Value)
    ensures
        m.sdp == Some(p) && p.sdp_type@ == "answer"@ ==> reaccion(EventoSesion::Senal(m))
            == Reaccion::AplicarRespuesta(p.sdp@),
        m.sdp == Some(p) && p.sdp_type@ != "answer"@ ==> reaccion(EventoSesion::Senal(m)) is Seguir,
        m.sdp is None && m.ice == Some(ice) ==> reaccion(EventoSesion::Senal(m)) == Reaccion::AgregarCandidato(ice),
        m.sdp is None && m.ice is None ==> reaccion(EventoSesion::Senal(m)) is Seguir,
        reaccion(EventoSesion::OtroMensaje) is Seguir,
{
}

/// A session that ends gives its reason in the log, and nothing else changes;
/// what does not end it changes nothing at all.
pub proof fn ley_motivo_del_fin(e: Estado, ev: EventoSesion)
    ensures
        tras_evento(e, EventoSesion::CorteLocal).logs == e.logs.push("[SISTEMA] Apagado forzado desde el Agente."@),
        tras_evento(e, EventoSesion::FinDelVisor).logs == e.logs.push(
            "[SISTEMA] El Visor cortó la conexión abruptamente."@,
        ),
        tras_evento(e, EventoSesion::CanalCerrado).logs == e.logs.push("[SISTEMA] Canal WebSocket del visor cerrado."@),
        ev is Senal || ev is OtroMensaje ==> tras_evento(e, ev) == e,
{
}

/// A look at the answer finds what the operator has decided, unless the session
/// was ended first: nothing while there is no answer, a refusal, or a grant of
/// the selected screen. A refusal and a grant leave their line in the log.
pub proof fn ley_mirada(e: Estado)
    ensures
        decision(e, true) is Cortado,
        tras_mirar(e, true) == e,
        e.respuesta is None ==> decision(e, false) is EnEspera && tras_mirar(e, false) == e,
        e.respuesta == Some(false) ==> {
            &&& decision(e, false) is Denegado
            &&& tras_mirar(e, false).logs == e.logs.push("[SISTEMA] Conexión rechazada localmente."@)
        },
        e.respuesta == Some(true) ==> {
            &&& decision(e, false) == Decision::Concedido(e.seleccion)
            &&& tras_mirar(e, false).logs == e.logs.push(
                "[SISTEMA] Permiso concedido. Acoplando al canal de señalización WebRTC..."@,
            )
        },
{
}

/// The captions on offer are those of the screens, one for one. A caption that
/// no screen has, or none at all, leaves the fallback.
pub proof fn ley_eleccion(ps: Seq<Pantalla>, t: Seq<char>, id_pantalla: Seq<char>, k: int)
    ensures
        etiquetas_de(ps).len() == ps.len(),
        0 <= k < ps.len() ==> etiquetas_de(ps)[k] == ps[k].etiqueta,
        indice_elegido(id_pantalla, ps, None) == id_pantalla,
        (forall|i: int| 0 <= i < ps.len() ==> (#[trigger] ps[i]).etiqueta != t) ==> indice_elegido(
            id_pantalla,
            ps,
            Some(t),
        ) == id_pantalla,
        0 <= k < ps.len() && ps[k].etiqueta == t && (forall|i: int| 0 <= i < k ==> (#[trigger] ps[i]).etiqueta != t)
            ==> indice_elegido(id_pantalla, ps, Some(t)) == ps[k].avf_index,
{
    if 0 <= k < ps.len() && ps[k].etiqueta == t && (forall|i: int| 0 <= i < k ==> (#[trigger] ps[i]).etiqueta != t) {
        lemma_indice_con(ps, t, k);
    }
    if forall|i: int| 0 <= i < ps.len() ==> (#[trigger] ps[i]).etiqueta != t {
        lemma_sin_etiqueta(ps, t);
    }
}

proof fn lemma_sin_etiqueta(ps: Seq<Pantalla>, t: Seq<char>)
    requires
        forall|i: int| 0 <= i < ps.len() ==> (#[trigger] ps[i]).etiqueta != t,
    ensures
        indice_con(ps, t) is None,
    decreases ps.len(),
{
    if ps.len() > 0 {
        let resto = ps.skip(1);
        assert(ps[0].etiqueta != t);
        assert forall|i: int| 0 <= i < resto.len() implies (#[trigger] resto[i]).etiqueta != t by {
            assert(ps[i + 1].etiqueta != t);
        }
        lemma_sin_etiqueta(resto, t);
    }
}

/// The answer is looked at five times a second, and the connection gets a second
/// and a half before the offer is made.
pub proof fn ley_pausas_de_la_sesion()
    ensures
        PAUSA_PERMISO_MS == 200,
        PAUSA_OFERTA_MS == 1500,
{
}

/// What a session is told and does is read with all it holds.
pub proof fn ley_vistas_de_la_sesion(sdp: String, ice: serde_json::Value, etiqueta: Option<String>)
    ensures
        (AccionSesion::AplicarRespuesta { sdp })@ == Reaccion::AplicarRespuesta(sdp@),
        (AccionSesion::AgregarCandidato { ice })@ == Reaccion::AgregarCandidato(ice),
        AccionSesion::Seguir@ is Seguir,
        AccionSesion::Terminar@ is Terminar,
        (Permiso::Concedido { etiqueta })@ == Decision::Concedido(vista_opcional(etiqueta)),
        Permiso::Cortado@ is Cortado,
        Permiso::EnEspera@ is EnEspera,
        Permiso::Denegado@ is Denegado,
{
}

} // verus!
