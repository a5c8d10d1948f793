//! The control tunnel: the socket that stays open while the agent is idle, and
//! the signals that come through it.

use vstd::prelude::*;
use vstd::string::*;
use vstd::utf8::*;

use crate::codificacion::{texto_con_perdida, utf8_con_perdida};
use crate::estado::{
    coherente, con_log, tras_apagado_remoto, tras_autorizacion, tras_conectar_tunel, tras_login_aceptado, AppState,
    Estado, ModoApp,
};
use crate::json::vista_opcional;
use crate::texto::iguales;

verus! {

/// Milliseconds between two looks at the login form.
pub const PAUSA_LOGIN_MS: u64 = 500;

/// Milliseconds before the socket is tried again after it could not be opened.
pub const PAUSA_REINTENTO_MS: u64 = 5000;

/// Milliseconds before the socket is opened again after it went down.
pub const PAUSA_CAIDA_MS: u64 = 3000;

/// Seconds between two heartbeats.
pub const LATIDO_S: u64 = 15;

// ---------------------------------------------------------------------------
// Login data
// ---------------------------------------------------------------------------

/// What the tunnel is opened with.
#[derive(Clone, Debug, PartialEq, Eq)]
pub struct Credenciales {
    pub backend_host: String,
    pub session_uuid: String,
    pub token: String,
}

/// The data of the tunnel are there: the operator has logged in.
pub open spec fn hay_credenciales(e: Estado) -> bool {
    e.modo == ModoApp::PanelControl && e.token is Some
}

/// What the tunnel is opened with, once the operator has logged in.
pub fn leer_credenciales(estado: &AppState) -> (r: Option<Credenciales>)
    ensures
        r is Some <==> hay_credenciales(estado@),
        r matches Some(c) ==> {
            &&& c.backend_host@ == estado@.host
            &&& c.session_uuid@ == estado@.serial
            &&& estado@.token == Some(c.token@)
        },
{
    match estado.modo {
        ModoApp::Login => None,
        ModoApp::PanelControl => match &estado.token_jwt {
            Some(t) => Some(
                Credenciales {
                    backend_host: estado.host_input.clone(),
                    session_uuid: estado.serial_input.clone(),
                    token: t.clone(),
                },
            ),
            None => None,
        },
    }
}

/// Address of the control tunnel.
pub open spec fn url_control(c: Credenciales) -> Seq<char> {
    "ws://"@ + c.backend_host@ + "/api/remote/agent/connect/"@ + c.session_uuid@ + "?token="@ + c.token@
}

/// Announces that the tunnel is being opened and gives its address.
pub fn abrir_tunel(estado: &mut AppState, c: &Credenciales) -> (r: String)
    ensures
        final(estado)@ == con_log(
            old(estado)@,
            "[TÚNEL] Abriendo canal permanente de control (Idle Mode)..."@,
        ),
        r@ == url_control(*c),
        r@ == "ws://"@ + c.backend_host@ + "/api/remote/agent/connect/"@ + c.session_uuid@ + "?token="@ + c.token@,
{
    estado.registrar("[TÚNEL] Abriendo canal permanente de control (Idle Mode)...");
    let mut u = "ws://".to_owned();
    u.append(c.backend_host.as_str());
    u.append("/api/remote/agent/connect/");
    u.append(c.session_uuid.as_str());
    u.append("?token=");
    u.append(c.token.as_str());
    u
}

// ---------------------------------------------------------------------------
// The loop
// ---------------------------------------------------------------------------

/// Where the tunnel stands.
#[derive(Clone, Copy, Debug, PartialEq, Eq, Structural)]
pub enum FaseTunel {
    EsperandoLogin,
    Abriendo,
    EnLinea,
}

/// What happens to the tunnel.
#[derive(Clone, Debug, PartialEq, Eq)]
pub enum EventoTunel {
    /// The login form has been looked at.
    Sondeo { con_login: bool },
    /// The socket is open.
    Abierto,
    /// The socket could not be opened.
    Fallido { error: String },
    /// A message has come.
    Mensaje,
    /// The socket is down.
    Caido,
}

/// What the tunnel does next.
#[derive(Clone, Debug, PartialEq, Eq)]
pub enum AccionBucle {
    /// Wait, then look at the login form.
    Sondear { pausa_ms: u64 },
    /// Wait, then open the socket.
    Abrir { pausa_ms: u64 },
    /// Wait for the next message.
    Leer,
}

/// The event can happen at this point of the tunnel.
pub open spec fn cabe(f: FaseTunel, e: EventoTunel) -> bool {
    match f {
        FaseTunel::EsperandoLogin => e is Sondeo,
        FaseTunel::Abriendo => e is Abierto || e is Fallido,
        FaseTunel::EnLinea => e is Mensaje || e is Caido,
    }
}

/// The tunnel after an event: it opens once there is a login, and from then on
/// is opened again whenever it is not open.
pub open spec fn fase_tras(f: FaseTunel, e: EventoTunel) -> FaseTunel {
    match e {
        EventoTunel::Sondeo { con_login } => if con_login {
            FaseTunel::Abriendo
        } else {
            FaseTunel::EsperandoLogin
        },
        EventoTunel::Abierto => FaseTunel::EnLinea,
        EventoTunel::Fallido { .. } => FaseTunel::Abriendo,
        EventoTunel::Mensaje => FaseTunel::EnLinea,
        EventoTunel::Caido => FaseTunel::Abriendo,
    }
}

/// What the tunnel does on an event.
pub open spec fn accion_tras(e: EventoTunel) -> AccionBucle {
    match e {
        EventoTunel::Sondeo { con_login } => if con_login {
            AccionBucle::Abrir { pausa_ms: 0 }
        } else {
            AccionBucle::Sondear { pausa_ms: PAUSA_LOGIN_MS }
        },
        EventoTunel::Abierto => AccionBucle::Leer,
        EventoTunel::Fallido { .. } => AccionBucle::Abrir { pausa_ms: PAUSA_REINTENTO_MS },
        EventoTunel::Mensaje => AccionBucle::Leer,
        EventoTunel::Caido => AccionBucle::Abrir { pausa_ms: PAUSA_CAIDA_MS },
    }
}

/// The line that an event leaves in the log before anything else, if it leaves
/// one. `serial` names the device.
pub open spec fn linea_de(e: EventoTunel, serial: Seq<char>) -> Option<Seq<char>> {
    match e {
        EventoTunel::Sondeo { con_login } => if con_login {
            Some("[TÚNEL] Iniciando núcleo para el dispositivo: "@ + serial)
        } else {
            None
        },
        EventoTunel::Fallido { error } => Some(
            "[TÚNEL] Error al acoplar socket: "@ + error@ + ". Reintentando en 5s..."@,
        ),
        EventoTunel::Caido => Some(
            "[SISTEMA] Conexión de control caída. Re-estabilizando infraestructura en 3s..."@,
        ),
        EventoTunel::Abierto => None,
        EventoTunel::Mensaje => None,
    }
}

/// The shared state after an event of the tunnel.
pub open spec fn estado_tras(e: Estado, ev: EventoTunel) -> Estado {
    if ev is Abierto {
        tras_conectar_tunel(e)
    } else {
        match linea_de(ev, e.serial) {
            Some(l) => con_log(e, l),
            None => e,
        }
    }
}

/// Takes an event of the tunnel and says what comes next.
pub fn paso_tunel(fase: &mut FaseTunel, estado: &mut AppState, evento: EventoTunel) -> (r: AccionBucle)
    requires
        cabe(*old(fase), evento),
    ensures
        *final(fase) == fase_tras(*old(fase), evento),
        final(estado)@ == estado_tras(old(estado)@, evento),
        r == accion_tras(evento),
{
    match evento {
        EventoTunel::Sondeo { con_login } => {
            if con_login {
                let mut linea = "[TÚNEL] Iniciando núcleo para el dispositivo: ".to_owned();
                linea.append(estado.serial_input.as_str());
                estado.registrar(linea.as_str());
                *fase = FaseTunel::Abriendo;
                AccionBucle::Abrir { pausa_ms: 0 }
            } else {
                *fase = FaseTunel::EsperandoLogin;
                AccionBucle::Sondear { pausa_ms: PAUSA_LOGIN_MS }
            }
        },
        EventoTunel::Abierto => {
            estado.tunel_conectado();
            *fase = FaseTunel::EnLinea;
            AccionBucle::Leer
        },
        EventoTunel::Fallido { error } => {
            let mut linea = "[TÚNEL] Error al acoplar socket: ".to_owned();
            linea.append(error.as_str());
            linea.append(". Reintentando en 5s...");
            estado.registrar(linea.as_str());
            *fase = FaseTunel::Abriendo;
            AccionBucle::Abrir { pausa_ms: PAUSA_REINTENTO_MS }
        },
        EventoTunel::Mensaje => {
            *fase = FaseTunel::EnLinea;
            AccionBucle::Leer
        },
        EventoTunel::Caido => {
            estado.registrar("[SISTEMA] Conexión de control caída. Re-estabilizando infraestructura en 3s...");
            *fase = FaseTunel::Abriendo;
            AccionBucle::Abrir { pausa_ms: PAUSA_CAIDA_MS }
        },
    }
}

/// The tunnel before anything has happened: the login form is looked at without
/// delay.
pub fn inicio_tunel() -> (r: (FaseTunel, AccionBucle))
    ensures
        r.0 is EsperandoLogin,
        r.1 == (AccionBucle::Sondear { pausa_ms: 0 }),
{
    (FaseTunel::EsperandoLogin, AccionBucle::Sondear { pausa_ms: 0 })
}

/// What a look at the login form finds.
pub open spec fn sondeo_de(e: Estado) -> EventoTunel {
    EventoTunel::Sondeo { con_login: hay_credenciales(e) }
}

/// Looks at the login form. The tunnel opens, with what the form holds, exactly
/// once the operator has logged in; until then nothing changes.
pub fn sondear(fase: &mut FaseTunel, estado: &mut AppState) -> (r: (Option<Credenciales>, AccionBucle))
    requires
        *old(fase) is EsperandoLogin,
    ensures
        r.0 is Some <==> hay_credenciales(old(estado)@),
        r.0 matches Some(c) ==> {
            &&& c.backend_host@ == old(estado)@.host
            &&& c.session_uuid@ == old(estado)@.serial
            &&& old(estado)@.token == Some(c.token@)
        },
        r.1 is Abrir <==> hay_credenciales(old(estado)@),
        r.1 == accion_tras(sondeo_de(old(estado)@)),
        *final(fase) == fase_tras(*old(fase), sondeo_de(old(estado)@)),
        final(estado)@ == estado_tras(old(estado)@, sondeo_de(old(estado)@)),
        !hay_credenciales(old(estado)@) ==> final(estado)@ == old(estado)@,
{
    let credenciales = leer_credenciales(estado);
    let con_login = credenciales.is_some();
    let accion = paso_tunel(fase, estado, EventoTunel::Sondeo { con_login });
    (credenciales, accion)
}

/// What the tunnel does next is always what its phase calls for: it looks at the
/// login form while it waits for a login, opens the socket while it is being
/// opened, and reads while it is in line.
pub proof fn ley_accion_segun_fase(f: FaseTunel, e: EventoTunel)
    requires
        cabe(f, e),
    ensures
        accion_tras(e) is Sondear <==> fase_tras(f, e) is EsperandoLogin,
        accion_tras(e) is Abrir <==> fase_tras(f, e) is Abriendo,
        accion_tras(e) is Leer <==> fase_tras(f, e) is EnLinea,
{
}

/// The tunnel opens exactly when the operator has logged in: a look at the form
/// of a coherent state opens it where the control panel is open, and nowhere
/// else; right after an accepted login it does, with the token of that login.
pub proof fn ley_tunel_abre_con_login(e: Estado, email: Seq<char>, token: Seq<char>)
    ensures
        accion_tras(sondeo_de(e)) is Abrir <==> hay_credenciales(e),
        fase_tras(FaseTunel::EsperandoLogin, sondeo_de(e)) is Abriendo <==> hay_credenciales(e),
        coherente(e) ==> (accion_tras(sondeo_de(e)) is Abrir <==> e.modo == ModoApp::PanelControl),
        accion_tras(sondeo_de(tras_login_aceptado(e, email, Some(token)))) is Abrir,
        tras_login_aceptado(e, email, Some(token)).token == Some(token),
{
}

/// Once the operator has logged in, the tunnel never waits for a login again:
/// every event leaves it open or being opened.
pub proof fn ley_tunel_persistente(f: FaseTunel, e: EventoTunel)
    requires
        cabe(f, e),
        !(f is EsperandoLogin),
    ensures
        !(fase_tras(f, e) is EsperandoLogin),
        !(accion_tras(e) is Sondear),
{
}

// ---------------------------------------------------------------------------
// The heartbeat
// ---------------------------------------------------------------------------

/// What happens to the heartbeat of an open tunnel.
#[derive(Clone, Copy, Debug, PartialEq, Eq, Structural)]
pub enum EventoLatido {
    /// The interval is over.
    Turno,
    /// The heartbeat has left.
    Enviado,
    /// The heartbeat could not leave.
    EnvioFallido,
    /// The tunnel is down.
    Fin,
}

/// What the heartbeat does next.
#[derive(Clone, Debug, PartialEq, Eq)]
pub enum AccionLatido {
    /// Send this text.
    Enviar { texto: String },
    /// Wait for the interval.
    Esperar,
    /// Stop for good.
    Terminar,
}

/// What the heartbeat does on an event.
pub fn paso_latido(evento: EventoLatido) -> (r: AccionLatido)
    ensures
        match evento {
            EventoLatido::Turno => r matches AccionLatido::Enviar { texto } && texto@ == "ping"@,
            EventoLatido::Enviado => r is Esperar,
            EventoLatido::EnvioFallido => r is Terminar,
            EventoLatido::Fin => r is Terminar,
        },
{
    match evento {
        EventoLatido::Turno => AccionLatido::Enviar { texto: "ping".to_owned() },
        EventoLatido::Enviado => AccionLatido::Esperar,
        EventoLatido::EnvioFallido => AccionLatido::Terminar,
        EventoLatido::Fin => AccionLatido::Terminar,
    }
}

// ---------------------------------------------------------------------------
// Messages
// ---------------------------------------------------------------------------

/// A message of the tunnel.
#[derive(Clone, Debug, PartialEq, Eq)]
pub enum MensajeControl {
    Texto(String),
    Binario(Vec<u8>),
    Otro,
}

/// The text of a message: binary ones count as text too.
pub open spec fn texto_de_mensaje(m: MensajeControl) -> Option<Seq<char>> {
    match m {
        MensajeControl::Texto(t) => Some(t@),
        MensajeControl::Binario(b) => Some(utf8_con_perdida(b@)),
        MensajeControl::Otro => None,
    }
}

/// The text to be read as a signal: every text but the answer to a heartbeat.
pub open spec fn por_leer(t: Option<Seq<char>>) -> Option<Seq<char>> {
    if t == Some("pong"@) {
        None
    } else {
        t
    }
}

/// The text to be read as a signal, if the message holds one.
pub fn descartar_latido(texto: Option<String>) -> (r: Option<String>)
    ensures
        vista_opcional(r) == por_leer(vista_opcional(texto)),
{
    match texto {
        Some(t) => {
            if iguales(t.as_str(), "pong") {
                None
            } else {
                Some(t)
            }
        },
        None => None,
    }
}

/// The text to be read as a signal, if the message holds one.
pub fn leer_mensaje(m: MensajeControl) -> (r: Option<String>)
    ensures
        vista_opcional(r) == por_leer(texto_de_mensaje(m)),
        m matches MensajeControl::Binario(b) ==> (valid_utf8(b@) ==> vista_opcional(r) == por_leer(
            Some(decode_utf8(b@)),
        )),
{
    let texto = match m {
        MensajeControl::Texto(t) => Some(t),
        MensajeControl::Binario(b) => Some(texto_con_perdida(b.as_slice())),
        MensajeControl::Otro => None,
    };
    descartar_latido(texto)
}

// ---------------------------------------------------------------------------
// Signals
// ---------------------------------------------------------------------------

/// A signal of the server.
#[derive(Clone, Debug, PartialEq, Eq)]
pub struct ControlSignal {
    pub action: String,
    pub session_uuid: Option<String>,
    pub visor_email: Option<String>,
}

/// What a signal asks for beyond its change to the shared state.
pub enum AccionTunel {
    Nada,
    /// Start a session for a viewer.
    Despertar { session_uuid: String, visor_email: String },
    /// Signal the end of the running session, if it left a channel for that.
    Cerrar { tx: Option<tokio::sync::mpsc::Sender<()>> },
}

/// `AccionTunel` over character sequences.
pub enum Orden {
    Nada,
    Despertar { session_uuid: Seq<char>, visor_email: Seq<char> },
    Cerrar { tx: Option<tokio::sync::mpsc::Sender<()>> },
}

impl View for AccionTunel {
    type V = Orden;

    open spec fn view(&self) -> Orden {
        match *self {
            AccionTunel::Nada => Orden::Nada,
            AccionTunel::Despertar { session_uuid, visor_email } => Orden::Despertar {
                session_uuid: session_uuid@,
                visor_email: visor_email@,
            },
            AccionTunel::Cerrar { tx } => Orden::Cerrar { tx },
        }
    }
}

/// The shared state after a signal.
pub open spec fn tras_senal(e: Estado, signal: ControlSignal) -> Estado {
    let a = signal.action@;
    if a == "despertar"@ {
        con_log(e, "[TÚNEL] ¡Señal de despertar recibida! Desplegando canal WebRTC..."@)
    } else if a == "mfa_authorized"@ {
        tras_autorizacion(e)
    } else if a == "end_session"@ {
        tras_apagado_remoto(e)
    } else {
        e
    }
}

/// What a signal asks for. A wake-up call without a session or a viewer is for
/// the session of the device and for an unknown viewer.
pub open spec fn orden_de(e: Estado, signal: ControlSignal, session_uuid: Seq<char>) -> Orden {
    let a = signal.action@;
    if a == "despertar"@ {
        Orden::Despertar {
            session_uuid: match signal.session_uuid {
                Some(s) => s@,
                None => session_uuid,
            },
            visor_email: match signal.visor_email {
                Some(s) => s@,
                None => "desconocido@guardian.com"@,
            },
        }
    } else if a == "mfa_authorized"@ {
        Orden::Nada
    } else if a == "end_session"@ {
        Orden::Cerrar { tx: e.tx_cierre }
    } else {
        Orden::Nada
    }
}

/// Takes a signal of the server. `session_uuid` is the session of the device.
pub fn atender_senal(estado: &mut AppState, signal: ControlSignal, session_uuid: &str) -> (r: AccionTunel)
    ensures
        final(estado)@ == tras_senal(old(estado)@, signal),
        r@ == orden_de(old(estado)@, signal, session_uuid@),
{
    if iguales(signal.action.as_str(), "despertar") {
        estado.registrar("[TÚNEL] ¡Señal de despertar recibida! Desplegando canal WebRTC...");
        let sesion = match signal.session_uuid {
            Some(s) => s,
            None => session_uuid.to_owned(),
        };
        let email = match signal.visor_email {
            Some(s) => s,
            None => "desconocido@guardian.com".to_owned(),
        };
        AccionTunel::Despertar { session_uuid: sesion, visor_email: email }
    } else if iguales(signal.action.as_str(), "mfa_authorized") {
        estado.autorizar_remoto();
        AccionTunel::Nada
    } else if iguales(signal.action.as_str(), "end_session") {
        AccionTunel::Cerrar { tx: estado.apagado_remoto() }
    } else {
        AccionTunel::Nada
    }
}

/// Neither the tunnel nor its signals open or close the control panel, and the
/// panel stays open exactly while there is a token.
pub proof fn ley_tunel_respeta_el_panel(e: Estado, ev: EventoTunel, signal: ControlSignal)
    ensures
        estado_tras(e, ev).modo == e.modo,
        estado_tras(e, ev).token == e.token,
        tras_senal(e, signal).modo == e.modo,
        tras_senal(e, signal).token == e.token,
        coherente(e) ==> coherente(estado_tras(e, ev)) && coherente(tras_senal(e, signal)),
{
}

// ---------------------------------------------------------------------------
// What the tunnel is for
// ---------------------------------------------------------------------------

/// The tunnel is opened at the server of the form, for the device of the form and
/// with the token of the login, and there are such data exactly where the panel
/// is open and there is a token.
pub proof fn ley_direccion_del_tunel(c: Credenciales, e: Estado)
    ensures
        url_control(c) == "ws://"@ + c.backend_host@ + "/api/remote/agent/connect/"@ + c.session_uuid@ + "?token="@
            + c.token@,
        hay_credenciales(e) <==> e.modo == ModoApp::PanelControl && e.token is Some,
        sondeo_de(e) == (EventoTunel::Sondeo { con_login: hay_credenciales(e) }),
{
}

/// The pauses of the tunnel: half a second between two looks at the form, none
/// before the first opening, five seconds after a failed one, three after the
/// tunnel went down, and fifteen between two heartbeats.
pub proof fn ley_pausas_del_tunel(error: String)
    ensures
        accion_tras(EventoTunel::Sondeo { con_login: false }) == (AccionBucle::Sondear { pausa_ms: 500 }),
        accion_tras(EventoTunel::Sondeo { con_login: true }) == (AccionBucle::Abrir { pausa_ms: 0 }),
        accion_tras(EventoTunel::Fallido { error }) == (AccionBucle::Abrir { pausa_ms: 5000 }),
        accion_tras(EventoTunel::Caido) == (AccionBucle::Abrir { pausa_ms: 3000 }),
        accion_tras(EventoTunel::Abierto) is Leer,
        accion_tras(EventoTunel::Mensaje) is Leer,
        LATIDO_S == 15,
{
}

/// The phases of the tunnel, and the events that each of them can meet.
pub proof fn ley_fases_del_tunel(f: FaseTunel, ev: EventoTunel)
    ensures
        cabe(FaseTunel::EsperandoLogin, ev) <==> ev is Sondeo,
        cabe(FaseTunel::Abriendo, ev) <==> ev is Abierto || ev is Fallido,
        cabe(FaseTunel::EnLinea, ev) <==> ev is Mensaje || ev is Caido,
        fase_tras(f, EventoTunel::Sondeo { con_login: true }) is Abriendo,
        fase_tras(f, EventoTunel::Sondeo { con_login: false }) is EsperandoLogin,
        ev is Abierto || ev is Mensaje ==> fase_tras(f, ev) is EnLinea,
        ev is Fallido || ev is Caido ==> fase_tras(f, ev) is Abriendo,
{
}

/// What the tunnel leaves in the state: a line that names the device once there
/// is a login, the reason of a failure, and a word when it goes down; the opening
/// puts the connection at rest; messages and idle looks leave nothing.
pub proof fn ley_huellas_del_tunel(e: Estado, error: String)
    ensures
        estado_tras(e, EventoTunel::Sondeo { con_login: true }) == (Estado {
            logs: e.logs.push("[TÚNEL] Iniciando núcleo para el dispositivo: "@ + e.serial),
            ..e
        }),
        estado_tras(e, EventoTunel::Sondeo { con_login: false }) == e,
        estado_tras(e, EventoTunel::Fallido { error }) == (Estado {
            logs: e.logs.push("[TÚNEL] Error al acoplar socket: "@ + error@ + ". Reintentando en 5s..."@),
            ..e
        }),
        estado_tras(e, EventoTunel::Caido) == (Estado {
            logs: e.logs.push("[SISTEMA] Conexión de control caída. Re-estabilizando infraestructura en 3s..."@),
            ..e
        }),
        estado_tras(e, EventoTunel::Mensaje) == e,
        estado_tras(e, EventoTunel::Abierto).conexion is Inactiva,
        estado_tras(e, EventoTunel::Abierto).logs == e.logs.push(
            "[TÚNEL] Conectado con éxito. Guardian en línea y listo."@,
        ),
        estado_tras(e, EventoTunel::Abierto) == (Estado {
            logs: estado_tras(e, EventoTunel::Abierto).logs,
            conexion: estado_tras(e, EventoTunel::Abierto).conexion,
            ..e
        }),
{
}

/// Every text of the tunnel but the answer to a heartbeat is read, whole; bytes
/// count as the text they stand for; other messages hold no text.
pub proof fn ley_mensajes_integros(t: String, b: Vec<u8>, s: Seq<char>)
    ensures
        texto_de_mensaje(MensajeControl::Texto(t)) == Some(t@),
        texto_de_mensaje(MensajeControl::Binario(b)) == Some(utf8_con_perdida(b@)),
        texto_de_mensaje(MensajeControl::Otro) is None,
        s != "pong"@ ==> por_leer(Some(s)) == Some(s),
        s == "pong"@ ==> por_leer(Some(s)) is None,
        por_leer(None) is None,
{
}

/// Signals do what their action says. A wake-up starts a session for the session
/// and viewer that it names, or the device's own session and an unknown viewer.
/// An authorisation decides on a pending request. An end takes the channel of the
/// session. Nothing else is obeyed.
pub proof fn ley_senales_del_servidor(e: Estado, s: ControlSignal, propia: Seq<char>)
    ensures
        s.action@ == "despertar"@ ==> {
            &&& tras_senal(e, s) == (Estado {
                logs: e.logs.push("[TÚNEL] ¡Señal de despertar recibida! Desplegando canal WebRTC..."@),
                ..e
            })
            &&& orden_de(e, s, propia) matches Orden::Despertar { session_uuid, visor_email }
            &&& s.session_uuid matches Some(u) ==> session_uuid == u@
            &&& s.session_uuid is None ==> session_uuid == propia
            &&& s.visor_email matches Some(u) ==> visor_email == u@
            &&& s.visor_email is None ==> visor_email == "desconocido@guardian.com"@
        },
        s.action@ == "mfa_authorized"@ ==> {
            &&& tras_senal(e, s) == tras_autorizacion(e)
            &&& orden_de(e, s, propia) is Nada
        },
        s.action@ == "end_session"@ ==> {
            &&& tras_senal(e, s) == tras_apagado_remoto(e)
            &&& orden_de(e, s, propia) == (Orden::Cerrar { tx: e.tx_cierre })
        },
        s.action@ != "despertar"@ && s.action@ != "mfa_authorized"@ && s.action@ != "end_session"@ ==> {
            &&& tras_senal(e, s) == e
            &&& orden_de(e, s, propia) is Nada
        },
{
    reveal_strlit("despertar");
    reveal_strlit("mfa_authorized");
    reveal_strlit("end_session");
    assert("despertar"@.len() == 9 && "mfa_authorized"@.len() == 14 && "end_session"@.len() == 11);
}

/// What a signal asks for is read with all it holds.
pub proof fn ley_vista_de_ordenes(
    session_uuid: String,
    visor_email: String,
    tx: Option<tokio::sync::mpsc::Sender<()>>,
)
    ensures
        (AccionTunel::Despertar { session_uuid, visor_email })@ == (Orden::Despertar {
            session_uuid: session_uuid@,
            visor_email: visor_email@,
        }),
        (AccionTunel::Cerrar { tx })@ == (Orden::Cerrar { tx }),
        AccionTunel::Nada@ is Nada,
{
}

} // verus!
