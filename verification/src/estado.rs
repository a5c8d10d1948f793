//! The state that the window and the agent share, and every change that either
//! of them makes to it.

use vstd::prelude::*;
use vstd::string::*;

use crate::json::{documento_en_bytes, leer_bytes, texto_de_miembro, texto_en, vista_opcional, Json};
use crate::texto::{iguales, vistas};

verus! {

/// The sending half of a `tokio` channel. It is only carried: whoever takes one
/// out of the state signals through it.
#[verifier::external_type_specification]
#[verifier::external_body]
#[verifier::reject_recursive_types(T)]
pub struct ExEmisor<T>(tokio::sync::mpsc::Sender<T>);

/// Which of the two screens the window shows.
#[derive(Clone, Copy, Debug, PartialEq, Eq, Structural)]
pub enum ModoApp {
    Login,
    PanelControl,
}

/// Where the control session with a viewer stands.
#[derive(Clone, Debug, PartialEq, Eq)]
pub enum TipoConexion {
    Inactiva,
    SolicitudPendiente { visor_id: String, visor_email: String },
    Activa,
}

/// `TipoConexion` over character sequences.
pub enum Conexion {
    Inactiva,
    SolicitudPendiente { visor_id: Seq<char>, visor_email: Seq<char> },
    Activa,
}

impl View for TipoConexion {
    type V = Conexion;

    open spec fn view(&self) -> Conexion {
        match *self {
            TipoConexion::Inactiva => Conexion::Inactiva,
            TipoConexion::SolicitudPendiente { visor_id, visor_email } => Conexion::SolicitudPendiente {
                visor_id: visor_id@,
                visor_email: visor_email@,
            },
            TipoConexion::Activa => Conexion::Activa,
        }
    }
}

/// What the window and the agent share.
pub struct AppState {
    pub modo: ModoApp,
    pub host_input: String,
    pub serial_input: String,
    pub email_input: String,
    pub pass_input: String,
    pub login_error: Option<String>,
    pub token_jwt: Option<String>,
    pub logs: Vec<String>,
    pub estado_conexion: TipoConexion,
    pub pantalla_seleccionada_inicial: Option<String>,
    pub respuesta_usuario: Option<bool>,
    pub pantallas_disponibles: Vec<String>,
    pub usando_monitor_secundario: bool,
    pub tx_cerrar_conexion: Option<tokio::sync::mpsc::Sender<()>>,
}

/// `AppState` over character sequences.
#[verifier::ext_equal]
pub struct Estado {
    pub modo: ModoApp,
    pub host: Seq<char>,
    pub serial: Seq<char>,
    pub email: Seq<char>,
    pub pass: Seq<char>,
    pub login_error: Option<Seq<char>>,
    pub token: Option<Seq<char>>,
    pub logs: Seq<Seq<char>>,
    pub conexion: Conexion,
    pub seleccion: Option<Seq<char>>,
    pub respuesta: Option<bool>,
    pub pantallas: Seq<Seq<char>>,
    pub secundario: bool,
    pub tx_cierre: Option<tokio::sync::mpsc::Sender<()>>,
}

impl View for AppState {
    type V = Estado;

    open spec fn view(&self) -> Estado {
        Estado {
            modo: self.modo,
            host: self.host_input@,
            serial: self.serial_input@,
            email: self.email_input@,
            pass: self.pass_input@,
            login_error: vista_opcional(self.login_error),
            token: vista_opcional(self.token_jwt),
            logs: vistas(self.logs@),
            conexion: self.estado_conexion@,
            seleccion: vista_opcional(self.pantalla_seleccionada_inicial),
            respuesta: self.respuesta_usuario,
            pantallas: vistas(self.pantallas_disponibles@),
            secundario: self.usando_monitor_secundario,
            tx_cierre: self.tx_cerrar_conexion,
        }
    }
}

/// The state at start-up: locked at the login screen, with one screen on offer.
pub open spec fn al_arrancar() -> Estado {
    Estado {
        modo: ModoApp::Login,
        host: "192.168.1.135:8080"@,
        serial: "test-session-123"@,
        email: ""@,
        pass: ""@,
        login_error: None,
        token: None,
        logs: seq!["[SISTEMA] Interfaz iniciada. Esperando autenticación del operador..."@],
        conexion: Conexion::Inactiva,
        seleccion: None,
        respuesta: None,
        pantallas: seq!["0"@],
        secundario: false,
        tx_cierre: None,
    }
}

/// One more line in the log.
pub open spec fn con_log(e: Estado, linea: Seq<char>) -> Estado {
    Estado { logs: e.logs.push(linea), ..e }
}

impl Default for AppState {
    fn default() -> (r: Self)
        ensures
            r@ == al_arrancar(),
    {
        let mut logs: Vec<String> = Vec::new();
        logs.push("[SISTEMA] Interfaz iniciada. Esperando autenticación del operador...".to_owned());
        let mut pantallas: Vec<String> = Vec::new();
        pantallas.push("0".to_owned());
        let r = AppState {
            modo: ModoApp::Login,
            host_input: "192.168.1.135:8080".to_owned(),
            serial_input: "test-session-123".to_owned(),
            email_input: "".to_owned(),
            pass_input: "".to_owned(),
            login_error: None,
            token_jwt: None,
            logs,
            estado_conexion: TipoConexion::Inactiva,
            pantalla_seleccionada_inicial: None,
            respuesta_usuario: None,
            pantallas_disponibles: pantallas,
            usando_monitor_secundario: false,
            tx_cerrar_conexion: None,
        };
        assert(r@ =~= al_arrancar());
        r
    }
}

impl AppState {
    /// Adds a line to the log.
    pub fn registrar(&mut self, linea: &str)
        ensures
            final(self)@ == con_log(old(self)@, linea@),
    {
        self.logs.push(linea.to_owned());
        assert(self@ =~= con_log(old(self)@, linea@));
    }
}

// ---------------------------------------------------------------------------
// Login
// ---------------------------------------------------------------------------

/// What a login request carries.
#[derive(Clone, Debug, PartialEq, Eq)]
pub struct SolicitudLogin {
    pub url: String,
    pub username: String,
    pub password: String,
}

/// The state once a login request is on its way: the last error is forgotten.
pub open spec fn tras_pedir_login(e: Estado) -> Estado {
    Estado { login_error: None, ..e }
}

/// The state after the server has accepted the credentials of `email` and
/// answered with `token`. An answer without a token changes nothing.
pub open spec fn tras_login_aceptado(e: Estado, email: Seq<char>, token: Option<Seq<char>>) -> Estado {
    match token {
        Some(t) => con_log(
            Estado { token: Some(t), modo: ModoApp::PanelControl, ..e },
            "[SISTEMA] Autenticado en el Tenant como "@ + email + "."@,
        ),
        None => e,
    }
}

/// The state after the server has refused the credentials with `status`.
pub open spec fn tras_login_rechazado(e: Estado, status: Seq<char>) -> Estado {
    Estado { login_error: Some("Error "@ + status + ": Credenciales incorrectas"@), ..e }
}

/// The state after the login request could not be sent.
pub open spec fn tras_login_sin_red(e: Estado, error: Seq<char>) -> Estado {
    Estado { login_error: Some("Fallo de red: "@ + error), ..e }
}

/// The token in the body of a login answer: the text member `token` of a JSON
/// document.
pub open spec fn token_en(cuerpo: Seq<u8>) -> Option<Seq<char>> {
    match documento_en_bytes(cuerpo) {
        Some(j) => texto_en(j, "token"@),
        None => None,
    }
}

/// The token in the body of a login answer.
pub fn leer_token(cuerpo: &[u8]) -> (r: Option<String>)
    ensures
        vista_opcional(r) == token_en(cuerpo@),
{
    match leer_bytes(cuerpo) {
        Ok(v) => texto_de_miembro(&v, "token"),
        Err(_) => None,
    }
}

impl AppState {
    /// The operator asks to log in with what the form holds.
    pub fn pedir_login(&mut self) -> (r: SolicitudLogin)
        ensures
            final(self)@ == tras_pedir_login(old(self)@),
            r.url@ == "http://"@ + old(self)@.host + "/api/auth/login"@,
            r.username@ == old(self)@.email,
            r.password@ == old(self)@.pass,
    {
        self.login_error = None;
        let mut url = "http://".to_owned();
        url.append(self.host_input.as_str());
        url.append("/api/auth/login");
        SolicitudLogin { url, username: self.email_input.clone(), password: self.pass_input.clone() }
    }

    /// The server has accepted the credentials of `email` and answered with
    /// `token`.
    pub fn login_aceptado(&mut self, email: &str, token: Option<String>)
        ensures
            final(self)@ == tras_login_aceptado(old(self)@, email@, vista_opcional(token)),
    {
        if let Some(t) = token {
            self.token_jwt = Some(t);
            self.modo = ModoApp::PanelControl;
            let mut linea = "[SISTEMA] Autenticado en el Tenant como ".to_owned();
            linea.append(email);
            linea.append(".");
            self.registrar(linea.as_str());
        }
    }

    /// The server has accepted the credentials of `email` and answered with
    /// `cuerpo`.
    pub fn login_respondido(&mut self, email: &str, cuerpo: &[u8])
        ensures
            final(self)@ == tras_login_aceptado(old(self)@, email@, token_en(cuerpo@)),
    {
        let token = leer_token(cuerpo);
        self.login_aceptado(email, token);
    }

    /// The server has refused the credentials with `status`.
    pub fn login_rechazado(&mut self, status: &str)
        ensures
            final(self)@ == tras_login_rechazado(old(self)@, status@),
    {
        let mut error = "Error ".to_owned();
        error.append(status);
        error.append(": Credenciales incorrectas");
        self.login_error = Some(error);
    }

    /// The login request could not be sent.
    pub fn login_sin_red(&mut self, error: &str)
        ensures
            final(self)@ == tras_login_sin_red(old(self)@, error@),
    {
        let mut texto = "Fallo de red: ".to_owned();
        texto.append(error);
        self.login_error = Some(texto);
    }
}

// ---------------------------------------------------------------------------
// Control requests
// ---------------------------------------------------------------------------

/// The state once a viewer asks for control: the request is shown, with the
/// first of the screens on offer selected. An earlier answer stays in place.
pub open spec fn tras_solicitud(
    e: Estado,
    opciones: Seq<Seq<char>>,
    visor_id: Seq<char>,
    visor_email: Seq<char>,
    tx: tokio::sync::mpsc::Sender<()>,
) -> Estado {
    Estado {
        logs: e.logs.push("[SISTEMA] Levantando pop-up de confirmación en la UI local..."@),
        pantallas: opciones,
        seleccion: if opciones.len() > 0 {
            Some(opciones[0])
        } else {
            e.seleccion
        },
        conexion: Conexion::SolicitudPendiente { visor_id, visor_email },
        tx_cierre: Some(tx),
        ..e
    }
}

/// The state once the operator has picked a screen.
pub open spec fn tras_seleccionar(e: Estado, etiqueta: Seq<char>) -> Estado {
    Estado { seleccion: Some(etiqueta), ..e }
}

/// The selected screen, or the first one on offer while none is selected.
pub open spec fn seleccion_efectiva(e: Estado) -> Option<Seq<char>> {
    if e.seleccion is Some {
        e.seleccion
    } else if e.pantallas.len() > 0 {
        Some(e.pantallas[0])
    } else {
        None
    }
}

/// The state once the request is granted. The secondary monitor is in use
/// exactly where there is one and it is the selected screen.
pub open spec fn tras_permitir(e: Estado) -> Estado {
    Estado {
        seleccion: seleccion_efectiva(e),
        secundario: e.pantallas.len() > 1 && seleccion_efectiva(e) == Some(e.pantallas[1]),
        respuesta: Some(true),
        conexion: Conexion::Activa,
        ..e
    }
}

/// The state once the operator has refused the request.
pub open spec fn tras_rechazar(e: Estado) -> Estado {
    Estado { respuesta: Some(false), conexion: Conexion::Inactiva, ..e }
}

/// The state after a remote authorisation: it grants a pending request and
/// otherwise leaves a line in the log only.
pub open spec fn tras_autorizacion(e: Estado) -> Estado {
    let l = con_log(e, "[MFA] Autorización remota recibida. Aceptando conexión automáticamente..."@);
    if e.conexion is SolicitudPendiente {
        tras_permitir(l)
    } else {
        l
    }
}

impl AppState {
    /// A viewer asks for control.
    pub fn abrir_solicitud(
        &mut self,
        opciones: Vec<String>,
        visor_id: &str,
        visor_email: &str,
        tx: tokio::sync::mpsc::Sender<()>,
    )
        ensures
            final(self)@ == tras_solicitud(old(self)@, vistas(opciones@), visor_id@, visor_email@, tx),
    {
        self.registrar("[SISTEMA] Levantando pop-up de confirmación en la UI local...");
        if opciones.len() > 0 {
            self.pantalla_seleccionada_inicial = Some(opciones[0].clone());
        }
        self.pantallas_disponibles = opciones;
        self.estado_conexion = TipoConexion::SolicitudPendiente {
            visor_id: visor_id.to_owned(),
            visor_email: visor_email.to_owned(),
        };
        self.tx_cerrar_conexion = Some(tx);
    }

    /// The operator picks a screen.
    pub fn seleccionar_pantalla(&mut self, etiqueta: &str)
        ensures
            final(self)@ == tras_seleccionar(old(self)@, etiqueta@),
    {
        self.pantalla_seleccionada_inicial = Some(etiqueta.to_owned());
    }

    /// The operator grants the request.
    pub fn permitir(&mut self)
        ensures
            final(self)@ == tras_permitir(old(self)@),
    {
        if self.pantalla_seleccionada_inicial.is_none() && self.pantallas_disponibles.len() > 0 {
            self.pantalla_seleccionada_inicial = Some(self.pantallas_disponibles[0].clone());
        }
        let mut secundario = false;
        if self.pantallas_disponibles.len() > 1 {
            if let Some(seleccion) = &self.pantalla_seleccionada_inicial {
                secundario = iguales(seleccion.as_str(), self.pantallas_disponibles[1].as_str());
            }
        }
        self.usando_monitor_secundario = secundario;
        self.respuesta_usuario = Some(true);
        self.estado_conexion = TipoConexion::Activa;
    }

    /// The operator refuses the request.
    pub fn rechazar(&mut self)
        ensures
            final(self)@ == tras_rechazar(old(self)@),
    {
        self.respuesta_usuario = Some(false);
        self.estado_conexion = TipoConexion::Inactiva;
    }

    /// The request is granted from the server.
    pub fn autorizar_remoto(&mut self)
        ensures
            final(self)@ == tras_autorizacion(old(self)@),
    {
        self.registrar("[MFA] Autorización remota recibida. Aceptando conexión automáticamente...");
        let pendiente = match &self.estado_conexion {
            TipoConexion::SolicitudPendiente { .. } => true,
            _ => false,
        };
        if pendiente {
            self.permitir();
        }
    }
}

// ---------------------------------------------------------------------------
// Running sessions
// ---------------------------------------------------------------------------

/// The state once the control tunnel is up.
pub open spec fn tras_conectar_tunel(e: Estado) -> Estado {
    Estado {
        logs: e.logs.push("[TÚNEL] Conectado con éxito. Guardian en línea y listo."@),
        conexion: Conexion::Inactiva,
        ..e
    }
}

/// The state once the viewer has answered the offer and the stream runs.
pub open spec fn tras_handshake(e: Estado) -> Estado {
    Estado {
        logs: e.logs.push("[AGENTE] Handshake WebRTC completado. Streaming activo."@),
        conexion: Conexion::Activa,
        ..e
    }
}

/// The state once the operator has ended the transmission.
pub open spec fn tras_finalizar(e: Estado) -> Estado {
    Estado {
        logs: e.logs.push("[SISTEMA] Sesión finalizada manualmente desde el panel de control."@),
        conexion: Conexion::Inactiva,
        tx_cierre: None,
        ..e
    }
}

/// The state once the server has ordered the session to end.
pub open spec fn tras_apagado_remoto(e: Estado) -> Estado {
    Estado {
        logs: e.logs.push("[SISTEMA] 🛑 Orden de apagado remoto recibida. Cortando transmisión..."@),
        conexion: Conexion::Inactiva,
        tx_cierre: None,
        ..e
    }
}

/// The state once a session has been cleaned up: the answer is forgotten, so
/// that the next request waits for its own.
pub open spec fn tras_cerrar_sesion(e: Estado) -> Estado {
    Estado {
        logs: e.logs.push("[SISTEMA] Limpiando procesos en segundo plano y volviendo a Idle..."@),
        conexion: Conexion::Inactiva,
        respuesta: None,
        ..e
    }
}

/// The state once the transmission has been switched to a monitor.
pub open spec fn tras_conmutar(e: Estado, secundario: bool) -> Estado {
    Estado { secundario, ..e }
}

impl AppState {
    /// The control tunnel is up.
    pub fn tunel_conectado(&mut self)
        ensures
            final(self)@ == tras_conectar_tunel(old(self)@),
    {
        self.registrar("[TÚNEL] Conectado con éxito. Guardian en línea y listo.");
        self.estado_conexion = TipoConexion::Inactiva;
    }

    /// The viewer has answered the offer and the stream runs.
    pub fn handshake_completado(&mut self)
        ensures
            final(self)@ == tras_handshake(old(self)@),
    {
        self.registrar("[AGENTE] Handshake WebRTC completado. Streaming activo.");
        self.estado_conexion = TipoConexion::Activa;
    }

    /// The viewer's answer has come. Only one that could be read as a session
    /// description completes the handshake.
    pub fn respuesta_recibida(&mut self, legible: bool)
        ensures
            final(self)@ == if legible {
                tras_handshake(old(self)@)
            } else {
                old(self)@
            },
    {
        if legible {
            self.handshake_completado();
        }
    }

    /// The operator ends the transmission. Whoever calls signals the end through
    /// the channel that comes back, if the session left one.
    pub fn finalizar_transmision(&mut self) -> (r: Option<tokio::sync::mpsc::Sender<()>>)
        ensures
            final(self)@ == tras_finalizar(old(self)@),
            r == old(self)@.tx_cierre,
    {
        let tx = self.tx_cerrar_conexion.take();
        self.estado_conexion = TipoConexion::Inactiva;
        self.registrar("[SISTEMA] Sesión finalizada manualmente desde el panel de control.");
        tx
    }

    /// The server orders the session to end. Whoever calls signals the end
    /// through the channel that comes back, if the session left one.
    pub fn apagado_remoto(&mut self) -> (r: Option<tokio::sync::mpsc::Sender<()>>)
        ensures
            final(self)@ == tras_apagado_remoto(old(self)@),
            r == old(self)@.tx_cierre,
    {
        self.registrar("[SISTEMA] 🛑 Orden de apagado remoto recibida. Cortando transmisión...");
        let tx = self.tx_cerrar_conexion.take();
        self.estado_conexion = TipoConexion::Inactiva;
        tx
    }

    /// The session is over and is being cleaned up.
    pub fn cerrar_sesion(&mut self)
        ensures
            final(self)@ == tras_cerrar_sesion(old(self)@),
    {
        self.registrar("[SISTEMA] Limpiando procesos en segundo plano y volviendo a Idle...");
        self.estado_conexion = TipoConexion::Inactiva;
        self.respuesta_usuario = None;
    }

    /// The transmission has been switched to a monitor.
    pub fn usar_monitor(&mut self, secundario: bool)
        ensures
            final(self)@ == tras_conmutar(old(self)@, secundario),
    {
        self.usando_monitor_secundario = secundario;
    }
}

// ---------------------------------------------------------------------------
// What the window derives from the state
// ---------------------------------------------------------------------------

/// What the window draws.
#[derive(Clone, Copy, Debug, PartialEq, Eq, Structural)]
pub enum Vista {
    /// The login form alone.
    Login,
    /// The request of a viewer.
    Solicitud,
    /// The control panel: with the buttons of a running transmission where
    /// `controles`, and with the one for a second screen where `segunda`.
    Panel { controles: bool, segunda: bool },
}

/// What the window draws: nothing but the login form before the login, then the
/// request while one is pending, and else the control panel.
pub open spec fn vista_de(e: Estado) -> Vista {
    if e.modo == ModoApp::Login {
        Vista::Login
    } else if e.conexion is SolicitudPendiente {
        Vista::Solicitud
    } else {
        Vista::Panel {
            controles: e.conexion is Activa,
            segunda: e.conexion is Activa && e.pantallas.len() > 1,
        }
    }
}

/// Whether the check mark hovers over a monitor, and whether over the secondary
/// one: only beside a request, and while a screen with a name is selected.
pub open spec fn marca_en(e: Estado) -> Option<bool> {
    if vista_de(e) is Solicitud && e.seleccion is Some && e.seleccion->0.len() > 0 {
        Some(e.pantallas.len() > 1 && e.seleccion->0 == e.pantallas[1])
    } else {
        None
    }
}

impl AppState {
    /// What the window draws.
    pub fn vista(&self) -> (r: Vista)
        ensures
            r == vista_de(self@),
    {
        match self.modo {
            ModoApp::Login => Vista::Login,
            ModoApp::PanelControl => match &self.estado_conexion {
                TipoConexion::SolicitudPendiente { .. } => Vista::Solicitud,
                TipoConexion::Activa => Vista::Panel {
                    controles: true,
                    segunda: self.pantallas_disponibles.len() > 1,
                },
                TipoConexion::Inactiva => Vista::Panel { controles: false, segunda: false },
            },
        }
    }

    /// What the control panel says of the transmission.
    pub fn texto_flujo(&self) -> (r: String)
        ensures
            r@ == if self@.conexion is Activa {
                "● Transmitiendo en vivo"@
            } else {
                "○ Esperando Visor..."@
            },
    {
        match &self.estado_conexion {
            TipoConexion::Activa => "● Transmitiendo en vivo".to_owned(),
            _ => "○ Esperando Visor...".to_owned(),
        }
    }

    /// Whether the check mark hovers over a monitor, and whether over the
    /// secondary one.
    pub fn marca_de_monitor(&self) -> (r: Option<bool>)
        ensures
            r == marca_en(self@),
    {
        match self.vista() {
            Vista::Solicitud => {},
            _ => return None,
        }
        match &self.pantalla_seleccionada_inicial {
            None => None,
            Some(seleccion) => {
                if seleccion.as_str().is_empty() {
                    None
                } else if self.pantallas_disponibles.len() > 1 {
                    Some(iguales(seleccion.as_str(), self.pantallas_disponibles[1].as_str()))
                } else {
                    Some(false)
                }
            },
        }
    }
}

/// Right edge of the monitor that the check mark hovers over: two monitors of
/// the width `ancho` stand side by side.
pub fn borde_derecho(ancho: i32, secundario: bool) -> (r: i32)
    requires
        secundario ==> i32::MIN <= ancho * 2 <= i32::MAX,
    ensures
        r == if secundario {
            ancho * 2
        } else {
            ancho as int
        },
{
    if secundario {
        ancho * 2
    } else {
        ancho
    }
}

/// Caption of the button that selects the screen at position `i`.
pub fn texto_boton_pantalla(i: usize, etiqueta: &str) -> (r: String)
    ensures
        r@ == (if i == 0 {
            "💻 Monitor Principal ("@
        } else {
            "📺 Monitor Secundario ("@
        }) + etiqueta@ + ")"@,
{
    let mut t = if i == 0 {
        "💻 Monitor Principal (".to_owned()
    } else {
        "📺 Monitor Secundario (".to_owned()
    };
    t.append(etiqueta);
    t.append(")");
    t
}

/// Text of the request that is shown to the operator.
pub fn texto_solicitud(visor_email: &str, visor_id: &str) -> (r: String)
    ensures
        r@ == "Se ha detectado una conexión entrante.\n\n👤 Usuario: "@ + visor_email@ + "\n🔑 Sesión: "@
            + visor_id@,
{
    let mut t = "Se ha detectado una conexión entrante.\n\n👤 Usuario: ".to_owned();
    t.append(visor_email);
    t.append("\n🔑 Sesión: ");
    t.append(visor_id);
    t
}

// ---------------------------------------------------------------------------
// Every change, and what all of them keep
// ---------------------------------------------------------------------------

/// The state once the operator has typed into the login form.
pub open spec fn tras_escribir(
    e: Estado,
    host: Seq<char>,
    serial: Seq<char>,
    email: Seq<char>,
    pass: Seq<char>,
) -> Estado {
    Estado { host, serial, email, pass, ..e }
}

/// A change that the window or the agent makes to the shared state. Typing into
/// the login form edits its four fields in place.
pub enum Cambio {
    Escribir { host: Seq<char>, serial: Seq<char>, email: Seq<char>, pass: Seq<char> },
    Registrar(Seq<char>),
    PedirLogin,
    LoginAceptado(Seq<char>, Option<Seq<char>>),
    LoginRechazado(Seq<char>),
    LoginSinRed(Seq<char>),
    Solicitud(Seq<Seq<char>>, Seq<char>, Seq<char>, tokio::sync::mpsc::Sender<()>),
    Seleccionar(Seq<char>),
    Permitir,
    Rechazar,
    AutorizacionRemota,
    TunelConectado,
    Handshake,
    Finalizar,
    ApagadoRemoto,
    CerrarSesion,
    Conmutar(bool),
}

/// The state after a change.
pub open spec fn aplicado(e: Estado, c: Cambio) -> Estado {
    match c {
        Cambio::Escribir { host, serial, email, pass } => tras_escribir(e, host, serial, email, pass),
        Cambio::Registrar(linea) => con_log(e, linea),
        Cambio::PedirLogin => tras_pedir_login(e),
        Cambio::LoginAceptado(email, token) => tras_login_aceptado(e, email, token),
        Cambio::LoginRechazado(status) => tras_login_rechazado(e, status),
        Cambio::LoginSinRed(error) => tras_login_sin_red(e, error),
        Cambio::Solicitud(opciones, id, email, tx) => tras_solicitud(e, opciones, id, email, tx),
        Cambio::Seleccionar(etiqueta) => tras_seleccionar(e, etiqueta),
        Cambio::Permitir => tras_permitir(e),
        Cambio::Rechazar => tras_rechazar(e),
        Cambio::AutorizacionRemota => tras_autorizacion(e),
        Cambio::TunelConectado => tras_conectar_tunel(e),
        Cambio::Handshake => tras_handshake(e),
        Cambio::Finalizar => tras_finalizar(e),
        Cambio::ApagadoRemoto => tras_apagado_remoto(e),
        Cambio::CerrarSesion => tras_cerrar_sesion(e),
        Cambio::Conmutar(secundario) => tras_conmutar(e, secundario),
    }
}

/// The control panel is open exactly while there is a token.
pub open spec fn coherente(e: Estado) -> bool {
    e.modo == ModoApp::PanelControl <==> e.token is Some
}

/// The control panel is open exactly while there is a token: so it is at
/// start-up, and every change keeps it so.
pub proof fn ley_panel_con_token(e: Estado, c: Cambio)
    ensures
        coherente(al_arrancar()),
        coherente(e) ==> coherente(aplicado(e, c)),
{
}

/// Nothing but an accepted login that brings a token opens the control panel,
/// and nothing closes it again.
pub proof fn ley_solo_el_login_abre(e: Estado, c: Cambio)
    ensures
        e.modo == ModoApp::PanelControl ==> aplicado(e, c).modo == ModoApp::PanelControl,
        e.modo == ModoApp::Login && aplicado(e, c).modo == ModoApp::PanelControl ==> (c matches Cambio::LoginAceptado(
            _,
            token,
        ) && token is Some),
        e.token is Some ==> aplicado(e, c).token is Some,
{
}

/// Before the login the window draws the login form and nothing else. It does so
/// at start-up, and only an accepted login that brings a token ends it, for good.
pub proof fn ley_login_primero(e: Estado, c: Cambio)
    ensures
        vista_de(al_arrancar()) is Login,
        !(vista_de(e) is Login) ==> !(vista_de(aplicado(e, c)) is Login),
        vista_de(e) is Login && !(vista_de(aplicado(e, c)) is Login) ==> (c matches Cambio::LoginAceptado(
            _,
            token,
        ) && token is Some),
        vista_de(e) is Login ==> marca_en(e) is None,
{
}

/// After the login the window follows the session: a request brings its pop-up;
/// a grant brings the buttons of the transmission, the one for a second screen
/// exactly where there is one; a refusal and every end take them away.
pub proof fn ley_vista_sigue_la_sesion(
    e: Estado,
    opciones: Seq<Seq<char>>,
    id: Seq<char>,
    email: Seq<char>,
    tx: tokio::sync::mpsc::Sender<()>,
)
    requires
        e.modo == ModoApp::PanelControl,
    ensures
        vista_de(tras_solicitud(e, opciones, id, email, tx)) is Solicitud,
        ({
            let activa = Vista::Panel { controles: true, segunda: e.pantallas.len() > 1 };
            &&& vista_de(tras_permitir(e)) == activa
            &&& vista_de(tras_handshake(e)) == activa
        }),
        ({
            let en_reposo = Vista::Panel { controles: false, segunda: false };
            &&& vista_de(tras_rechazar(e)) == en_reposo
            &&& vista_de(tras_finalizar(e)) == en_reposo
            &&& vista_de(tras_apagado_remoto(e)) == en_reposo
            &&& vista_de(tras_cerrar_sesion(e)) == en_reposo
            &&& vista_de(tras_conectar_tunel(e)) == en_reposo
        }),
{
}

/// The log only grows, and by at most one line per change.
pub proof fn ley_log_solo_crece(e: Estado, c: Cambio)
    ensures
        e.logs.is_prefix_of(aplicado(e, c).logs),
        aplicado(e, c).logs.len() <= e.logs.len() + 1,
{
}

/// The login form is the operator's: typing is the only change that touches what
/// it holds, and touches nothing else.
pub proof fn ley_formulario_intacto(e: Estado, c: Cambio)
    ensures
        c is Escribir ==> aplicado(e, c) == (Estado {
            host: aplicado(e, c).host,
            serial: aplicado(e, c).serial,
            email: aplicado(e, c).email,
            pass: aplicado(e, c).pass,
            ..e
        }),
        !(c is Escribir) ==> {
            &&& aplicado(e, c).host == e.host
            &&& aplicado(e, c).serial == e.serial
            &&& aplicado(e, c).email == e.email
            &&& aplicado(e, c).pass == e.pass
        },
{
}

/// A session becomes active only with the operator's grant, a remote
/// authorisation of a pending request, or the viewer's answer to the offer.
pub proof fn ley_activa_solo_con_permiso(e: Estado, c: Cambio)
    requires
        !(e.conexion is Activa),
        aplicado(e, c).conexion is Activa,
    ensures
        c is Permitir || c is Handshake || (c is AutorizacionRemota && e.conexion is SolicitudPendiente),
{
}

/// A request counts as granted only after the operator's grant or a remote
/// authorisation of a pending request.
pub proof fn ley_solo_el_permiso_concede(e: Estado, c: Cambio)
    requires
        e.respuesta != Some(true),
        aplicado(e, c).respuesta == Some(true),
    ensures
        c is Permitir || (c is AutorizacionRemota && e.conexion is SolicitudPendiente),
{
}

/// The channel that ends a session is handed out once: whichever way the session
/// is ended first, a second end finds none, until there is a new request.
pub proof fn ley_cierre_una_vez(e: Estado, c: Cambio)
    ensures
        tras_finalizar(e).tx_cierre is None,
        tras_apagado_remoto(e).tx_cierre is None,
        e.tx_cierre is None && !(c is Solicitud) ==> aplicado(e, c).tx_cierre is None,
{
}

/// A remote authorisation decides as the operator would: on a pending request
/// it does what the grant does, but for the line in the log.
pub proof fn ley_autorizacion_como_permiso(e: Estado)
    requires
        e.conexion is SolicitudPendiente,
    ensures
        tras_autorizacion(e) == (Estado { logs: tras_autorizacion(e).logs, ..tras_permitir(e) }),
{
}

/// A new request starts on the primary monitor: granted as it is shown, and with
/// two different screens on offer first, it does not use the secondary one.
pub proof fn ley_solicitud_en_principal(
    e: Estado,
    opciones: Seq<Seq<char>>,
    id: Seq<char>,
    email: Seq<char>,
    tx: tokio::sync::mpsc::Sender<()>,
)
    requires
        opciones.len() > 1 ==> opciones[0] != opciones[1],
    ensures
        opciones.len() > 0 ==> tras_permitir(tras_solicitud(e, opciones, id, email, tx)).seleccion == Some(
            opciones[0],
        ),
        !tras_permitir(tras_solicitud(e, opciones, id, email, tx)).secundario,
{
}

// ---------------------------------------------------------------------------
// What every change does
// ---------------------------------------------------------------------------

/// At start-up the window is locked, the form holds the default server and
/// device and no user, one screen is on offer, and no session exists.
pub proof fn ley_arranque()
    ensures
        al_arrancar().modo == ModoApp::Login,
        al_arrancar().host == "192.168.1.135:8080"@,
        al_arrancar().serial == "test-session-123"@,
        al_arrancar().email == ""@,
        al_arrancar().pass == ""@,
        al_arrancar().login_error is None,
        al_arrancar().token is None,
        al_arrancar().logs == seq!["[SISTEMA] Interfaz iniciada. Esperando autenticación del operador..."@],
        al_arrancar().conexion is Inactiva,
        al_arrancar().seleccion is None,
        al_arrancar().respuesta is None,
        al_arrancar().pantallas == seq!["0"@],
        !al_arrancar().secundario,
        al_arrancar().tx_cierre is None,
{
}

/// Each part of the state belongs to the changes that are about it; every other
/// change leaves it as it is.
pub proof fn ley_cada_cambio_lo_suyo(e: Estado, c: Cambio)
    ensures
        ({
            let d = aplicado(e, c);
            let concede = c is Permitir || (c is AutorizacionRemota && e.conexion is SolicitudPendiente);
            &&& !(c is LoginAceptado) ==> d.modo == e.modo && d.token == e.token
            &&& !(c is PedirLogin || c is LoginRechazado || c is LoginSinRed) ==> d.login_error == e.login_error
            &&& !(c is Solicitud) ==> d.pantallas == e.pantallas
            &&& !(c is Solicitud || c is Seleccionar || concede) ==> d.seleccion == e.seleccion
            &&& !(c is Rechazar || c is CerrarSesion || concede) ==> d.respuesta == e.respuesta
            &&& !(c is Conmutar || concede) ==> d.secundario == e.secundario
            &&& !(c is Solicitud || c is Finalizar || c is ApagadoRemoto) ==> d.tx_cierre == e.tx_cierre
            &&& c is Registrar || c is PedirLogin || c is LoginAceptado || c is LoginRechazado || c is LoginSinRed
                || c is Seleccionar || c is Conmutar || c is Escribir ==> d.conexion == e.conexion
            &&& c is PedirLogin || c is LoginRechazado || c is LoginSinRed || c is Seleccionar || c is Permitir
                || c is Rechazar || c is Conmutar || c is Escribir ==> d.logs == e.logs
        }),
{
}

/// A login answer with a token opens the panel with exactly that token and names
/// the user in the log; one without a token changes nothing. A refusal and a
/// failed request leave their reason, and a new request forgets it.
pub proof fn ley_login(e: Estado, email: Seq<char>, token: Seq<char>, texto: Seq<char>)
    ensures
        tras_login_aceptado(e, email, Some(token)).token == Some(token),
        tras_login_aceptado(e, email, Some(token)).modo == ModoApp::PanelControl,
        tras_login_aceptado(e, email, Some(token)).logs == e.logs.push(
            "[SISTEMA] Autenticado en el Tenant como "@ + email + "."@,
        ),
        tras_login_aceptado(e, email, None) == e,
        tras_login_rechazado(e, texto).login_error == Some("Error "@ + texto + ": Credenciales incorrectas"@),
        tras_login_sin_red(e, texto).login_error == Some("Fallo de red: "@ + texto),
        tras_pedir_login(e).login_error is None,
{
}

/// The token of a login answer is its text member `token`; a body that is no
/// JSON object with such a member has none.
pub proof fn ley_token_de_la_respuesta(cuerpo: Seq<u8>, m: Map<Seq<char>, Json>, t: Seq<char>)
    ensures
        documento_en_bytes(cuerpo) == Some(Json::Objeto(m)) && m.dom().contains("token"@) && m["token"@]
            == Json::Texto(t) ==> token_en(cuerpo) == Some(t),
        documento_en_bytes(cuerpo) is None ==> token_en(cuerpo) is None,
        documento_en_bytes(cuerpo) == Some(Json::Objeto(m)) && !(m.dom().contains("token"@) && m["token"@] is Texto)
            ==> token_en(cuerpo) is None,
        documento_en_bytes(cuerpo) matches Some(j) ==> (!(j is Objeto) ==> token_en(cuerpo) is None),
{
}

/// A request shows who asks, offers exactly the given screens, selects the first
/// of them, and keeps its channel; the answer is the operator's to give.
pub proof fn ley_solicitud(
    e: Estado,
    opciones: Seq<Seq<char>>,
    id: Seq<char>,
    email: Seq<char>,
    tx: tokio::sync::mpsc::Sender<()>,
)
    ensures
        ({
            let s = tras_solicitud(e, opciones, id, email, tx);
            &&& s.conexion == (Conexion::SolicitudPendiente { visor_id: id, visor_email: email })
            &&& s.pantallas == opciones
            &&& opciones.len() > 0 ==> s.seleccion == Some(opciones[0])
            &&& opciones.len() == 0 ==> s.seleccion == e.seleccion
            &&& s.tx_cierre == Some(tx)
            &&& s.respuesta == e.respuesta
            &&& s.secundario == e.secundario
            &&& s.logs == e.logs.push("[SISTEMA] Levantando pop-up de confirmación en la UI local..."@)
        }),
{
}

/// The operator's choice of a screen is kept, and a grant acts on it: the
/// selected screen stays selected, the first one on offer stands in where none
/// is, and the secondary monitor is in use exactly where the second screen on
/// offer is the one granted.
pub proof fn ley_permiso(e: Estado, etiqueta: Seq<char>, i: int)
    ensures
        tras_seleccionar(e, etiqueta).seleccion == Some(etiqueta),
        tras_permitir(e).respuesta == Some(true),
        tras_permitir(e).conexion is Activa,
        e.seleccion is Some ==> tras_permitir(e).seleccion == e.seleccion,
        e.seleccion is None && e.pantallas.len() > 0 ==> tras_permitir(e).seleccion == Some(e.pantallas[0]),
        e.seleccion is None && e.pantallas.len() == 0 ==> tras_permitir(e).seleccion is None,
        e.pantallas.len() > 1 ==> (tras_permitir(e).secundario <==> tras_permitir(e).seleccion == Some(
            e.pantallas[1],
        )),
        e.pantallas.len() <= 1 ==> !tras_permitir(e).secundario,
        0 <= i < e.pantallas.len() && e.pantallas.no_duplicates() ==> (tras_permitir(
            tras_seleccionar(e, e.pantallas[i]),
        ).secundario <==> i == 1),
        tras_rechazar(e).respuesta == Some(false),
        tras_rechazar(e).conexion is Inactiva,
        seleccion_efectiva(e) == tras_permitir(e).seleccion,
{
}

/// A remote authorisation leaves its line in the log; on a pending request it
/// grants the screen in effect, and on anything else it does no more.
pub proof fn ley_autorizacion_remota(e: Estado)
    ensures
        tras_autorizacion(e).logs == e.logs.push(
            "[MFA] Autorización remota recibida. Aceptando conexión automáticamente..."@,
        ),
        e.conexion is SolicitudPendiente ==> {
            &&& tras_autorizacion(e).respuesta == Some(true)
            &&& tras_autorizacion(e).conexion is Activa
            &&& tras_autorizacion(e).seleccion == tras_permitir(e).seleccion
            &&& tras_autorizacion(e).secundario == tras_permitir(e).secundario
        },
        !(e.conexion is SolicitudPendiente) ==> {
            &&& tras_autorizacion(e).respuesta == e.respuesta
            &&& tras_autorizacion(e).conexion == e.conexion
            &&& tras_autorizacion(e).seleccion == e.seleccion
            &&& tras_autorizacion(e).secundario == e.secundario
        },
{
}

/// A running session: the handshake makes it active; the operator, the server,
/// the clean-up and a new tunnel make it inactive, each with its line in the log;
/// the two orders to end take the channel, and the clean-up the answer.
pub proof fn ley_sesion_en_marcha(e: Estado, linea: Seq<char>, secundario: bool)
    ensures
        con_log(e, linea).logs == e.logs.push(linea),
        tras_handshake(e).conexion is Activa,
        tras_handshake(e).logs == e.logs.push("[AGENTE] Handshake WebRTC completado. Streaming activo."@),
        tras_conectar_tunel(e).conexion is Inactiva,
        tras_conectar_tunel(e).logs == e.logs.push("[TÚNEL] Conectado con éxito. Guardian en línea y listo."@),
        tras_finalizar(e).conexion is Inactiva,
        tras_finalizar(e).tx_cierre is None,
        tras_finalizar(e).logs == e.logs.push("[SISTEMA] Sesión finalizada manualmente desde el panel de control."@),
        tras_apagado_remoto(e).conexion is Inactiva,
        tras_apagado_remoto(e).tx_cierre is None,
        tras_apagado_remoto(e).logs == e.logs.push(
            "[SISTEMA] 🛑 Orden de apagado remoto recibida. Cortando transmisión..."@,
        ),
        tras_cerrar_sesion(e).conexion is Inactiva,
        tras_cerrar_sesion(e).respuesta is None,
        tras_cerrar_sesion(e).logs == e.logs.push(
            "[SISTEMA] Limpiando procesos en segundo plano y volviendo a Idle..."@,
        ),
        tras_conmutar(e, secundario).secundario == secundario,
{
}

/// What is drawn follows from the mode and the connection alone, and from the
/// number of screens for the second button. The check mark hovers beside a
/// request for a screen with a name, over the secondary monitor exactly where the
/// second screen on offer is selected.
pub proof fn ley_lo_dibujado(e: Estado, s: Seq<char>)
    ensures
        vista_de(e) is Login <==> e.modo == ModoApp::Login,
        e.modo != ModoApp::Login ==> {
            &&& vista_de(e) is Solicitud <==> e.conexion is SolicitudPendiente
            &&& e.conexion is Inactiva ==> vista_de(e) == (Vista::Panel { controles: false, segunda: false })
            &&& e.conexion is Activa ==> vista_de(e) == (Vista::Panel {
                controles: true,
                segunda: e.pantallas.len() >= 2,
            })
        },
        e.modo == ModoApp::Login || !(e.conexion is SolicitudPendiente) || e.seleccion is None ==> marca_en(e) is None,
        e.modo != ModoApp::Login && e.conexion is SolicitudPendiente && e.seleccion == Some(s) ==> {
            &&& s.len() == 0 ==> marca_en(e) is None
            &&& s.len() > 0 ==> marca_en(e) is Some
            &&& s.len() > 0 && e.pantallas.len() >= 2 ==> marca_en(e) == Some(s == e.pantallas[1])
            &&& s.len() > 0 && e.pantallas.len() < 2 ==> marca_en(e) == Some(false)
        },
{
}

/// The shared state is read part by part, with all that it holds.
pub proof fn ley_vista_del_estado(s: AppState, visor_id: String, visor_email: String)
    ensures
        s@.modo == s.modo,
        s@.host == s.host_input@,
        s@.serial == s.serial_input@,
        s@.email == s.email_input@,
        s@.pass == s.pass_input@,
        s@.login_error == vista_opcional(s.login_error),
        s@.token == vista_opcional(s.token_jwt),
        s@.logs == vistas(s.logs@),
        s@.conexion == s.estado_conexion@,
        s@.seleccion == vista_opcional(s.pantalla_seleccionada_inicial),
        s@.respuesta == s.respuesta_usuario,
        s@.pantallas == vistas(s.pantallas_disponibles@),
        s@.secundario == s.usando_monitor_secundario,
        s@.tx_cierre == s.tx_cerrar_conexion,
        TipoConexion::Inactiva@ is Inactiva,
        TipoConexion::Activa@ is Activa,
        (TipoConexion::SolicitudPendiente { visor_id, visor_email })@ == (Conexion::SolicitudPendiente {
            visor_id: visor_id@,
            visor_email: visor_email@,
        }),
{
}

} // verus!
