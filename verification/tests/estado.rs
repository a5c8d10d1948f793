use guardian_agent::estado::{
    borde_derecho, leer_token, texto_boton_pantalla, texto_solicitud, AppState, ModoApp, TipoConexion, Vista,
};
use guardian_agent::sesion::Permiso;

fn canal() -> (tokio::sync::mpsc::Sender<()>, tokio::sync::mpsc::Receiver<()>) {
    tokio::sync::mpsc::channel(1)
}

fn con_solicitud(opciones: &[&str]) -> (AppState, tokio::sync::mpsc::Receiver<()>) {
    let mut e = AppState::default();
    let (tx, rx) = canal();
    e.abrir_solicitud(opciones.iter().map(|s| s.to_string()).collect(), "visor", "v@x.com", tx);
    (e, rx)
}

#[test]
fn arranque() {
    let e = AppState::default();
    assert_eq!(e.modo, ModoApp::Login);
    assert_eq!(e.host_input, "192.168.1.135:8080");
    assert_eq!(e.serial_input, "test-session-123");
    assert_eq!(e.email_input, "");
    assert_eq!(e.pass_input, "");
    assert_eq!(e.login_error, None);
    assert_eq!(e.token_jwt, None);
    assert_eq!(e.logs, vec!["[SISTEMA] Interfaz iniciada. Esperando autenticación del operador...".to_string()]);
    assert_eq!(e.estado_conexion, TipoConexion::Inactiva);
    assert_eq!(e.pantalla_seleccionada_inicial, None);
    assert_eq!(e.respuesta_usuario, None);
    assert_eq!(e.pantallas_disponibles, vec!["0".to_string()]);
    assert!(!e.usando_monitor_secundario);
    assert!(e.tx_cerrar_conexion.is_none());
}

#[test]
fn login_con_exito() {
    let mut e = AppState::default();
    e.login_error = Some("viejo".to_string());
    e.email_input = "op@x.com".to_string();
    e.pass_input = "clave".to_string();
    let s = e.pedir_login();
    assert_eq!(s.url, "http://192.168.1.135:8080/api/auth/login");
    assert_eq!((s.username.as_str(), s.password.as_str()), ("op@x.com", "clave"));
    assert_eq!(e.login_error, None);
    e.login_respondido("op@x.com", br#"{"token":"abc"}"#);
    assert_eq!(e.token_jwt, Some("abc".to_string()));
    assert_eq!(e.modo, ModoApp::PanelControl);
    assert_eq!(e.logs.last().unwrap(), "[SISTEMA] Autenticado en el Tenant como op@x.com.");
}

#[test]
fn login_sin_token() {
    let mut e = AppState::default();
    for cuerpo in [&b"{}"[..], b"no es json", br#"{"token":5}"#, b"\xff"] {
        e.login_respondido("x", cuerpo);
        assert_eq!(e.modo, ModoApp::Login);
        assert_eq!(e.logs.len(), 1);
    }
    assert_eq!(leer_token(br#"{"a":1,"token":"t"}"#), Some("t".to_string()));
    e.login_aceptado("x", None);
    assert_eq!(e.token_jwt, None);
}

#[test]
fn login_fallido() {
    let mut e = AppState::default();
    e.login_rechazado("401 Unauthorized");
    assert_eq!(e.login_error, Some("Error 401 Unauthorized: Credenciales incorrectas".to_string()));
    e.login_sin_red("timeout");
    assert_eq!(e.login_error, Some("Fallo de red: timeout".to_string()));
    assert_eq!(e.modo, ModoApp::Login);
}

#[test]
fn solicitud_abierta() {
    let (e, _rx) = con_solicitud(&["A", "B"]);
    assert_eq!(
        e.estado_conexion,
        TipoConexion::SolicitudPendiente { visor_id: "visor".to_string(), visor_email: "v@x.com".to_string() }
    );
    assert_eq!(e.pantalla_seleccionada_inicial, Some("A".to_string()));
    assert!(e.tx_cerrar_conexion.is_some());
    assert_eq!(e.logs.last().unwrap(), "[SISTEMA] Levantando pop-up de confirmación en la UI local...");
    let (e, _rx) = con_solicitud(&[]);
    assert_eq!(e.pantalla_seleccionada_inicial, None);
}

#[test]
fn permiso_en_la_principal_y_en_la_secundaria() {
    let (mut e, _rx) = con_solicitud(&["A", "B"]);
    e.permitir();
    assert!(!e.usando_monitor_secundario);
    assert_eq!(e.respuesta_usuario, Some(true));
    assert_eq!(e.estado_conexion, TipoConexion::Activa);
    let (mut e, _rx) = con_solicitud(&["A", "B"]);
    e.seleccionar_pantalla("B");
    e.permitir();
    assert!(e.usando_monitor_secundario);
    let mut e = AppState::default();
    e.usando_monitor_secundario = true;
    e.permitir();
    assert!(!e.usando_monitor_secundario);
    assert_eq!(e.pantalla_seleccionada_inicial, Some("0".to_string()));
}

#[test]
fn autorizacion_remota() {
    let (mut e, _rx) = con_solicitud(&["A", "B"]);
    e.autorizar_remoto();
    assert_eq!(e.respuesta_usuario, Some(true));
    assert_eq!(e.estado_conexion, TipoConexion::Activa);
    let mut e = AppState::default();
    e.autorizar_remoto();
    assert_eq!(e.respuesta_usuario, None);
    assert_eq!(e.estado_conexion, TipoConexion::Inactiva);
    assert_eq!(
        e.logs.last().unwrap(),
        "[MFA] Autorización remota recibida. Aceptando conexión automáticamente..."
    );
}

#[test]
fn respuesta_a_la_solicitud() {
    let (mut e, _rx) = con_solicitud(&["A", "B"]);
    assert_eq!(e.mirar_permiso(false), Permiso::EnEspera);
    assert_eq!(e.mirar_permiso(true), Permiso::Cortado);
    e.rechazar();
    assert_eq!(e.estado_conexion, TipoConexion::Inactiva);
    assert_eq!(e.mirar_permiso(false), Permiso::Denegado);
    assert_eq!(e.logs.last().unwrap(), "[SISTEMA] Conexión rechazada localmente.");
    let (mut e, _rx) = con_solicitud(&["A", "B"]);
    e.seleccionar_pantalla("B");
    e.permitir();
    assert_eq!(e.mirar_permiso(false), Permiso::Concedido { etiqueta: Some("B".to_string()) });
    e.cerrar_sesion();
    assert_eq!(e.respuesta_usuario, None);
    let (tx, _rx2) = canal();
    e.abrir_solicitud(vec![], "x", "y", tx);
    assert_eq!(e.mirar_permiso(false), Permiso::EnEspera);
}

#[test]
fn una_respuesta_anterior_sigue_en_pie() {
    let (mut e, _rx) = con_solicitud(&["A"]);
    e.rechazar();
    let (tx, _rx2) = canal();
    e.abrir_solicitud(vec!["A".to_string()], "x", "y", tx);
    assert_eq!(e.mirar_permiso(false), Permiso::Denegado);
}

#[test]
fn el_cierre_se_entrega_una_vez() {
    let (mut e, mut rx) = con_solicitud(&["A"]);
    e.permitir();
    let tx = e.finalizar_transmision().unwrap();
    tx.try_send(()).unwrap();
    assert!(rx.try_recv().is_ok());
    assert_eq!(e.estado_conexion, TipoConexion::Inactiva);
    assert_eq!(
        e.logs.last().unwrap(),
        "[SISTEMA] Sesión finalizada manualmente desde el panel de control."
    );
    assert!(e.apagado_remoto().is_none());
    assert_eq!(
        e.logs.last().unwrap(),
        "[SISTEMA] 🛑 Orden de apagado remoto recibida. Cortando transmisión..."
    );
}

#[test]
fn sesion_en_marcha() {
    let mut e = AppState::default();
    e.handshake_completado();
    assert_eq!(e.estado_conexion, TipoConexion::Activa);
    e.usar_monitor(true);
    assert!(e.usando_monitor_secundario);
    e.tunel_conectado();
    assert_eq!(e.estado_conexion, TipoConexion::Inactiva);
    e.oferta_enviada();
    assert_eq!(e.logs.last().unwrap(), "[AGENTE] Oferta SDP enviada al visor.");
    e.purga_completada();
    assert_eq!(e.logs.last().unwrap(), "[ALMACENAMIENTO] 🧹 Purga de directorio temporal completada.");
}

#[test]
fn marca_sobre_el_monitor() {
    let (mut e, _rx) = con_solicitud(&["A", "B"]);
    assert_eq!(e.marca_de_monitor(), None);
    e.login_aceptado("op@x.com", Some("tk".to_string()));
    assert_eq!(e.marca_de_monitor(), Some(false));
    e.seleccionar_pantalla("B");
    assert_eq!(e.marca_de_monitor(), Some(true));
    e.seleccionar_pantalla("");
    assert_eq!(e.marca_de_monitor(), None);
    e.rechazar();
    e.seleccionar_pantalla("B");
    assert_eq!(e.marca_de_monitor(), None);
    assert_eq!(borde_derecho(1920, true), 3840);
    assert_eq!(borde_derecho(1920, false), 1920);
}

#[test]
fn lo_que_se_dibuja() {
    let panel = |controles, segunda| Vista::Panel { controles, segunda };
    let (mut e, _rx) = con_solicitud(&["A", "B"]);
    assert_eq!(e.vista(), Vista::Login);
    e.estado_conexion = TipoConexion::Activa;
    assert_eq!(e.vista(), Vista::Login);
    e.estado_conexion = TipoConexion::Inactiva;

    e.login_aceptado("op@x.com", Some("tk".to_string()));
    assert_eq!(e.vista(), panel(false, false));
    assert_eq!(e.texto_flujo(), "○ Esperando Visor...");
    let (tx, _rx2) = canal();
    e.abrir_solicitud(vec!["A".to_string(), "B".to_string()], "v", "m", tx);
    assert_eq!(e.vista(), Vista::Solicitud);
    assert_eq!(e.texto_flujo(), "○ Esperando Visor...");
    e.permitir();
    assert_eq!(e.vista(), panel(true, true));
    assert_eq!(e.texto_flujo(), "● Transmitiendo en vivo");
    e.finalizar_transmision();
    assert_eq!(e.vista(), panel(false, false));

    let (tx, _rx3) = canal();
    e.abrir_solicitud(vec!["A".to_string()], "v", "m", tx);
    e.rechazar();
    assert_eq!(e.vista(), panel(false, false));
    e.handshake_completado();
    assert_eq!(e.vista(), panel(true, false));
    e.cerrar_sesion();
    assert_eq!(e.vista(), panel(false, false));
}

#[test]
fn respuesta_del_visor() {
    let mut e = AppState::default();
    e.respuesta_recibida(false);
    assert_eq!(e.estado_conexion, TipoConexion::Inactiva);
    assert_eq!(e.logs.len(), 1);
    e.respuesta_recibida(true);
    assert_eq!(e.estado_conexion, TipoConexion::Activa);
    assert_eq!(e.logs.last().unwrap(), "[AGENTE] Handshake WebRTC completado. Streaming activo.");
}

#[test]
fn textos_de_la_ventana() {
    assert_eq!(texto_boton_pantalla(0, "A"), "💻 Monitor Principal (A)");
    assert_eq!(texto_boton_pantalla(2, "B"), "📺 Monitor Secundario (B)");
    assert_eq!(
        texto_solicitud("v@x", "id"),
        "Se ha detectado una conexión entrante.\n\n👤 Usuario: v@x\n🔑 Sesión: id"
    );
}

#[test]
fn el_panel_solo_se_abre_con_token() {
    let (mut e, _rx) = con_solicitud(&["A", "B"]);
    e.permitir();
    e.handshake_completado();
    e.cerrar_sesion();
    e.login_rechazado("x");
    assert_eq!(e.modo, ModoApp::Login);
    e.login_aceptado("yo", Some("t".to_string()));
    e.rechazar();
    e.apagado_remoto();
    assert_eq!(e.modo, ModoApp::PanelControl);
    assert_eq!(e.token_jwt, Some("t".to_string()));
}

#[test]
fn el_formulario_no_cambia_y_el_log_solo_crece() {
    let mut e = AppState::default();
    e.host_input = "h".to_string();
    e.email_input = "yo".to_string();
    e.pass_input = "p".to_string();
    let (tx, _rx) = canal();
    let mut previo = e.logs.clone();
    let cambios: Vec<Box<dyn FnOnce(&mut AppState)>> = vec![
        Box::new(|e| {
            e.pedir_login();
        }),
        Box::new(|e| e.login_rechazado("500")),
        Box::new(|e| e.login_aceptado("yo", Some("t".to_string()))),
        Box::new(move |e| e.abrir_solicitud(vec!["A".to_string(), "B".to_string()], "i", "m", tx)),
        Box::new(|e| e.seleccionar_pantalla("B")),
        Box::new(|e| e.autorizar_remoto()),
        Box::new(|e| e.handshake_completado()),
        Box::new(|e| e.usar_monitor(false)),
        Box::new(|e| {
            e.finalizar_transmision();
        }),
        Box::new(|e| e.cerrar_sesion()),
        Box::new(|e| e.tunel_conectado()),
    ];
    for cambio in cambios {
        cambio(&mut e);
        assert!(e.logs.starts_with(&previo));
        assert!(e.logs.len() <= previo.len() + 1);
        assert_eq!((e.host_input.as_str(), e.serial_input.as_str()), ("h", "test-session-123"));
        assert_eq!((e.email_input.as_str(), e.pass_input.as_str()), ("yo", "p"));
        previo = e.logs.clone();
    }
}

#[test]
fn mirar_el_permiso_solo_registra() {
    let (mut e, _rx) = con_solicitud(&["A", "B"]);
    e.permitir();
    let n = e.logs.len();
    e.mirar_permiso(false);
    assert_eq!(e.logs.len(), n + 1);
    assert_eq!(e.respuesta_usuario, Some(true));
    assert_eq!(e.estado_conexion, TipoConexion::Activa);
    assert!(e.tx_cerrar_conexion.is_some());
}
