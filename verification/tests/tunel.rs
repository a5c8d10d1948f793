use guardian_agent::captura::{
    argumentos_macos, argumentos_x11, conmutar_pantalla_caliente, indice_captura, indice_captura_macos, paso_captura,
    AccionCaptura, ArranquesCaptura, ConmutadorPantalla, EventoCaptura,
};
use guardian_agent::estado::{AppState, ModoApp, TipoConexion};
use guardian_agent::pantallas::PantallaReal;
use guardian_agent::sesion::{
    arranca_secundaria, cambio_de_par, canal_de_datos, elegir_indice, mensaje_candidato, mensaje_oferta,
    opciones_sin_listado, paso_sesion, url_senalizacion, AccionSesion, EstadoPar, EventoSesion, SdpPayload,
    SignalingMessage,
};
use guardian_agent::tunel::{
    abrir_tunel, atender_senal, descartar_latido, inicio_tunel, leer_credenciales, leer_mensaje, paso_latido,
    paso_tunel, sondear, AccionBucle, AccionLatido, AccionTunel, ControlSignal, Credenciales, EventoLatido,
    EventoTunel, FaseTunel, MensajeControl,
};

fn senal(action: &str) -> ControlSignal {
    ControlSignal { action: action.to_string(), session_uuid: None, visor_email: None }
}

fn pantalla(idx: &str) -> PantallaReal {
    PantallaReal { avf_index: idx.to_string(), etiqueta: format!("p{}", idx) }
}

#[test]
fn credenciales_solo_con_login() {
    let mut e = AppState::default();
    assert_eq!(leer_credenciales(&e), None);
    e.modo = ModoApp::PanelControl;
    assert_eq!(leer_credenciales(&e), None);
    e.token_jwt = Some("tk".to_string());
    let c = leer_credenciales(&e).unwrap();
    assert_eq!(c.backend_host, "192.168.1.135:8080");
    assert_eq!(c.session_uuid, "test-session-123");
    assert_eq!(c.token, "tk");
    e.modo = ModoApp::Login;
    assert_eq!(leer_credenciales(&e), None);
    assert_eq!(
        abrir_tunel(&mut e, &c),
        "ws://192.168.1.135:8080/api/remote/agent/connect/test-session-123?token=tk"
    );
    assert_eq!(e.logs.last().unwrap(), "[TÚNEL] Abriendo canal permanente de control (Idle Mode)...");
    let otra = Credenciales { backend_host: "h".into(), session_uuid: "s".into(), token: "".into() };
    assert_eq!(abrir_tunel(&mut e, &otra), "ws://h/api/remote/agent/connect/s?token=");
}

#[test]
fn vida_del_tunel() {
    let mut e = AppState::default();
    let mut f = FaseTunel::EsperandoLogin;
    assert_eq!(
        paso_tunel(&mut f, &mut e, EventoTunel::Sondeo { con_login: false }),
        AccionBucle::Sondear { pausa_ms: 500 }
    );
    assert_eq!(e.logs.len(), 1);
    assert_eq!(
        paso_tunel(&mut f, &mut e, EventoTunel::Sondeo { con_login: true }),
        AccionBucle::Abrir { pausa_ms: 0 }
    );
    assert_eq!(e.logs.last().unwrap(), "[TÚNEL] Iniciando núcleo para el dispositivo: test-session-123");
    assert_eq!(
        paso_tunel(&mut f, &mut e, EventoTunel::Fallido { error: "rota".to_string() }),
        AccionBucle::Abrir { pausa_ms: 5000 }
    );
    assert_eq!(e.logs.last().unwrap(), "[TÚNEL] Error al acoplar socket: rota. Reintentando en 5s...");
    e.estado_conexion = TipoConexion::Activa;
    assert_eq!(paso_tunel(&mut f, &mut e, EventoTunel::Abierto), AccionBucle::Leer);
    assert_eq!(e.estado_conexion, TipoConexion::Inactiva);
    assert_eq!(f, FaseTunel::EnLinea);
    assert_eq!(paso_tunel(&mut f, &mut e, EventoTunel::Mensaje), AccionBucle::Leer);
    assert_eq!(paso_tunel(&mut f, &mut e, EventoTunel::Caido), AccionBucle::Abrir { pausa_ms: 3000 });
    assert_eq!(f, FaseTunel::Abriendo);
    assert_eq!(
        e.logs.last().unwrap(),
        "[SISTEMA] Conexión de control caída. Re-estabilizando infraestructura en 3s..."
    );
}

#[test]
fn el_tunel_se_abre_con_el_login() {
    let mut e = AppState::default();
    let (mut f, accion) = inicio_tunel();
    assert_eq!(f, FaseTunel::EsperandoLogin);
    assert_eq!(accion, AccionBucle::Sondear { pausa_ms: 0 });
    assert_eq!(sondear(&mut f, &mut e), (None, AccionBucle::Sondear { pausa_ms: 500 }));
    e.modo = ModoApp::PanelControl;
    assert_eq!(sondear(&mut f, &mut e), (None, AccionBucle::Sondear { pausa_ms: 500 }));
    assert_eq!(f, FaseTunel::EsperandoLogin);
    assert_eq!(e.logs.len(), 1);
    e.modo = ModoApp::Login;
    e.login_aceptado("op@x.com", Some("tk".to_string()));
    e.serial_input = "serie".to_string();
    let (c, accion) = sondear(&mut f, &mut e);
    assert_eq!(
        c,
        Some(Credenciales {
            backend_host: "192.168.1.135:8080".to_string(),
            session_uuid: "serie".to_string(),
            token: "tk".to_string()
        })
    );
    assert_eq!(accion, AccionBucle::Abrir { pausa_ms: 0 });
    assert_eq!(f, FaseTunel::Abriendo);
    assert_eq!(e.logs.last().unwrap(), "[TÚNEL] Iniciando núcleo para el dispositivo: serie");
}

#[test]
fn latido_del_tunel() {
    assert_eq!(paso_latido(EventoLatido::Turno), AccionLatido::Enviar { texto: "ping".to_string() });
    assert_eq!(paso_latido(EventoLatido::Enviado), AccionLatido::Esperar);
    assert_eq!(paso_latido(EventoLatido::EnvioFallido), AccionLatido::Terminar);
    assert_eq!(paso_latido(EventoLatido::Fin), AccionLatido::Terminar);
}

#[test]
fn mensajes_del_tunel() {
    assert_eq!(leer_mensaje(MensajeControl::Texto("{}".to_string())), Some("{}".to_string()));
    assert_eq!(leer_mensaje(MensajeControl::Texto("pong".to_string())), None);
    assert_eq!(leer_mensaje(MensajeControl::Binario(b"pong".to_vec())), None);
    assert_eq!(leer_mensaje(MensajeControl::Binario(b"a\xff".to_vec())), Some("a\u{fffd}".to_string()));
    assert_eq!(leer_mensaje(MensajeControl::Binario("ñ".as_bytes().to_vec())), Some("ñ".to_string()));
    assert_eq!(leer_mensaje(MensajeControl::Otro), None);
    assert_eq!(descartar_latido(Some("ping".to_string())), Some("ping".to_string()));
}

#[test]
fn senal_de_despertar() {
    let mut e = AppState::default();
    match atender_senal(&mut e, senal("despertar"), "mi-sesion") {
        AccionTunel::Despertar { session_uuid, visor_email } => {
            assert_eq!(session_uuid, "mi-sesion");
            assert_eq!(visor_email, "desconocido@guardian.com");
        }
        _ => panic!(),
    }
    assert_eq!(e.logs.last().unwrap(), "[TÚNEL] ¡Señal de despertar recibida! Desplegando canal WebRTC...");
    let mut s = senal("despertar");
    s.session_uuid = Some("otra".to_string());
    s.visor_email = Some("v@x".to_string());
    match atender_senal(&mut e, s, "mi-sesion") {
        AccionTunel::Despertar { session_uuid, visor_email } => {
            assert_eq!(session_uuid, "otra");
            assert_eq!(visor_email, "v@x");
        }
        _ => panic!(),
    }
}

#[test]
fn senales_de_autorizacion_y_apagado() {
    let mut e = AppState::default();
    let (tx, mut rx) = tokio::sync::mpsc::channel(1);
    e.abrir_solicitud(vec!["A".to_string()], "i", "m", tx);
    assert!(matches!(atender_senal(&mut e, senal("mfa_authorized"), "s"), AccionTunel::Nada));
    assert_eq!(e.estado_conexion, TipoConexion::Activa);
    match atender_senal(&mut e, senal("end_session"), "s") {
        AccionTunel::Cerrar { tx: Some(tx) } => tx.try_send(()).unwrap(),
        _ => panic!(),
    }
    assert!(rx.try_recv().is_ok());
    assert_eq!(e.estado_conexion, TipoConexion::Inactiva);
    let n = e.logs.len();
    assert!(matches!(atender_senal(&mut e, senal("desconocida"), "s"), AccionTunel::Nada));
    assert_eq!(e.logs.len(), n);
}

#[test]
fn mensajes_de_senalizacion() {
    assert_eq!(
        url_senalizacion("h", "s", "t"),
        "ws://h/api/remote/signaling/s/agente?token=t"
    );
    let o = mensaje_oferta("v=0".to_string());
    assert_eq!(o.sdp, Some(SdpPayload { sdp_type: "offer".to_string(), sdp: "v=0".to_string() }));
    assert!(o.ice.is_none());
    let c = mensaje_candidato(serde_json::Value::Bool(true));
    assert!(c.sdp.is_none());
    assert_eq!(c.ice, Some(serde_json::Value::Bool(true)));
}

#[test]
fn eventos_de_la_sesion() {
    let mut e = AppState::default();
    let sdp = |t: &str| Some(SdpPayload { sdp_type: t.to_string(), sdp: "cuerpo".to_string() });
    let ice = || Some(serde_json::Value::Null);
    match paso_sesion(&mut e, EventoSesion::Senal(SignalingMessage { sdp: sdp("answer"), ice: ice() })) {
        AccionSesion::AplicarRespuesta { sdp } => assert_eq!(sdp, "cuerpo"),
        _ => panic!(),
    }
    let r = paso_sesion(&mut e, EventoSesion::Senal(SignalingMessage { sdp: sdp("offer"), ice: ice() }));
    assert!(matches!(r, AccionSesion::Seguir));
    let r = paso_sesion(&mut e, EventoSesion::Senal(SignalingMessage { sdp: None, ice: ice() }));
    assert!(matches!(r, AccionSesion::AgregarCandidato { ice: serde_json::Value::Null }));
    let r = paso_sesion(&mut e, EventoSesion::Senal(SignalingMessage { sdp: None, ice: None }));
    assert!(matches!(r, AccionSesion::Seguir));
    assert!(matches!(paso_sesion(&mut e, EventoSesion::OtroMensaje), AccionSesion::Seguir));
    assert_eq!(e.logs.len(), 1);
    for (ev, linea) in [
        (EventoSesion::CorteLocal, "[SISTEMA] Apagado forzado desde el Agente."),
        (EventoSesion::FinDelVisor, "[SISTEMA] El Visor cortó la conexión abruptamente."),
        (EventoSesion::CanalCerrado, "[SISTEMA] Canal WebSocket del visor cerrado."),
    ] {
        assert!(matches!(paso_sesion(&mut e, ev), AccionSesion::Terminar));
        assert_eq!(e.logs.last().unwrap(), linea);
    }
}

#[test]
fn estados_del_par() {
    let mut e = AppState::default();
    for (par, fin) in [
        (EstadoPar::SinEspecificar, false),
        (EstadoPar::Nuevo, false),
        (EstadoPar::Conectando, false),
        (EstadoPar::Conectado, false),
        (EstadoPar::Desconectado, true),
        (EstadoPar::Fallido, true),
        (EstadoPar::Cerrado, true),
    ] {
        assert_eq!(cambio_de_par(&mut e, "nombre", par), fin);
        assert_eq!(e.logs.last().unwrap(), "[WEBRTC] Estado: nombre");
    }
    canal_de_datos(&mut e, "control");
    assert_eq!(e.logs.last().unwrap(), "[AGENTE] Canal de Datos Abierto por Visor: control");
}

#[test]
fn conmutacion_en_caliente() {
    let mut c = ConmutadorPantalla { secundaria: false, reiniciar: None };
    assert!(conmutar_pantalla_caliente(&mut c, true).is_none());
    assert!(c.secundaria);
    let (tx, mut rx) = tokio::sync::mpsc::channel(10);
    c.reiniciar = Some(tx);
    conmutar_pantalla_caliente(&mut c, false).unwrap().try_send(()).unwrap();
    assert!(!c.secundaria);
    assert!(rx.try_recv().is_ok());
    let ps = vec![pantalla("4"), pantalla("7")];
    assert_eq!(indice_captura_macos(false, "9", &ps, c.secundaria), "4");
    conmutar_pantalla_caliente(&mut c, true);
    assert_eq!(indice_captura_macos(false, "9", &ps, c.secundaria), "7");
}

#[test]
fn indices_de_captura() {
    let ps = vec![pantalla("4")];
    assert_eq!(indice_captura_macos(true, "9", &ps, true), "9");
    assert_eq!(indice_captura_macos(false, "9", &ps, true), "4");
    assert_eq!(indice_captura_macos(false, "9", &Vec::new(), true), "0");
    assert_eq!(indice_captura(false), "0");
    assert_eq!(indice_captura(true), "1");
}

#[test]
fn lo_acordado_se_captura_una_vez() {
    let ps = vec![pantalla("4"), pantalla("7")];
    let mut a = ArranquesCaptura::new("9".to_string());
    assert!(!a.usa_listado());
    assert_eq!(a.siguiente_indice_macos(&Vec::new(), true), "9");
    assert!(a.usa_listado());
    assert_eq!(a.siguiente_indice_macos(&ps, true), "7");
    assert_eq!(a.siguiente_indice_macos(&ps, false), "4");
    assert_eq!(a.siguiente_indice_macos(&Vec::new(), true), "0");
    assert!(a.usa_listado());
}

#[test]
fn sin_listado_se_ofrece_la_primera() {
    let opciones = opciones_sin_listado();
    assert_eq!(opciones, vec!["0".to_string()]);
    let indice = elegir_indice("5", Some(opciones[0].clone()));
    assert_eq!(indice, "0");
    assert!(!arranca_secundaria(&indice));
}

#[test]
fn opciones_del_codificador() {
    let a = argumentos_macos("3");
    assert_eq!(a.len(), 47);
    assert_eq!(a[10..12], ["-i".to_string(), "3:none".to_string()]);
    assert_eq!(a[0], "-nostdin");
    assert_eq!(a[46], "rtp://127.0.0.1:5004?pkt_size=1200&buffer_size=10485760");
    let b = argumentos_x11("1");
    assert_eq!(
        b.join(" "),
        "-nostdin -y -f x11grab -video_size 1280x720 -i 1 -r 60 -c:v h264_v4l2m2m -b:v 3M -pix_fmt yuv420p -f rtp -payload_type 96 rtp://127.0.0.1:5004?pkt_size=1200"
    );
}

#[test]
fn vida_del_codificador() {
    assert_eq!(paso_captura(EventoCaptura::FinDeSesion), AccionCaptura::Terminar);
    assert_eq!(paso_captura(EventoCaptura::Conmutada), AccionCaptura::Relanzar { matar: true, pausa_ms: 250 });
    assert_eq!(paso_captura(EventoCaptura::Parada), AccionCaptura::Relanzar { matar: false, pausa_ms: 250 });
}
