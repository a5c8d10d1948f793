use guardian_agent::alertas::{
    decidir_alerta, leer_alerta, paso_centinela, url_alertas, url_descarga, AccionAlerta, AccionCentinela, Centinela,
    EventoCentinela, FaseCentinela, Vigilante,
};
use guardian_agent::descarga::{directorio_descargas, AccionDescarga, Descarga, EventoDescarga, FaseDescarga};

fn t(s: &str) -> Option<String> {
    Some(s.to_string())
}

fn descargar(s: &str) -> AccionAlerta {
    AccionAlerta::Descargar { archivo: s.to_string() }
}

#[test]
fn decision_de_alertas() {
    assert_eq!(decidir_alerta(t("alert"), t("INCOMING_STREAM:a.bin")), Some(descargar("a.bin")));
    assert_eq!(decidir_alerta(t("clean"), t("INCOMING_STREAM:aINCOMING_STREAM:b")), Some(descargar("ab")));
    assert_eq!(decidir_alerta(t("alert"), t("COMMAND:CLEAN_STORAGE")), Some(AccionAlerta::Purgar));
    assert_eq!(decidir_alerta(t("clean"), t("COMMAND:CLEAN_STORAGE")), Some(AccionAlerta::Purgar));
    assert_eq!(decidir_alerta(t("alert"), t("COMMAND:CLEAN_STORAGE ")), None);
    assert_eq!(decidir_alerta(t("otro"), t("COMMAND:CLEAN_STORAGE")), None);
    assert_eq!(decidir_alerta(t("alert"), None), None);
    assert_eq!(decidir_alerta(None, t("COMMAND:CLEAN_STORAGE")), None);
}

#[test]
fn lineas_json() {
    assert_eq!(
        leer_alerta(r#"{"event":"alert","payload":"INCOMING_STREAM:informe.pdf"}"#),
        Some(descargar("informe.pdf"))
    );
    assert_eq!(leer_alerta(r#"{"event":"clean","payload":"COMMAND:CLEAN_STORAGE"}"#), Some(AccionAlerta::Purgar));
    assert_eq!(leer_alerta(r#"{"event":1,"payload":"COMMAND:CLEAN_STORAGE"}"#), None);
    assert_eq!(leer_alerta(r#"["event"]"#), None);
    assert_eq!(leer_alerta("data: {}"), None);
    assert_eq!(leer_alerta(""), None);
}

#[test]
fn el_troceado_no_importa() {
    let flujo = "{\"event\":\"alert\",\"payload\":\"INCOMING_STREAM:a\"}\nbasura\n{\"event\":\"clean\",\"payload\":\"COMMAND:CLEAN_STORAGE\"}\n{\"event\"";
    let mut c = Centinela::new();
    let todo = c.recibir(flujo.as_bytes());
    assert_eq!(todo, vec![descargar("a"), AccionAlerta::Purgar]);
    for n in 1..flujo.len() {
        let mut d = Centinela::new();
        let mut partes = d.recibir(&flujo.as_bytes()[..n]);
        partes.extend(d.recibir(&flujo.as_bytes()[n..]));
        assert_eq!(partes, todo);
    }
    assert_eq!(
        c.recibir_texto(":\"alert\",\"payload\":\"INCOMING_STREAM:z\"}\n"),
        vec![descargar("z")]
    );
}

#[test]
fn trozo_que_no_es_texto_se_descarta() {
    let mut c = Centinela::new();
    assert!(c.recibir(b"{\"event\":\"alert\",").is_empty());
    assert!(c.recibir(b"\xff\n").is_empty());
    assert_eq!(c.recibir(b"\"payload\":\"COMMAND:CLEAN_STORAGE\"}\n"), vec![AccionAlerta::Purgar]);
}

#[test]
fn el_centinela_no_termina() {
    let abrir = |pausa_s| AccionCentinela::Abrir { pausa_s };
    let mut f = FaseCentinela::Abriendo;
    assert_eq!(paso_centinela(&mut f, EventoCentinela::Fallida), abrir(5));
    assert_eq!(f, FaseCentinela::Abriendo);
    assert_eq!(paso_centinela(&mut f, EventoCentinela::Abierta), AccionCentinela::Leer);
    assert_eq!(f, FaseCentinela::Leyendo);
    assert_eq!(paso_centinela(&mut f, EventoCentinela::Trozo), AccionCentinela::Leer);
    assert_eq!(f, FaseCentinela::Leyendo);
    assert_eq!(paso_centinela(&mut f, EventoCentinela::Terminada), abrir(5));
    assert_eq!(f, FaseCentinela::Abriendo);
}

#[test]
fn las_conexiones_no_se_mezclan() {
    let (mut v, accion) = Vigilante::new();
    assert_eq!(accion, AccionCentinela::Abrir { pausa_s: 0 });
    assert_eq!(v.suceso(EventoCentinela::Abierta), AccionCentinela::Leer);
    let cola = b"\"payload\":\"COMMAND:CLEAN_STORAGE\"}\n";
    assert_eq!(v.recibir(b"{\"event\":\"alert\","), (vec![], AccionCentinela::Leer));
    assert_eq!(v.recibir(b"\xff"), (vec![], AccionCentinela::Leer));
    assert_eq!(v.recibir(cola), (vec![AccionAlerta::Purgar], AccionCentinela::Leer));
    assert_eq!(v.recibir(b"{\"event\":\"alert\","), (vec![], AccionCentinela::Leer));
    assert_eq!(v.suceso(EventoCentinela::Terminada), AccionCentinela::Abrir { pausa_s: 5 });
    assert_eq!(v.suceso(EventoCentinela::Fallida), AccionCentinela::Abrir { pausa_s: 5 });
    assert_eq!(v.suceso(EventoCentinela::Abierta), AccionCentinela::Leer);
    assert_eq!(v.recibir(cola), (vec![], AccionCentinela::Leer));
}

#[test]
fn direcciones_de_alertas() {
    assert_eq!(url_alertas("h:1", "s"), "http://h:1/api/watcher/stream-alerts/s");
    assert_eq!(url_descarga("h:1", "s", "f.bin"), "http://h:1/api/watcher/stream-download/s/f.bin");
}

#[test]
fn descarga_completa() {
    let (mut d, linea) = Descarga::new("f.bin");
    assert_eq!(linea, "[STREAM] Recibiendo y ensamblando binario: f.bin");
    assert_eq!(directorio_descargas(), "./guardian_downloads");
    assert_eq!(d.fase(), FaseDescarga::Solicitada);
    assert_eq!(
        d.paso(EventoDescarga::Aceptada),
        AccionDescarga::CrearArchivo { ruta: "./guardian_downloads/f.bin".to_string() }
    );
    assert_eq!(d.paso(EventoDescarga::ArchivoCreado), AccionDescarga::LeerTrozo);
    assert_eq!(d.paso(EventoDescarga::Trozo { bytes: 1000, escrito: true }), AccionDescarga::LeerTrozo);
    assert_eq!(d.paso(EventoDescarga::Trozo { bytes: 50, escrito: false }), AccionDescarga::LeerTrozo);
    assert_eq!(d.paso(EventoDescarga::Trozo { bytes: 24, escrito: true }), AccionDescarga::LeerTrozo);
    assert_eq!(d.fase(), FaseDescarga::Escribiendo { bytes_total: 1024 });
    assert_eq!(
        d.paso(EventoDescarga::Fin),
        AccionDescarga::Terminar { informe: "[STREAM] ✅ Archivo 'f.bin' guardado (1024 bytes).".to_string() }
    );
    assert_eq!(d.fase(), FaseDescarga::Terminada);
}

#[test]
fn descargas_fallidas() {
    let (mut d, _) = Descarga::new("f");
    assert_eq!(
        d.paso(EventoDescarga::Rechazada { status: "404 Not Found".to_string() }),
        AccionDescarga::Terminar { informe: "[ERROR] Servidor rechazó la descarga: 404 Not Found".to_string() }
    );
    let (mut d, _) = Descarga::new("f");
    assert_eq!(
        d.paso(EventoDescarga::SinConexion { error: "x".to_string() }),
        AccionDescarga::Terminar { informe: "[STREAM ERROR] Conexión interrumpida en f: x".to_string() }
    );
    let (mut d, _) = Descarga::new("f");
    d.paso(EventoDescarga::Aceptada);
    assert_eq!(
        d.paso(EventoDescarga::ArchivoFallido),
        AccionDescarga::Terminar { informe: "[ERROR] No se pudo crear el archivo local f".to_string() }
    );
}
