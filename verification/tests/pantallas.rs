use guardian_agent::pantallas::{
    completar_pantallas, contar_pantallas, es_legible, es_linea_de_pantalla, es_listado_legible, indices_capturados,
    leer_indice, obtener_indices_pantalla_macos, obtener_pantallas_reales_macos, pantallas_capturadas,
};
use guardian_agent::sesion::{
    arranca_secundaria, arranca_secundaria_macos, elegir_indice, elegir_indice_macos, opciones_de,
};
use guardian_agent::video::{detectar_pantallas_sistema, listado_en_orden, monitores_en_listado};

const LISTADO: &str = "\
[AVFoundation indev @ 0x7f8] AVFoundation video devices:
[AVFoundation indev @ 0x7f8] [0] FaceTime HD Camera
[AVFoundation indev @ 0x7f8] [1] Capture screen 0
[AVFoundation indev @ 0x7f8] [2] CAPTURE SCREEN 1
[AVFoundation indev @ 0x7f8] [1] Capture screen 0
[AVFoundation indev @ 0x7f8] [3] iPhone Capture screen
[AVFoundation indev @ 0x7f8] AVFoundation audio devices:
[AVFoundation indev @ 0x7f8] [9] Capture screen 9
";

fn pares(listado: Option<&str>, conteo: Option<&str>) -> Vec<(String, String)> {
    obtener_pantallas_reales_macos(listado.map(str::as_bytes), conteo.map(str::as_bytes))
        .unwrap()
        .into_iter()
        .map(|p| (p.avf_index, p.etiqueta))
        .collect()
}

fn par(a: &str, b: &str) -> (String, String) {
    (a.to_string(), b.to_string())
}

#[test]
fn listado_con_dos_pantallas() {
    assert_eq!(
        pares(Some(LISTADO), Some("7")),
        vec![
            par("1", "Monitor Principal (Pantalla 1) [AVF idx 1]"),
            par("2", "Monitor Externo (Pantalla 2) [AVF idx 2]"),
        ]
    );
    assert_eq!(
        obtener_indices_pantalla_macos(Some(LISTADO.as_bytes()), None),
        Some(vec!["1".to_string(), "2".to_string()])
    );
    assert_eq!(indices_capturados(LISTADO), vec!["1".to_string(), "2".to_string()]);
}

#[test]
fn sin_listado_se_cuenta() {
    assert_eq!(
        pares(None, Some(" 3\n")),
        vec![
            par("0", "Monitor Principal (Pantalla 1) [AVF idx 0]"),
            par("1", "Monitor Externo (Pantalla 2) [AVF idx 1]"),
            par("2", "Monitor Externo (Pantalla 3) [AVF idx 2]"),
        ]
    );
    let una = vec![par("0", "Monitor Principal (Pantalla 1) [AVF idx 0]")];
    assert_eq!(pares(None, None), una);
    assert_eq!(pares(Some("nada"), Some("muchas")), una);
    assert_eq!(pares(None, Some("0")), vec![]);
}

#[test]
fn conteo_de_pantallas() {
    assert_eq!(contar_pantallas(Some("\t2 ".to_string())), 2);
    assert_eq!(contar_pantallas(Some("-2".to_string())), 1);
    assert_eq!(contar_pantallas(None), 1);
    assert_eq!(completar_pantallas(vec!["4".to_string()], Some("9".to_string())).len(), 1);
}

#[test]
fn lineas_de_pantalla() {
    assert!(es_linea_de_pantalla("[x] [1] capture screen 0"));
    assert!(es_linea_de_pantalla("capture_screen"));
    assert!(!es_linea_de_pantalla("capture screen of an ipad"));
    assert!(!es_linea_de_pantalla("[x] [1] Capture screen 0"));
    assert_eq!(leer_indice("[x] [ 12 ] Capture"), Some("12".to_string()));
    assert_eq!(leer_indice("[x] [a] Capture"), None);
    assert_eq!(leer_indice("[x] [] Capture"), None);
    assert_eq!(leer_indice("[x] Capture"), None);
    assert_eq!(leer_indice("Capture"), None);
}

#[test]
fn corchetes_invertidos_no_se_leen() {
    assert!(!es_legible("[x] ] [1] capture screen"));
    assert!(es_legible("[x] [1] capture screen"));
    let malo = "[x] ] [1] Capture screen 0";
    assert!(!es_listado_legible(malo));
    assert!(pantallas_capturadas(Some(malo.as_bytes())).is_none());
    assert!(obtener_pantallas_reales_macos(Some(malo.as_bytes()), None).is_none());
    assert!(es_listado_legible("[x] ] [1] Mikrofon"));
}

#[test]
fn bytes_que_no_son_texto_se_reemplazan() {
    let mut b = b"[x] [4] Capture screen \xff".to_vec();
    b.extend_from_slice("\n[x] [5] Capture screen \u{212A}".as_bytes());
    assert_eq!(pantallas_capturadas(Some(&b)), Some(vec!["4".to_string(), "5".to_string()]));
}

#[test]
fn minusculas_fuera_de_ascii() {
    // The line names an iPad with a non-ASCII capital elsewhere in it.
    let l = "[x] [4] Capture screen \u{C1}REA IPAD";
    assert_eq!(pantallas_capturadas(Some(l.as_bytes())), Some(vec![]));
}

#[test]
fn se_captura_la_pantalla_elegida() {
    let ps = obtener_pantallas_reales_macos(Some(LISTADO.as_bytes()), None).unwrap();
    let opciones = opciones_de(&ps);
    assert_eq!(opciones.len(), 2);
    assert_eq!(elegir_indice_macos("0", &ps, Some(opciones[0].clone())), "1");
    assert_eq!(elegir_indice_macos("0", &ps, Some(opciones[1].clone())), "2");
    assert_eq!(elegir_indice_macos("0", &ps, Some("otra".to_string())), "0");
    assert_eq!(elegir_indice_macos("0", &ps, None), "0");
    assert_eq!(elegir_indice("0", Some("3".to_string())), "3");
    assert_eq!(elegir_indice("0", None), "0");
    assert!(!arranca_secundaria_macos("1", &ps));
    assert!(arranca_secundaria_macos("2", &ps));
    assert!(!arranca_secundaria_macos("2", &Vec::new()));
    assert!(!arranca_secundaria("0"));
    assert!(arranca_secundaria("1"));
}

#[test]
fn monitores_del_sistema() {
    let t = "Display [7] antes\nAVFoundation video devices:\n[ 1 ] Capture screen 0 \n[2] Cam\nDisplay sin\n[3]DisplayLink X\nAVFoundation audio devices:\n[4] Display\n";
    let esperados = vec![par("1", "Capture screen 0"), par("3", "DisplayLink X")];
    assert!(listado_en_orden(t));
    assert_eq!(monitores_en_listado(t), esperados);
    assert_eq!(detectar_pantallas_sistema(Some(t.as_bytes())), Some(esperados));
}

#[test]
fn monitores_por_defecto_del_sistema() {
    let defecto = vec![par("1", "Pantalla por defecto / Principal"), par("0", "Pantalla secundaria")];
    assert_eq!(detectar_pantallas_sistema(None), Some(defecto.clone()));
    assert_eq!(detectar_pantallas_sistema(Some(b"")), Some(defecto.clone()));
    assert_eq!(detectar_pantallas_sistema(Some(b"[1] Display")), Some(defecto));
    let malo = "AVFoundation video devices:\n] [ Display";
    assert_eq!(detectar_pantallas_sistema(Some(malo.as_bytes())), None);
}
