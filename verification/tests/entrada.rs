use guardian_agent::entrada::{
    interpretar, mapear_tecla, paso_entrada, secuencia_pegado, tras_copiar, AccionEntrada, CommandPayload,
    MonitorEntrada, PasoEntrada, Tecla,
};

fn cmd(event: &str) -> CommandPayload {
    CommandPayload {
        event: event.to_string(),
        button: String::new(),
        key: String::new(),
        text: String::new(),
        delta_x: 0,
        delta_y: 0,
    }
}

fn pulsar(tecla: Tecla, presionar: bool) -> AccionEntrada {
    AccionEntrada::Pulsar { tecla, presionar }
}

#[test]
fn nombres_de_teclas() {
    let casos = [
        ("Enter", Tecla::Return),
        ("Backspace", Tecla::Backspace),
        ("Tab", Tecla::Tab),
        ("Escape", Tecla::Escape),
        ("Space", Tecla::Space),
        (" ", Tecla::Space),
        ("ArrowUp", Tecla::UpArrow),
        ("ArrowDown", Tecla::DownArrow),
        ("ArrowLeft", Tecla::LeftArrow),
        ("ArrowRight", Tecla::RightArrow),
        ("Meta", Tecla::Meta),
        ("Command", Tecla::Meta),
        ("Shift", Tecla::Shift),
        ("Control", Tecla::Control),
        ("Alt", Tecla::Alt),
        ("a", Tecla::Unicode('a')),
        ("\u{7f}", Tecla::Unicode('\u{7f}')),
    ];
    for (nombre, tecla) in casos {
        assert_eq!(mapear_tecla(nombre), Some(tecla));
    }
    for nombre in ["", "ñ", "\u{80}", "ab", "enter", "F1"] {
        assert_eq!(mapear_tecla(nombre), None);
    }
}

#[test]
fn raton() {
    assert_eq!(interpretar(&cmd("mouse_move"), true), vec![AccionEntrada::MoverRaton { desplazada: true }]);
    assert_eq!(interpretar(&cmd("mouse_move"), false), vec![AccionEntrada::MoverRaton { desplazada: false }]);
    let mut c = cmd("mouse_down");
    assert_eq!(interpretar(&c, false), vec![AccionEntrada::Boton { derecho: false, presionar: true }]);
    c.button = "right".to_string();
    assert_eq!(interpretar(&c, false), vec![AccionEntrada::Boton { derecho: true, presionar: true }]);
    c.event = "mouse_up".to_string();
    assert_eq!(interpretar(&c, false), vec![AccionEntrada::Boton { derecho: true, presionar: false }]);
}

#[test]
fn rueda() {
    let mut c = cmd("scroll");
    assert!(interpretar(&c, false).is_empty());
    c.delta_x = -3;
    assert_eq!(interpretar(&c, false), vec![AccionEntrada::Rueda { cantidad: -3, vertical: false }]);
    c.delta_y = 2;
    assert_eq!(
        interpretar(&c, false),
        vec![
            AccionEntrada::Rueda { cantidad: 2, vertical: true },
            AccionEntrada::Rueda { cantidad: -3, vertical: false },
        ]
    );
}

#[test]
fn teclado() {
    let mut c = cmd("key_down");
    c.key = "Shift".to_string();
    assert_eq!(interpretar(&c, false), vec![pulsar(Tecla::Shift, true)]);
    c.event = "key_up".to_string();
    assert_eq!(interpretar(&c, false), vec![pulsar(Tecla::Shift, false)]);
    c.key = "x".to_string();
    assert!(interpretar(&c, false).is_empty());
    c.event = "key_down".to_string();
    assert_eq!(interpretar(&c, false), vec![AccionEntrada::Escribir { caracter: 'x' }]);
    c.key = "Desconocida".to_string();
    assert!(interpretar(&c, false).is_empty());
}

#[test]
fn portapapeles() {
    let mut c = cmd("clipboard_inject");
    c.text = "hola".to_string();
    assert_eq!(interpretar(&c, false), vec![AccionEntrada::Copiar { texto: "hola".to_string(), pegar: true }]);
    c.event = "clipboard_sync".to_string();
    assert_eq!(interpretar(&c, false), vec![AccionEntrada::Copiar { texto: "hola".to_string(), pegar: false }]);
    assert!(interpretar(&cmd("otra_cosa"), false).is_empty());
}

#[test]
fn pegado_segun_el_sistema() {
    for (macos, m) in [(true, Tecla::Meta), (false, Tecla::Control)] {
        assert_eq!(
            secuencia_pegado(macos),
            vec![
                AccionEntrada::Pausa { ms: 150 },
                pulsar(Tecla::Control, false),
                pulsar(Tecla::Meta, false),
                pulsar(Tecla::Shift, false),
                pulsar(m, true),
                pulsar(Tecla::Unicode('v'), true),
                AccionEntrada::Pausa { ms: 50 },
                pulsar(Tecla::Unicode('v'), false),
                pulsar(m, false),
            ]
        );
    }
}

#[test]
fn se_pega_solo_lo_copiado() {
    for macos in [true, false] {
        assert_eq!(tras_copiar(true, true, macos), secuencia_pegado(macos));
        assert!(tras_copiar(false, true, macos).is_empty());
        assert!(tras_copiar(true, false, macos).is_empty());
        assert!(tras_copiar(false, false, macos).is_empty());
    }
}

#[test]
fn comandos_tras_el_corte() {
    let mut m = MonitorEntrada::new(None, false);
    let c = cmd("mouse_down");
    match paso_entrada(&mut m, &c, false, true) {
        PasoEntrada::Ejecutar { reabrir, acciones } => {
            assert!(reabrir);
            assert_eq!(acciones, vec![AccionEntrada::Boton { derecho: false, presionar: true }]);
        }
        PasoEntrada::Terminar => panic!(),
    }
    match paso_entrada(&mut m, &cmd("mouse_move"), false, true) {
        PasoEntrada::Ejecutar { reabrir, acciones } => {
            assert!(!reabrir);
            assert_eq!(acciones, vec![AccionEntrada::MoverRaton { desplazada: true }]);
        }
        PasoEntrada::Terminar => panic!(),
    }
    assert!(matches!(paso_entrada(&mut m, &c, true, false), PasoEntrada::Terminar));
    assert!(m.secundaria);
}

#[test]
fn nada_queda_pulsado_tras_pegar() {
    for macos in [true, false] {
        let mut sujetas = vec![Tecla::Alt, Tecla::Shift, Tecla::Meta];
        for a in secuencia_pegado(macos) {
            if let AccionEntrada::Pulsar { tecla, presionar } = a {
                sujetas.retain(|t| *t != tecla);
                if presionar {
                    sujetas.push(tecla);
                }
            }
        }
        assert_eq!(sujetas, vec![Tecla::Alt]);
    }
}

#[test]
fn seguimiento_del_monitor() {
    let mut m = MonitorEntrada::new(None, false);
    assert_eq!((m.ancho, m.alto), (1920, 1080));
    assert!(!m.seguir(false));
    assert!(m.seguir(true));
    assert!(!m.seguir(true));
    m.medir(Some((800, 600)));
    assert_eq!((m.ancho, m.alto, m.secundaria), (800, 600, true));
    m.medir(None);
    assert_eq!((m.ancho, m.alto), (800, 600));
    assert_eq!(MonitorEntrada::new(Some((1, 2)), true).alto, 2);
}
