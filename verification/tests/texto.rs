use guardian_agent::texto::{
    a_chars, a_decimal, buscar_char, buscar_texto, contiene_texto, dividir_lineas, empieza_por, iguales, leer_numero,
    quitar_apariciones, recortar, son_digitos,
};

#[test]
fn caracteres_en_orden() {
    assert_eq!(a_chars("añ✔"), vec!['a', 'ñ', '✔']);
    assert!(a_chars("").is_empty());
}

#[test]
fn igualdad_de_textos() {
    assert!(iguales("pong", "pong"));
    assert!(!iguales("pong", "ponga"));
    assert!(!iguales("pong", "pang"));
    assert!(iguales("", ""));
}

#[test]
fn busqueda_de_textos() {
    assert_eq!(buscar_texto("abcabc", "ca"), Some(2));
    assert_eq!(buscar_texto("ñabc", "abc"), Some(1));
    assert_eq!(buscar_texto("abc", "abcd"), None);
    assert_eq!(buscar_texto("abc", ""), Some(0));
    assert_eq!(buscar_texto("aaab", "aab"), Some(1));
    assert!(contiene_texto("[1] Capture screen 0", "Capture screen"));
    assert!(!contiene_texto("[1] Capture", "Capture screen"));
}

#[test]
fn busqueda_de_caracteres() {
    assert_eq!(buscar_char("x]y]", ']'), Some(1));
    assert_eq!(buscar_char("xy", ']'), None);
    assert!(empieza_por("COMMAND:X", "COMMAND:"));
    assert!(!empieza_por("XCOMMAND:", "COMMAND:"));
}

#[test]
fn lineas_como_las_de_la_biblioteca_estandar() {
    for s in ["", "a", "a\n", "a\nb", "a\r\nb\r", "\n\n", "\r\n", "a\r\rb\n", "x\ny\n\nz"] {
        let esperadas: Vec<String> = s.lines().map(String::from).collect();
        assert_eq!(dividir_lineas(s), esperadas);
    }
}

#[test]
fn recorte_como_el_de_la_biblioteca_estandar() {
    for s in ["", "  ", " a b ", "\t x\u{a0}\u{2003}", "\u{3000}ñ\u{85}", "x"] {
        assert_eq!(recortar(s), s.trim());
    }
    for u in 0..0x3100u32 {
        if let Some(c) = char::from_u32(u) {
            let s = format!("{}x{}", c, c);
            assert_eq!(recortar(&s), s.trim());
        }
    }
}

#[test]
fn quitar_todas_las_apariciones() {
    for (s, p) in [("aXbXc", "X"), ("aaaa", "aa"), ("abab", "ba"), ("x", "y"), ("", "y"), ("ñpñp", "p")] {
        assert_eq!(quitar_apariciones(s, p), s.replace(p, ""));
    }
}

#[test]
fn decimales_de_ida_y_vuelta() {
    for n in [0usize, 7, 10, 99, 100, 12345, usize::MAX] {
        assert_eq!(a_decimal(n), n.to_string());
        assert_eq!(leer_numero(&a_decimal(n)), Some(n));
    }
}

#[test]
fn lectura_de_numeros() {
    for s in ["", "+", "-", "-1", "+5", "007", "1x", " 1", "18446744073709551615", "18446744073709551616", "٣"] {
        assert_eq!(leer_numero(s), s.parse::<usize>().ok());
    }
    assert!(son_digitos("0123456789"));
    assert!(son_digitos(""));
    assert!(!son_digitos("12a"));
    assert!(!son_digitos("٣"));
}
