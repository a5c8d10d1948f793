use guardian_agent::rtp::{sigue_reenvio, EventoReenvio, ReescritorRtp};

fn paquete(seq: u16, ts: u32, ssrc: u32, carga: &[u8]) -> Vec<u8> {
    let mut p = vec![0x80u8, 0x60];
    p.extend_from_slice(&seq.to_be_bytes());
    p.extend_from_slice(&ts.to_be_bytes());
    p.extend_from_slice(&ssrc.to_be_bytes());
    p.extend_from_slice(carga);
    p
}

#[test]
fn datagrama_vacio_no_sale() {
    let mut r = ReescritorRtp::new();
    assert_eq!(r.procesar(&[]), None);
}

#[test]
fn datagrama_corto_sale_igual() {
    let mut r = ReescritorRtp::new();
    let corto = [1u8, 2, 3, 4, 5, 6, 7, 8, 9, 10, 11];
    assert_eq!(r.procesar(&corto), Some(corto.to_vec()));
    let p = paquete(5, 6, 7, &[]);
    assert_eq!(r.procesar(&p), Some(p.clone()));
}

#[test]
fn primera_fuente_sale_intacta() {
    let mut r = ReescritorRtp::new();
    for i in 0..5u16 {
        let p = paquete(65533u16.wrapping_add(i), 90_000 + 3000 * i as u32, 0xDEAD_BEEF, &[i as u8, 9]);
        assert_eq!(r.procesar(&p), Some(p.clone()));
    }
}

#[test]
fn relevo_de_fuente_es_continuo() {
    let mut r = ReescritorRtp::new();
    r.procesar(&paquete(100, 1000, 1, &[1]));
    let salida = r.procesar(&paquete(40_000, 777, 2, &[2, 3])).unwrap();
    assert_eq!(salida, paquete(101, 4000, 1, &[2, 3]));
    let salida = r.procesar(&paquete(40_002, 877, 2, &[4])).unwrap();
    assert_eq!(salida, paquete(103, 4100, 1, &[4]));
    let salida = r.procesar(&paquete(5, 5, 3, &[])).unwrap();
    assert_eq!(salida, paquete(104, 7100, 1, &[]));
}

#[test]
fn relevo_da_la_vuelta() {
    let mut r = ReescritorRtp::new();
    r.procesar(&paquete(65535, 0xFFFF_FFFF, 9, &[]));
    let salida = r.procesar(&paquete(7, 7, 10, &[])).unwrap();
    assert_eq!(salida, paquete(0, 2999, 9, &[]));
}

#[test]
fn volver_a_la_primera_fuente_tambien_es_relevo() {
    let mut r = ReescritorRtp::new();
    r.procesar(&paquete(1, 10, 1, &[]));
    r.procesar(&paquete(50, 50, 2, &[]));
    let salida = r.procesar(&paquete(1, 10, 1, &[])).unwrap();
    assert_eq!(salida, paquete(3, 6010, 1, &[]));
}

#[test]
fn la_numeracion_no_tiene_huecos() {
    let mut r = ReescritorRtp::new();
    let entradas = [(10u16, 1u32), (11, 1), (900, 2), (901, 2), (902, 2), (3, 4), (4, 4)];
    let mut anterior: Option<u16> = None;
    for (seq, ssrc) in entradas {
        let q = r.procesar(&paquete(seq, 0, ssrc, &[])).unwrap();
        let s = u16::from_be_bytes([q[2], q[3]]);
        assert_eq!(&q[8..12], &1u32.to_be_bytes());
        if let Some(a) = anterior {
            assert_eq!(s, a.wrapping_add(1));
        }
        anterior = Some(s);
    }
}

#[test]
fn fin_del_reenvio() {
    assert!(sigue_reenvio(EventoReenvio::Enviado));
    assert!(sigue_reenvio(EventoReenvio::SinPaquete));
    assert!(!sigue_reenvio(EventoReenvio::FinDeSesion));
    assert!(!sigue_reenvio(EventoReenvio::LecturaFallida));
    assert!(!sigue_reenvio(EventoReenvio::EnvioFallido));
}
