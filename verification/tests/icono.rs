use drag_and_drop_wayland::icono::{fuente_decodificada, fuente_del_icono, ruta_absoluta, FuenteIcono};

#[test]
fn una_ruta_absoluta_a_un_archivo_se_lee() {
    assert!(matches!(fuente_del_icono("/usr/share/icons/x/32x32.png", true), FuenteIcono::Archivo));
}

#[test]
fn un_texto_en_base64_se_decodifica() {
    match fuente_del_icono("aG9sYQ==", false) {
        FuenteIcono::Datos(b) => assert_eq!(b, b"hola".to_vec()),
        otro => panic!("{otro:?}"),
    }
}

#[test]
fn una_ruta_que_no_es_archivo_se_intenta_como_base64() {
    // Una ruta absoluta que no existe no es base64 válido: no hay icono.
    assert!(matches!(fuente_del_icono("/no/existe/icono.png", false), FuenteIcono::Ninguna));
    assert!(matches!(fuente_del_icono("no-es-base64-ni-ruta!!", false), FuenteIcono::Ninguna));
}

#[test]
fn una_ruta_relativa_nunca_se_lee_como_archivo() {
    // Aunque exista, una relativa se intenta como base64.
    match fuente_del_icono("abcd", true) {
        FuenteIcono::Datos(b) => assert_eq!(b, vec![0x69, 0xb7, 0x1d]),
        otro => panic!("{otro:?}"),
    }
}

#[test]
fn un_texto_vacio_es_base64_vacio() {
    match fuente_del_icono("", false) {
        FuenteIcono::Datos(b) => assert!(b.is_empty()),
        otro => panic!("{otro:?}"),
    }
}

#[test]
fn una_ruta_es_absoluta_si_empieza_en_la_raiz() {
    assert!(ruta_absoluta("/tmp/x"));
    assert!(!ruta_absoluta("tmp/x"));
    assert!(!ruta_absoluta(""));
    assert!(!ruta_absoluta("~/x"));
}

#[test]
fn lo_decodificado_es_la_fuente() {
    match fuente_decodificada(Some(vec![1, 2, 3])) {
        FuenteIcono::Datos(b) => assert_eq!(b, vec![1, 2, 3]),
        otro => panic!("{otro:?}"),
    }
    assert!(matches!(fuente_decodificada(None), FuenteIcono::Ninguna));
}
