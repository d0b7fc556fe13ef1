use drag_and_drop_wayland::uri::{lista, rutas_como_texto};

#[test]
fn la_lista_termina_en_crlf() {
    // Hay destinos que descartan la última línea si no lo tiene.
    let l = lista(&["file:///a".to_string(), "file:///b".to_string()]);
    assert_eq!(l, "file:///a\r\nfile:///b\r\n");
}

#[test]
fn una_lista_vacia_es_vacia() {
    // Y no un CRLF suelto, que se lee como un URI vacío.
    assert_eq!(lista(&[]), "");
}

#[test]
fn una_lista_de_un_uri_lleva_su_crlf() {
    assert_eq!(lista(&["file:///solo".to_string()]), "file:///solo\r\n");
}

#[test]
fn las_rutas_como_texto_van_una_por_linea() {
    let t = rutas_como_texto(&["/tmp/mi archivo.txt".to_string(), "/tmp/otro.png".to_string()]);
    assert_eq!(t, "/tmp/mi archivo.txt\n/tmp/otro.png");
}

#[test]
fn una_sola_ruta_como_texto_va_sin_salto_de_linea() {
    assert_eq!(rutas_como_texto(&["/a".to_string()]), "/a");
    assert_eq!(rutas_como_texto(&[]), "");
}

#[test]
fn la_lista_se_lee_de_vuelta() {
    let uris = vec!["file:///a".to_string(), String::new(), "file:///b%0A".to_string()];
    let l = lista(&uris);
    let leidas: Vec<String> = l.split_terminator("\r\n").map(String::from).collect();
    assert_eq!(leidas, uris);
}
