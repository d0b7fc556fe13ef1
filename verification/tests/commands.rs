use drag_and_drop_wayland::commands::{
    acciones_de, contenido_de, nombre_de_accion, objetivos_de, Acciones, Contenido,
    PRIMER_TARGET_PROPIO, TEXT_TARGET_ID, URI_TARGET_ID,
};
use drag_and_drop_wayland::models::{DragItem, DragMode, DragOptions, SharedData};

fn textos(v: &[&str]) -> Vec<String> {
    v.iter().map(|s| s.to_string()).collect()
}

fn datos(data: SharedData, tipos: &[&str]) -> DragItem {
    DragItem::Data { data, mime_types: textos(tipos) }
}

fn mapa(pares: &[(&str, &str)]) -> SharedData {
    SharedData::Mapa(pares.iter().map(|(k, v)| (k.to_string(), v.to_string())).collect())
}

#[test]
fn las_rutas_se_vuelven_uris_codificados() {
    // Los URIs son los que da `de_ruta` para cada ruta.
    let c = contenido_de(
        DragItem::Files(textos(&["/tmp/mi archivo.txt", "/tmp/otro.png"])),
        vec![
            Some("file:///tmp/mi%20archivo.txt".to_string()),
            Some("file:///tmp/otro.png".to_string()),
        ],
    );
    match c {
        Contenido::Uris { uris, rutas } => {
            assert_eq!(uris[0], "file:///tmp/mi%20archivo.txt");
            assert_eq!(uris[1], "file:///tmp/otro.png");
            // Y las rutas tal cual, que son las que van a `text/plain`.
            assert_eq!(rutas[0], "/tmp/mi archivo.txt");
        }
        otro => panic!("{otro:?}"),
    }
}

#[test]
fn una_ruta_que_no_da_uri_se_descarta_sin_llevarse_las_demas() {
    // Una relativa no da URI (`de_ruta` devuelve nada), pero perder el arrastre
    // entero por una sería peor.
    let c = contenido_de(
        DragItem::Files(textos(&["relativa.txt", "/tmp/buena.png"])),
        vec![None, Some("file:///tmp/buena.png".to_string())],
    );
    match c {
        Contenido::Uris { uris, rutas } => {
            assert_eq!(uris, vec!["file:///tmp/buena.png".to_string()]);
            // Las dos listas quedan alineadas.
            assert_eq!(rutas, vec!["/tmp/buena.png".to_string()]);
        }
        otro => panic!("{otro:?}"),
    }
}

#[test]
fn sin_rutas_no_hay_uris() {
    match contenido_de(DragItem::Files(vec![]), vec![]) {
        Contenido::Uris { uris, rutas } => {
            assert!(uris.is_empty());
            assert!(rutas.is_empty());
        }
        otro => panic!("{otro:?}"),
    }
}

#[test]
fn las_rutas_alineadas_conservan_el_orden() {
    let c = contenido_de(
        DragItem::Files(textos(&["/a", "b", "/c", "d", "/e"])),
        vec![
            Some("file:///a".to_string()),
            None,
            Some("file:///c".to_string()),
            None,
            Some("file:///e".to_string()),
        ],
    );
    match c {
        Contenido::Uris { uris, rutas } => {
            assert_eq!(uris, textos(&["file:///a", "file:///c", "file:///e"]));
            assert_eq!(rutas, textos(&["/a", "/c", "/e"]));
        }
        otro => panic!("{otro:?}"),
    }
}

#[test]
fn los_datos_sueltos_se_entregan_de_verdad() {
    let c = contenido_de(
        datos(SharedData::Fixed("hola".to_string()), &["text/plain", "text/html"]),
        vec![],
    );
    match c {
        Contenido::Datos(e) => {
            assert_eq!(e.len(), 2);
            assert_eq!(e[0], (PRIMER_TARGET_PROPIO, "text/plain".into(), "hola".into()));
            assert_eq!(e[1], (PRIMER_TARGET_PROPIO + 1, "text/html".into(), "hola".into()));
        }
        otro => panic!("{otro:?}"),
    }
}

#[test]
fn un_mapa_de_datos_le_da_a_cada_tipo_lo_suyo() {
    let c = contenido_de(
        datos(
            mapa(&[("text/plain", "llano"), ("text/html", "<b>rico</b>")]),
            &["text/plain", "text/html"],
        ),
        vec![],
    );
    match c {
        Contenido::Datos(e) => {
            assert_eq!(e[0].2, "llano");
            assert_eq!(e[1].2, "<b>rico</b>");
        }
        otro => panic!("{otro:?}"),
    }
}

#[test]
fn un_tipo_sin_datos_en_el_mapa_no_rompe_el_arrastre() {
    let c = contenido_de(
        datos(mapa(&[("text/plain", "llano")]), &["text/plain", "text/html"]),
        vec![],
    );
    match c {
        Contenido::Datos(e) => {
            assert_eq!(e[0].2, "llano");
            assert_eq!(e[1].2, "", "vacío, no ausente");
        }
        otro => panic!("{otro:?}"),
    }
}

#[test]
fn sin_tipos_no_hay_datos() {
    match contenido_de(datos(SharedData::Fixed("x".to_string()), &[]), vec![]) {
        Contenido::Datos(e) => assert!(e.is_empty()),
        otro => panic!("{otro:?}"),
    }
}

#[test]
fn los_identificadores_propios_no_chocan_con_los_de_archivos() {
    // Si un tipo propio reusara el identificador de `text/uri-list`, el destino
    // pediría archivos y `drag-data-get` le entregaría texto.
    let c = contenido_de(
        datos(SharedData::Fixed("x".to_string()), &["a/1", "a/2", "a/3", "a/4", "a/5"]),
        vec![],
    );
    let reservados = [URI_TARGET_ID, TEXT_TARGET_ID];
    for (mime, id) in objetivos_de(&c) {
        assert!(!reservados.contains(&id), "{mime} reusa el identificador {id}");
    }
}

#[test]
fn los_objetivos_de_archivos_incluyen_texto_para_quien_no_entiende_uris() {
    let objetivos = objetivos_de(&Contenido::Uris {
        uris: vec!["file:///a".into()],
        rutas: vec!["/a".into()],
    });
    let id_de = |n: &str| objetivos.iter().find(|(m, _)| m == n).map(|(_, i)| *i);
    assert_eq!(id_de("text/uri-list"), Some(URI_TARGET_ID));
    assert_eq!(id_de("text/plain"), Some(TEXT_TARGET_ID));
    assert_eq!(id_de("text/plain;charset=utf-8"), Some(TEXT_TARGET_ID));
}

#[test]
fn los_objetivos_de_datos_son_los_tipos_que_se_pidieron() {
    let c = contenido_de(
        datos(SharedData::Fixed("x".to_string()), &["application/x-vasak"]),
        vec![],
    );
    let objetivos = objetivos_de(&c);
    assert_eq!(objetivos, vec![("application/x-vasak".to_string(), PRIMER_TARGET_PROPIO)]);
    // Y no se ofrece `text/uri-list`, que prometería archivos que no hay.
    assert!(!objetivos.iter().any(|(m, _)| m == "text/uri-list"));
}

#[test]
fn los_objetivos_de_archivos_son_exactamente_tres() {
    let objetivos = objetivos_de(&Contenido::Uris { uris: vec![], rutas: vec![] });
    assert_eq!(
        objetivos,
        vec![
            ("text/uri-list".to_string(), 0),
            ("text/plain".to_string(), 1),
            ("text/plain;charset=utf-8".to_string(), 1),
        ]
    );
}

#[test]
fn se_ofrecen_copiar_y_mover_aunque_se_pida_una() {
    for modo in [DragMode::Copy, DragMode::Move] {
        let a = acciones_de(modo).acciones;
        assert!(a.contiene(Acciones::copia()), "falta copiar en {modo:?}");
        assert!(a.contiene(Acciones::movimiento()), "falta mover en {modo:?}");
    }
}

#[test]
fn no_se_ofrece_una_accion_que_no_sabemos_cumplir() {
    let a = acciones_de(DragMode::Copy).acciones;
    assert!(!a.contiene(Acciones::enlace()));
    assert!(!a.contiene(Acciones::pregunta()));
}

#[test]
fn las_acciones_ofrecidas_son_copiar_y_mover_y_nada_mas() {
    assert_eq!(acciones_de(DragMode::Move).acciones, Acciones::copia().union(Acciones::movimiento()));
    let a = acciones_de(DragMode::Copy).acciones;
    assert!(!a.predeterminada && !a.privada && !a.enlazar && !a.preguntar);
}

#[test]
fn el_modo_pedido_se_ofrece_primero() {
    let copiar = acciones_de(DragMode::Copy);
    assert_eq!(copiar.preferida, Acciones::copia());
    assert!(copiar.acciones.contiene(copiar.preferida));
    let mover = acciones_de(DragMode::Move);
    assert_eq!(mover.preferida, Acciones::movimiento());
    assert!(mover.acciones.contiene(mover.preferida));
    assert_eq!(copiar.acciones, mover.acciones);
}

#[test]
fn la_accion_informada_es_la_que_negocio_el_destino() {
    assert_eq!(nombre_de_accion(Acciones::copia()), Some("copy"));
    assert_eq!(nombre_de_accion(Acciones::movimiento()), Some("move"));
    assert_eq!(nombre_de_accion(Acciones::ninguna()), None);
}

#[test]
fn con_las_dos_puestas_se_informa_la_mas_fuerte() {
    assert_eq!(
        nombre_de_accion(Acciones::copia().union(Acciones::movimiento())),
        Some("move")
    );
}

#[test]
fn una_accion_que_no_ofrecemos_no_se_informa_como_nuestra() {
    assert_eq!(nombre_de_accion(Acciones::enlace()), None);
    assert_eq!(nombre_de_accion(Acciones::pregunta()), None);
}

#[test]
fn las_opciones_por_omision_piden_copiar() {
    assert_eq!(DragOptions::default().mode, DragMode::Copy);
    assert_eq!(DragMode::default(), DragMode::Copy);
}
