use drag_and_drop_wayland::arrastre::{Arrastre, Entrega, Movimiento};
use drag_and_drop_wayland::commands::{Acciones, Contenido, PRIMER_TARGET_PROPIO};
use drag_and_drop_wayland::models::DragResult;

fn archivos() -> Contenido {
    Contenido::Uris {
        uris: vec!["file:///tmp/a%20b".to_string(), "file:///tmp/c".to_string()],
        rutas: vec!["/tmp/a b".to_string(), "/tmp/c".to_string()],
    }
}

fn ofrecidas() -> Acciones {
    Acciones::copia().union(Acciones::movimiento())
}

#[test]
fn sin_armado_un_movimiento_no_hace_nada() {
    let mut e: Arrastre<u32, ()> = Arrastre::new();
    assert!(matches!(e.movimiento(true), Movimiento::Nada));
    assert!(e.vencer().is_none());
}

#[test]
fn sin_el_boton_apretado_se_cancela_y_se_avisa() {
    let mut e: Arrastre<u32, ()> = Arrastre::new();
    e.armar(archivos(), (), ofrecidas(), 7);
    match e.movimiento(false) {
        Movimiento::Perdido(canal, aviso) => {
            assert_eq!(canal, 7);
            assert_eq!(aviso.result, DragResult::Cancelled);
            assert_eq!(aviso.action, None);
            assert!(!aviso.source_should_delete);
        }
        _ => panic!("debía cancelarse"),
    }
    assert!(e.armado.is_none());
    // Ya no queda nada que disparar.
    assert!(matches!(e.movimiento(true), Movimiento::Nada));
}

#[test]
fn el_armado_vencido_se_cancela_una_vez() {
    let mut e: Arrastre<u32, ()> = Arrastre::new();
    e.armar(archivos(), (), ofrecidas(), 3);
    let (canal, aviso) = e.vencer().expect("vence");
    assert_eq!(canal, 3);
    assert_eq!(aviso.result, DragResult::Cancelled);
    assert!(e.vencer().is_none());
    assert!(matches!(e.movimiento(true), Movimiento::Nada));
}

#[test]
fn un_arrastre_completo_avisa_una_sola_vez() {
    let mut e: Arrastre<u32, &str> = Arrastre::new();
    e.armar(archivos(), "icono", ofrecidas(), 9);
    let listo = match e.movimiento(true) {
        Movimiento::Listo(l) => l,
        _ => panic!("debía dispararse"),
    };
    // El disparo no deja nada armado.
    assert!(e.vencer().is_none());
    let (accion, icono) = e.arrancar(listo);
    assert_eq!(accion, ofrecidas());
    assert_eq!(icono, "icono");
    assert_eq!(e.canal_en_curso(), Some(&9));

    // El destino pide los datos.
    match e.datos_pedidos(0) {
        Some(Entrega::Uris(u)) => assert_eq!(u, vec!["file:///tmp/a%20b".to_string(), "file:///tmp/c".to_string()]),
        otro => panic!("{otro:?}"),
    }
    match e.datos_pedidos(1) {
        Some(Entrega::Texto(t)) => assert_eq!(t, "/tmp/a b\n/tmp/c"),
        otro => panic!("{otro:?}"),
    }
    assert!(e.datos_pedidos(PRIMER_TARGET_PROPIO).is_none());

    // Pide el borrado, y termina.
    e.pedir_borrado();
    let aviso = e.avisar(DragResult::Dropped, Some(Acciones::movimiento())).expect("aviso");
    assert_eq!(aviso.result, DragResult::Dropped);
    assert_eq!(aviso.action.as_deref(), Some("move"));
    assert!(aviso.source_should_delete);

    // `drag-failed` después de `drag-end`: no se avisa otra vez.
    assert!(e.avisar(DragResult::Cancelled, Some(Acciones::copia())).is_none());

    // Los datos se siguen sirviendo después del aviso.
    assert!(matches!(e.datos_pedidos(1), Some(Entrega::Texto(_))));

    e.soltar();
    assert!(e.datos_pedidos(0).is_none());
    assert!(e.avisar(DragResult::Dropped, None).is_none());
}

#[test]
fn un_arrastre_cancelado_sin_borrado_lo_dice() {
    let mut e: Arrastre<u32, ()> = Arrastre::new();
    e.armar(archivos(), (), ofrecidas(), 1);
    let listo = match e.movimiento(true) {
        Movimiento::Listo(l) => l,
        _ => panic!("debía dispararse"),
    };
    e.arrancar(listo);
    let aviso = e.avisar(DragResult::Cancelled, Some(Acciones::copia())).expect("aviso");
    assert_eq!(aviso.result, DragResult::Cancelled);
    assert_eq!(aviso.action.as_deref(), Some("copy"));
    assert!(!aviso.source_should_delete);
}

#[test]
fn un_arrastre_que_no_arranca_avisa_sin_accion() {
    let mut e: Arrastre<u32, ()> = Arrastre::new();
    e.armar(archivos(), (), ofrecidas(), 1);
    if let Movimiento::Listo(l) = e.movimiento(true) {
        e.arrancar(l);
    }
    let aviso = e.avisar(DragResult::Cancelled, None).expect("aviso");
    assert_eq!(aviso.action, None);
    e.soltar();
    assert!(e.canal_en_curso().is_none());
}

#[test]
fn los_datos_sueltos_se_sirven_por_identificador() {
    let mut e: Arrastre<u32, ()> = Arrastre::new();
    let contenido = Contenido::Datos(vec![
        (2, "text/plain".to_string(), "llano".to_string()),
        (3, "text/html".to_string(), "<b>rico</b>".to_string()),
    ]);
    e.armar(contenido, (), ofrecidas(), 1);
    if let Movimiento::Listo(l) = e.movimiento(true) {
        e.arrancar(l);
    }
    match e.datos_pedidos(3) {
        Some(Entrega::Texto(t)) => assert_eq!(t, "<b>rico</b>"),
        otro => panic!("{otro:?}"),
    }
    assert!(e.datos_pedidos(0).is_none());
    assert!(e.datos_pedidos(4).is_none());
}

#[test]
fn sin_arrastre_en_curso_no_se_entregan_datos() {
    let e: Arrastre<u32, ()> = Arrastre::new();
    assert!(e.datos_pedidos(0).is_none());
}

#[test]
fn un_armado_nuevo_reemplaza_al_anterior() {
    let mut e: Arrastre<u32, ()> = Arrastre::new();
    e.armar(archivos(), (), ofrecidas(), 1);
    e.armar(archivos(), (), Acciones::copia(), 2);
    match e.movimiento(false) {
        Movimiento::Perdido(canal, _) => assert_eq!(canal, 2),
        _ => panic!("debía cancelarse"),
    }
}
