use drag_and_drop_wayland::models::{DragItem, Image, SharedData};

#[test]
fn los_datos_sueltos_se_aceptan() {
    // La API de JS ofrece `{ data, types }`: se arma un arrastre de datos.
    let d = DragItem::Data {
        data: SharedData::Fixed("hola".to_string()),
        mime_types: vec!["text/plain".to_string()],
    };
    assert!(matches!(d, DragItem::Data { .. }));
}

#[test]
fn un_icono_lleva_su_texto() {
    match Image::Raw("/usr/share/icons/x/32x32.png".to_string()) {
        Image::Raw(v) => assert!(v.starts_with('/')),
        Image::Base64(_) => panic!("variante cambiada"),
    }
}
