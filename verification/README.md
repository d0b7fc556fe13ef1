# drag_and_drop_wayland

Arrastrar hacia afuera de una aplicación Tauri en Wayland.

- `src/`: la lógica, verificada con Verus: qué se entrega en un arrastre
  (`commands`), el `text/uri-list` (`uri`), de dónde sale el icono (`icono`),
  el ciclo del arrastre y sus avisos (`arrastre`), la búsqueda de la vista web
  (`widgets`) y los tipos de la interfaz (`models`).
- `app/`: el plugin de Tauri: GTK, el canal hacia la interfaz, el disco, GLib
  para los URIs y los tipos con `serde`.
- `tests/`: pruebas de la biblioteca.
