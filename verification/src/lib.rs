//! Arrastrar hacia afuera de una aplicación en Wayland: la lógica del arrastre,
//! verificada.
pub mod models;
pub mod uri;
pub mod commands;
pub mod icono;
pub mod arrastre;
pub mod widgets;
