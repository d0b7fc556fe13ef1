//! Lo que la interfaz pide y lo que se le contesta.
use vstd::prelude::*;

verus! {

/// Lo que se arrastra: archivos, o datos sueltos con sus tipos MIME.
///
/// Las rutas se llevan como texto: llegan de la interfaz como cadenas JSON.
#[derive(Debug)]
pub enum DragItem {
    Files(Vec<String>),
    Data { data: SharedData, mime_types: Vec<String> },
}

/// Los datos de un arrastre de datos sueltos: un texto para todos los tipos, o
/// un texto por tipo.
///
/// El mapa se lleva como lista de pares clave-valor; quien lo arma desde un
/// mapa de verdad pone cada clave una sola vez (ver [`SharedData::claves_distintas`]).
#[derive(Debug)]
pub enum SharedData {
    Fixed(String),
    Mapa(Vec<(String, String)>),
}

/// Las vistas de los pares de un mapa de datos.
pub open spec fn vista_de_pares(v: Seq<(String, String)>) -> Seq<(Seq<char>, Seq<char>)> {
    v.map_values(|p: (String, String)| (p.0@, p.1@))
}

/// El texto que un mapa le da a un tipo: el valor de la primera entrada con esa
/// clave, o el texto vacío si no hay ninguna.
pub open spec fn texto_en_mapa(entradas: Seq<(Seq<char>, Seq<char>)>, tipo: Seq<char>) -> Seq<char>
    decreases entradas.len(),
{
    if entradas.len() == 0 {
        seq![]
    } else if entradas[0].0 == tipo {
        entradas[0].1
    } else {
        texto_en_mapa(entradas.drop_first(), tipo)
    }
}

impl SharedData {
    /// Ninguna clave aparece dos veces: es lo que tiene un mapa.
    pub open spec fn claves_distintas(&self) -> bool {
        match self {
            SharedData::Fixed(_) => true,
            SharedData::Mapa(m) => forall|i: int, j: int|
                0 <= i < j < m@.len() ==> #[trigger] m@[i].0@ != #[trigger] m@[j].0@,
        }
    }

    /// El texto que estos datos le dan a un tipo MIME.
    pub open spec fn texto_para(&self, tipo: Seq<char>) -> Seq<char> {
        match self {
            SharedData::Fixed(t) => t@,
            SharedData::Mapa(m) => texto_en_mapa(vista_de_pares(m@), tipo),
        }
    }
}

/// En una lista de pares sin claves repetidas, cada clave da su propio valor.
proof fn lema_clave_en_mapa(entradas: Seq<(Seq<char>, Seq<char>)>, k: int)
    requires
        0 <= k < entradas.len(),
        forall|i: int, j: int| 0 <= i < j < entradas.len() ==> #[trigger] entradas[i].0 != #[trigger] entradas[j].0,
    ensures
        texto_en_mapa(entradas, entradas[k].0) == entradas[k].1,
    decreases k,
{
    if k > 0 {
        let resto = entradas.drop_first();
        assert(entradas[0].0 != entradas[k].0);
        assert forall|i: int, j: int| 0 <= i < j < resto.len() implies #[trigger] resto[i].0 != #[trigger] resto[j].0 by {
            assert(resto[i] == entradas[i + 1] && resto[j] == entradas[j + 1]);
        }
        lema_clave_en_mapa(resto, k - 1);
    }
}

/// En un mapa de datos sin claves repetidas, cada tipo recibe el texto que el
/// mapa le asigna.
pub proof fn cada_clave_da_su_valor(data: SharedData, k: int)
    requires
        data.claves_distintas(),
        data matches SharedData::Mapa(m) && 0 <= k < m@.len(),
    ensures
        data matches SharedData::Mapa(m) && data.texto_para(m@[k].0@) == m@[k].1@,
{
    if let SharedData::Mapa(m) = data {
        let v = vista_de_pares(m@);
        assert forall|i: int, j: int| 0 <= i < j < v.len() implies #[trigger] v[i].0 != #[trigger] v[j].0 by {
            assert(m@[i].0@ != m@[j].0@);
        }
        lema_clave_en_mapa(v, k);
    }
}

/// Un tipo que no está en la lista de pares recibe el texto vacío.
proof fn lema_tipo_ausente(entradas: Seq<(Seq<char>, Seq<char>)>, tipo: Seq<char>)
    requires
        forall|i: int| 0 <= i < entradas.len() ==> #[trigger] entradas[i].0 != tipo,
    ensures
        texto_en_mapa(entradas, tipo) == Seq::<char>::empty(),
    decreases entradas.len(),
{
    if entradas.len() > 0 {
        let resto = entradas.drop_first();
        assert forall|i: int| 0 <= i < resto.len() implies #[trigger] resto[i].0 != tipo by {
            assert(resto[i] == entradas[i + 1]);
        }
        lema_tipo_ausente(resto, tipo);
    }
}

/// Un tipo que no está en el mapa de datos recibe el texto vacío, no la
/// ausencia.
pub proof fn tipo_ausente_da_vacio(data: SharedData, tipo: Seq<char>)
    requires
        data matches SharedData::Mapa(m) && forall|i: int| 0 <= i < m@.len() ==> #[trigger] m@[i].0@ != tipo,
    ensures
        data.texto_para(tipo) == Seq::<char>::empty(),
{
    if let SharedData::Mapa(m) = data {
        let v = vista_de_pares(m@);
        assert forall|i: int| 0 <= i < v.len() implies #[trigger] v[i].0 != tipo by {
            assert(m@[i].0@ != tipo);
        }
        lema_tipo_ausente(v, tipo);
    }
}

/// El icono del arrastre, tal como lo manda la interfaz.
#[derive(Debug)]
pub enum Image {
    Base64(String),
    Raw(String),
}

/// Qué pide quien arrastra: copiar o mover.
#[derive(Debug, Clone, Copy, PartialEq, Eq, Structural)]
pub enum DragMode {
    Copy,
    Move,
}

impl Default for DragMode {
    fn default() -> (r: Self)
        ensures
            r == DragMode::Copy,
    {
        DragMode::Copy
    }
}

/// Las opciones de un arrastre.
#[derive(Debug, Clone, Copy, PartialEq, Eq, Structural)]
pub struct DragOptions {
    pub mode: DragMode,
}

impl Default for DragOptions {
    fn default() -> (r: Self)
        ensures
            r.mode == DragMode::Copy,
    {
        DragOptions { mode: DragMode::Copy }
    }
}

/// Cómo terminó un arrastre.
#[derive(Debug, Clone, Copy, PartialEq, Eq, Structural)]
pub enum DragResult {
    Dropped,
    Cancelled,
}

/// El aviso del final de un arrastre.
///
/// La posición del cursor, que se informa siempre en el origen, la agrega quien
/// manda el aviso.
#[derive(Debug, Clone)]
pub struct CallbackResult {
    pub result: DragResult,
    /// La acción que negoció el destino, si fue copiar o mover.
    pub action: Option<String>,
    /// Si el destino pidió que se borre el original.
    pub source_should_delete: bool,
}

/// La vista de un texto optativo.
pub open spec fn vista_opcional(o: Option<String>) -> Option<Seq<char>> {
    match o {
        Some(s) => Some(s@),
        None => None,
    }
}

} // verus!
