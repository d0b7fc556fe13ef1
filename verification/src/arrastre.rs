//! El ciclo de un arrastre: se arma desde la interfaz, lo dispara el próximo
//! movimiento del ratón con el botón apretado, sirve los datos cuando el destino
//! los pide y avisa su final una sola vez.
//!
//! Aquí están las decisiones; quien tiene GTK y el canal hacia la interfaz las
//! ejecuta. `C` es el canal por el que se avisa e `I` el icono del arrastre:
//! se llevan sin mirarlos.
use vstd::prelude::*;
use vstd::string::*;

use crate::commands::{
    datos_de, objetivos, PRIMER_TARGET_PROPIO,
    nombre_de, nombre_de_accion, vista_de_entradas, Acciones, Contenido, VistaContenido,
    TEXT_TARGET_ID, URI_TARGET_ID,
};
use crate::models::{vista_opcional, CallbackResult, DragResult, SharedData};
use crate::uri::{rutas_como_texto, rutas_unidas, vistas};

verus! {

/// Un arrastre pedido por la interfaz, esperando el próximo movimiento del ratón.
pub struct Armado<C, I> {
    pub contenido: Contenido,
    pub icono: I,
    pub accion: Acciones,
    pub canal: C,
}

/// Un arrastre en curso, con lo que hay que entregar y a quién avisarle.
pub struct EnCurso<C> {
    pub contenido: Contenido,
    pub canal: C,
    /// Si ya se avisó el final. `drag-failed` y `drag-end` pueden llegar los dos.
    pub avisado: bool,
    /// Si llegó `drag-data-delete`, o sea si el destino pidió el borrado.
    pub piden_borrar: bool,
}

/// El estado de los arrastres de una ventana.
pub struct Arrastre<C, I> {
    pub armado: Option<Armado<C, I>>,
    pub en_curso: Option<EnCurso<C>>,
}

/// Lo que hace un movimiento del ratón.
pub enum Movimiento<C, I> {
    /// No había nada armado.
    Nada,
    /// El botón se soltó antes de arrancar: se avisa la cancelación por el canal.
    Perdido(C, CallbackResult),
    /// Hay que arrancar este arrastre.
    Listo(Armado<C, I>),
}

/// Lo que se le entrega al destino que pide datos.
#[derive(Debug)]
pub enum Entrega {
    /// Una lista de URIs, para `text/uri-list`.
    Uris(Vec<String>),
    /// Un texto.
    Texto(String),
}

/// La vista de una [`Entrega`].
pub enum VistaEntrega {
    Uris(Seq<Seq<char>>),
    Texto(Seq<char>),
}

impl View for Entrega {
    type V = VistaEntrega;

    open spec fn view(&self) -> VistaEntrega {
        match self {
            Entrega::Uris(u) => VistaEntrega::Uris(vistas(u@)),
            Entrega::Texto(t) => VistaEntrega::Texto(t@),
        }
    }
}

/// El nombre que se informa de una acción, si la hay.
pub open spec fn nombre_informado(accion: Option<Acciones>) -> Option<Seq<char>> {
    match accion {
        Some(a) => nombre_de(a),
        None => None,
    }
}

/// `m` avisa `resultado`, con el nombre de `accion` y el pedido de borrado.
pub open spec fn es_aviso(
    m: CallbackResult,
    resultado: DragResult,
    accion: Option<Acciones>,
    borrar: bool,
) -> bool {
    &&& m.result == resultado
    &&& vista_opcional(m.action) == nombre_informado(accion)
    &&& m.source_should_delete == borrar
}

/// `m` avisa una cancelación sin acción ni borrado.
pub open spec fn es_cancelacion(m: CallbackResult) -> bool {
    es_aviso(m, DragResult::Cancelled, None, false)
}

/// Avisar el final: sólo la primera vez, y sólo si hay un arrastre en curso.
pub open spec fn paso_avisar<C, I>(
    antes: Arrastre<C, I>,
    despues: Arrastre<C, I>,
    resultado: DragResult,
    accion: Option<Acciones>,
    m: Option<CallbackResult>,
) -> bool {
    match antes.en_curso {
        Some(c) => if c.avisado {
            despues == antes && m is None
        } else {
            &&& despues == Arrastre {
                armado: antes.armado,
                en_curso: Some(
                    EnCurso {
                        contenido: c.contenido,
                        canal: c.canal,
                        avisado: true,
                        piden_borrar: c.piden_borrar,
                    },
                ),
            }
            &&& m matches Some(x) && es_aviso(x, resultado, accion, c.piden_borrar)
        },
        None => despues == antes && m is None,
    }
}

/// Vence el armado: se saca y se avisa la cancelación por su canal.
pub open spec fn paso_vencer<C, I>(
    antes: Arrastre<C, I>,
    despues: Arrastre<C, I>,
    r: Option<(C, CallbackResult)>,
) -> bool {
    match antes.armado {
        Some(a) => {
            &&& despues == Arrastre::<C, I> { armado: None, en_curso: antes.en_curso }
            &&& r matches Some((canal, m)) && canal == a.canal && es_cancelacion(m)
        },
        None => despues == antes && r is None,
    }
}

/// Un movimiento del ratón: saca el armado; con el botón apretado lo arranca y
/// sin él lo cancela.
pub open spec fn paso_movimiento<C, I>(
    antes: Arrastre<C, I>,
    despues: Arrastre<C, I>,
    apretado: bool,
    r: Movimiento<C, I>,
) -> bool {
    match antes.armado {
        Some(a) => {
            &&& despues == Arrastre::<C, I> { armado: None, en_curso: antes.en_curso }
            &&& if apretado {
                r == Movimiento::Listo(a)
            } else {
                r matches Movimiento::Perdido(canal, m) && canal == a.canal && es_cancelacion(m)
            }
        },
        None => despues == antes && r is Nada,
    }
}

/// El destino pidió el borrado del original: se anota en el arrastre en curso.
pub open spec fn paso_borrado<C, I>(antes: Arrastre<C, I>, despues: Arrastre<C, I>) -> bool {
    match antes.en_curso {
        Some(c) => despues == Arrastre {
            armado: antes.armado,
            en_curso: Some(
                EnCurso {
                    contenido: c.contenido,
                    canal: c.canal,
                    avisado: c.avisado,
                    piden_borrar: true,
                },
            ),
        },
        None => despues == antes,
    }
}

/// El texto de la primera entrada con ese identificador.
pub open spec fn texto_por_id(e: Seq<(u32, Seq<char>, Seq<char>)>, id: u32) -> Option<Seq<char>>
    decreases e.len(),
{
    if e.len() == 0 {
        None
    } else if e[0].0 == id {
        Some(e[0].2)
    } else {
        texto_por_id(e.drop_first(), id)
    }
}

/// Lo que se entrega de un contenido para el objetivo `info`.
pub open spec fn entrega_de(c: VistaContenido, info: u32) -> Option<VistaEntrega> {
    match c {
        VistaContenido::Uris { uris, rutas } => if info == URI_TARGET_ID {
            Some(VistaEntrega::Uris(uris))
        } else if info == TEXT_TARGET_ID {
            Some(VistaEntrega::Texto(rutas_unidas(rutas)))
        } else {
            None
        },
        VistaContenido::Datos(e) => match texto_por_id(e, info) {
            Some(t) => Some(VistaEntrega::Texto(t)),
            None => None,
        },
    }
}

/// Lo que se entrega en este estado para el objetivo `info`.
pub open spec fn entrega<C, I>(s: Arrastre<C, I>, info: u32) -> Option<VistaEntrega> {
    match s.en_curso {
        Some(c) => entrega_de(c.contenido@, info),
        None => None,
    }
}

/// La vista de una entrega optativa.
pub open spec fn vista_de_entrega(e: Option<Entrega>) -> Option<VistaEntrega> {
    match e {
        Some(x) => Some(x@),
        None => None,
    }
}

/// Una copia de una lista de textos.
fn copiar_textos(v: &Vec<String>) -> (r: Vec<String>)
    ensures
        vistas(r@) == vistas(v@),
{
    let mut r: Vec<String> = Vec::new();
    let mut i: usize = 0;
    while i < v.len()
        invariant
            i <= v@.len(),
            r@.len() == i,
            forall|j: int| 0 <= j < i ==> #[trigger] r@[j]@ == v@[j]@,
        decreases v@.len() - i,
    {
        r.push(v[i].clone());
        i = i + 1;
    }
    assert(vistas(r@) =~= vistas(v@));
    r
}

/// El texto de la primera entrada con identificador `id`.
fn buscar_texto(e: &Vec<(u32, String, String)>, id: u32) -> (r: Option<String>)
    ensures
        vista_opcional(r) == texto_por_id(vista_de_entradas(e@), id),
{
    let ghost v = vista_de_entradas(e@);
    let mut i: usize = 0;
    assert(v.skip(0) =~= v);
    while i < e.len()
        invariant
            i <= e@.len(),
            v == vista_de_entradas(e@),
            texto_por_id(v, id) == texto_por_id(v.skip(i as int), id),
        decreases e@.len() - i,
    {
        assert(v.skip(i as int)[0] == v[i as int]);
        if e[i].0 == id {
            return Some(e[i].2.clone());
        }
        assert(v.skip(i as int).drop_first() =~= v.skip(i + 1));
        i = i + 1;
    }
    None
}

impl<C, I> Arrastre<C, I> {
    /// Sin nada armado ni en curso.
    pub fn new() -> (r: Self)
        ensures
            r.armado is None,
            r.en_curso is None,
    {
        Arrastre { armado: None, en_curso: None }
    }

    /// Arma un arrastre para que lo dispare el próximo movimiento del ratón. Un
    /// armado anterior que no llegó a dispararse se descarta.
    pub fn armar(&mut self, contenido: Contenido, icono: I, accion: Acciones, canal: C)
        ensures
            final(self).armado == Some(Armado { contenido, icono, accion, canal }),
            final(self).en_curso == old(self).en_curso,
    {
        self.armado = Some(Armado { contenido, icono, accion, canal });
    }

    /// El armado venció sin que llegara un movimiento: se cancela y se avisa.
    pub fn vencer(&mut self) -> (r: Option<(C, CallbackResult)>)
        ensures
            paso_vencer(*old(self), *final(self), r),
    {
        match self.armado.take() {
            Some(perdido) => Some(
                (
                    perdido.canal,
                    CallbackResult {
                        result: DragResult::Cancelled,
                        action: None,
                        source_should_delete: false,
                    },
                ),
            ),
            None => None,
        }
    }

    /// Un movimiento del ratón. Sin el botón apretado no hay agarre implícito y
    /// el compositor descartaría el arrastre: se cancela y se avisa.
    pub fn movimiento(&mut self, apretado: bool) -> (r: Movimiento<C, I>)
        ensures
            paso_movimiento(*old(self), *final(self), apretado, r),
    {
        if self.armado.is_none() {
            return Movimiento::Nada;
        }
        if !apretado {
            match self.vencer() {
                Some((canal, aviso)) => Movimiento::Perdido(canal, aviso),
                None => Movimiento::Nada,
            }
        } else {
            match self.armado.take() {
                Some(listo) => Movimiento::Listo(listo),
                None => Movimiento::Nada,
            }
        }
    }

    /// Arranca el arrastre listo: queda en curso, sin avisar y sin pedido de
    /// borrado. Devuelve la acción a ofrecer y el icono.
    pub fn arrancar(&mut self, listo: Armado<C, I>) -> (r: (Acciones, I))
        ensures
            final(self).armado == old(self).armado,
            final(self).en_curso == Some(
                EnCurso {
                    contenido: listo.contenido,
                    canal: listo.canal,
                    avisado: false,
                    piden_borrar: false,
                },
            ),
            r == (listo.accion, listo.icono),
    {
        let Armado { contenido, icono, accion, canal } = listo;
        self.en_curso = Some(EnCurso { contenido, canal, avisado: false, piden_borrar: false });
        (accion, icono)
    }

    /// El canal del arrastre en curso, por el que se mandan sus avisos.
    pub fn canal_en_curso(&self) -> (r: Option<&C>)
        ensures
            match self.en_curso {
                Some(c) => r == Some(&c.canal),
                None => r is None,
            },
    {
        match &self.en_curso {
            Some(c) => Some(&c.canal),
            None => None,
        }
    }

    /// Avisa el final del arrastre una sola vez.
    pub fn avisar(&mut self, resultado: DragResult, accion: Option<Acciones>) -> (m: Option<
        CallbackResult,
    >)
        ensures
            paso_avisar(*old(self), *final(self), resultado, accion, m),
    {
        match self.en_curso.take() {
            None => None,
            Some(c) => {
                if c.avisado {
                    self.en_curso = Some(c);
                    return None;
                }
                let EnCurso { contenido, canal, avisado, piden_borrar } = c;
                let action = match accion {
                    Some(a) => match nombre_de_accion(a) {
                        Some(n) => Some(String::from_str(n)),
                        None => None,
                    },
                    None => None,
                };
                self.en_curso = Some(EnCurso { contenido, canal, avisado: true, piden_borrar });
                Some(CallbackResult { result: resultado, action, source_should_delete: piden_borrar })
            },
        }
    }

    /// El destino pidió borrar el original: es la señal de que la entrega salió
    /// bien y de que el movimiento le toca al origen. Se anota y se informa al
    /// avisar el final.
    pub fn pedir_borrado(&mut self)
        ensures
            paso_borrado(*old(self), *final(self)),
    {
        match self.en_curso.take() {
            None => {},
            Some(c) => {
                let EnCurso { contenido, canal, avisado, piden_borrar } = c;
                self.en_curso = Some(EnCurso { contenido, canal, avisado, piden_borrar: true });
            },
        }
    }

    /// Suelta el arrastre en curso: terminó, o no llegó a empezar.
    pub fn soltar(&mut self)
        ensures
            final(self).armado == old(self).armado,
            final(self).en_curso is None,
    {
        self.en_curso = None;
    }

    /// Lo que se le entrega al destino que pide el objetivo `info`: los URIs
    /// para `text/uri-list`, las rutas tal cual para el texto plano, o el texto
    /// de un tipo propio. Nada si no hay arrastre en curso o el objetivo no es
    /// de este arrastre.
    pub fn datos_pedidos(&self, info: u32) -> (r: Option<Entrega>)
        ensures
            vista_de_entrega(r) == entrega(*self, info),
    {
        match &self.en_curso {
            None => None,
            Some(curso) => match &curso.contenido {
                Contenido::Uris { uris, rutas } => {
                    if info == URI_TARGET_ID {
                        Some(Entrega::Uris(copiar_textos(uris)))
                    } else if info == TEXT_TARGET_ID {
                        Some(Entrega::Texto(rutas_como_texto(rutas.as_slice())))
                    } else {
                        None
                    }
                },
                Contenido::Datos(entradas) => match buscar_texto(entradas, info) {
                    Some(t) => Some(Entrega::Texto(t)),
                    None => None,
                },
            },
        }
    }
}

/// La primera entrada con un identificador da su texto.
proof fn lema_texto_por_id(e: Seq<(u32, Seq<char>, Seq<char>)>, i: int)
    requires
        0 <= i < e.len(),
        forall|j: int| 0 <= j < i ==> #[trigger] e[j].0 != e[i].0,
    ensures
        texto_por_id(e, e[i].0) == Some(e[i].2),
    decreases i,
{
    if i > 0 {
        let resto = e.drop_first();
        assert forall|j: int| 0 <= j < i - 1 implies #[trigger] resto[j].0 != resto[i - 1].0 by {
            assert(resto[j] == e[j + 1]);
        }
        lema_texto_por_id(resto, i - 1);
    }
}

/// Alguna entrada con un identificador: hay texto para él.
proof fn lema_hay_texto_por_id(e: Seq<(u32, Seq<char>, Seq<char>)>, i: int)
    requires
        0 <= i < e.len(),
    ensures
        texto_por_id(e, e[i].0) is Some,
    decreases i,
{
    if i > 0 && e[0].0 != e[i].0 {
        lema_hay_texto_por_id(e.drop_first(), i - 1);
    }
}

/// El final de un arrastre se avisa una sola vez: después de un aviso, avisar
/// otra vez no manda nada y no cambia el estado.
pub proof fn avisa_una_sola_vez<C, I>(
    s0: Arrastre<C, I>,
    s1: Arrastre<C, I>,
    s2: Arrastre<C, I>,
    resultado1: DragResult,
    accion1: Option<Acciones>,
    m1: Option<CallbackResult>,
    resultado2: DragResult,
    accion2: Option<Acciones>,
    m2: Option<CallbackResult>,
)
    requires
        paso_avisar(s0, s1, resultado1, accion1, m1),
        paso_avisar(s1, s2, resultado2, accion2, m2),
    ensures
        m2 is None,
        s2 == s1,
{
}

/// Un armado se dispara una sola vez: después de un movimiento, otro movimiento
/// no hace nada y el plazo ya no vence.
pub proof fn armado_se_dispara_una_sola_vez<C, I>(
    s0: Arrastre<C, I>,
    s1: Arrastre<C, I>,
    s2: Arrastre<C, I>,
    s3: Arrastre<C, I>,
    apretado1: bool,
    r1: Movimiento<C, I>,
    apretado2: bool,
    r2: Movimiento<C, I>,
    vencido: Option<(C, CallbackResult)>,
)
    requires
        paso_movimiento(s0, s1, apretado1, r1),
        paso_movimiento(s1, s2, apretado2, r2),
        paso_vencer(s1, s3, vencido),
    ensures
        r2 is Nada,
        vencido is None,
{
}

/// Los datos se siguen sirviendo después de avisar el final y de anotar el
/// borrado: en Wayland el destino los pide **después** del drop.
pub proof fn datos_despues_del_aviso<C, I>(
    s0: Arrastre<C, I>,
    s1: Arrastre<C, I>,
    s2: Arrastre<C, I>,
    resultado: DragResult,
    accion: Option<Acciones>,
    m: Option<CallbackResult>,
    info: u32,
)
    requires
        paso_avisar(s0, s1, resultado, accion, m),
        paso_borrado(s1, s2),
    ensures
        entrega(s1, info) == entrega(s0, info),
        entrega(s2, info) == entrega(s0, info),
{
}

/// Un aviso sale sólo de un arrastre en curso no avisado, y dice lo que pasó:
/// el resultado dado, el nombre de la acción dada, y que se borre el original
/// exactamente cuando el destino lo pidió, sea cual sea el resultado o la acción.
pub proof fn el_aviso_dice_lo_que_paso<C, I>(
    s0: Arrastre<C, I>,
    s1: Arrastre<C, I>,
    resultado: DragResult,
    accion: Option<Acciones>,
    m: Option<CallbackResult>,
)
    requires
        paso_avisar(s0, s1, resultado, accion, m),
        m is Some,
    ensures
        s0.en_curso matches Some(c) && !c.avisado && m->0.source_should_delete == c.piden_borrar,
        m->0.result == resultado,
        vista_opcional(m->0.action) == nombre_informado(accion),
{
}

/// Sin pedido de borrado, ningún aviso pide borrar el original.
pub proof fn sin_pedido_no_se_borra<C, I>(
    s0: Arrastre<C, I>,
    s1: Arrastre<C, I>,
    resultado: DragResult,
    accion: Option<Acciones>,
    m: Option<CallbackResult>,
)
    requires
        paso_avisar(s0, s1, resultado, accion, m),
        s0.en_curso matches Some(c) && !c.piden_borrar,
    ensures
        m matches Some(x) ==> !x.source_should_delete,
{
}

/// Si el destino pidió el borrado antes del final, el aviso lo informa.
pub proof fn borrado_pedido_se_informa<C, I>(
    s0: Arrastre<C, I>,
    s1: Arrastre<C, I>,
    s2: Arrastre<C, I>,
    resultado: DragResult,
    accion: Option<Acciones>,
    m: Option<CallbackResult>,
)
    requires
        s0.en_curso matches Some(c) && !c.avisado,
        paso_borrado(s0, s1),
        paso_avisar(s1, s2, resultado, accion, m),
    ensures
        m matches Some(x) && x.source_should_delete && x.result == resultado,
{
}

/// Todo lo que se le ofrece al destino se le puede entregar.
pub proof fn lo_ofrecido_se_entrega(c: VistaContenido, k: int)
    requires
        0 <= k < objetivos(c).len(),
    ensures
        entrega_de(c, objetivos(c)[k].1) is Some,
{
    match c {
        VistaContenido::Uris { .. } => {},
        VistaContenido::Datos(e) => {
            lema_hay_texto_por_id(e, k);
        },
    }
}

/// En un arrastre de datos, el objetivo de cada tipo pedido entrega el texto de
/// ese tipo.
pub proof fn cada_tipo_recibe_lo_suyo(data: SharedData, tipos: Seq<Seq<char>>, i: int)
    requires
        tipos.len() <= u32::MAX - 1,
        0 <= i < tipos.len(),
    ensures
        entrega_de(VistaContenido::Datos(datos_de(data, tipos)), (PRIMER_TARGET_PROPIO + i) as u32)
            == Some(VistaEntrega::Texto(data.texto_para(tipos[i]))),
{
    let e = datos_de(data, tipos);
    assert forall|j: int| 0 <= j < i implies #[trigger] e[j].0 != e[i].0 by {}
    lema_texto_por_id(e, i);
}

} // verus!
