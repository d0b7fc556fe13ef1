//! Qué se entrega en un arrastre, con qué tipos se ofrece y qué acciones se
//! negocian.
use vstd::prelude::*;
use vstd::string::*;

use crate::models::{vista_de_pares, vista_opcional, texto_en_mapa, DragItem, DragMode, SharedData};
use crate::uri::vistas;

verus! {

/// Lo que se identifica como `text/uri-list`.
pub const URI_TARGET_ID: u32 = 0;

/// Lo que se identifica como texto plano.
pub const TEXT_TARGET_ID: u32 = 1;

/// El primer identificador para los tipos MIME propios de un arrastre de datos.
pub const PRIMER_TARGET_PROPIO: u32 = 2;

/// Lo que se va a entregar cuando el destino lo pida.
#[derive(Debug, Clone)]
pub enum Contenido {
    /// Archivos: los URIs codificados para `text/uri-list` **y** las rutas tal
    /// cual para `text/plain`, alineados: `uris[i]` es el URI de `rutas[i]`.
    Uris { uris: Vec<String>, rutas: Vec<String> },
    /// Datos sueltos: para cada identificador, su tipo MIME y su texto.
    Datos(Vec<(u32, String, String)>),
}

/// La vista de un [`Contenido`].
pub enum VistaContenido {
    Uris { uris: Seq<Seq<char>>, rutas: Seq<Seq<char>> },
    Datos(Seq<(u32, Seq<char>, Seq<char>)>),
}

/// Las vistas de las entradas de un contenido de datos.
pub open spec fn vista_de_entradas(e: Seq<(u32, String, String)>) -> Seq<(u32, Seq<char>, Seq<char>)> {
    e.map_values(|x: (u32, String, String)| (x.0, x.1@, x.2@))
}

impl View for Contenido {
    type V = VistaContenido;

    open spec fn view(&self) -> VistaContenido {
        match self {
            Contenido::Uris { uris, rutas } => VistaContenido::Uris {
                uris: vistas(uris@),
                rutas: vistas(rutas@),
            },
            Contenido::Datos(e) => VistaContenido::Datos(vista_de_entradas(e@)),
        }
    }
}

/// Los pares (URI, ruta) de las rutas entre las primeras `n` que dieron un URI,
/// en el orden en que llegaron.
pub open spec fn validas(rutas: Seq<Seq<char>>, uris: Seq<Option<Seq<char>>>, n: nat) -> Seq<(Seq<char>, Seq<char>)>
    decreases n,
{
    if n == 0 {
        seq![]
    } else {
        let antes = validas(rutas, uris, (n - 1) as nat);
        match uris[n - 1] {
            Some(u) => antes.push((u, rutas[n - 1])),
            None => antes,
        }
    }
}

/// Las vistas de los URIs optativos.
pub open spec fn vistas_opcionales(v: Seq<Option<String>>) -> Seq<Option<Seq<char>>> {
    v.map_values(|o: Option<String>| vista_opcional(o))
}

/// Las entradas de un arrastre de datos: cada tipo pedido, en orden, con su
/// identificador propio y su texto.
pub open spec fn datos_de(data: SharedData, tipos: Seq<Seq<char>>) -> Seq<(u32, Seq<char>, Seq<char>)> {
    Seq::new(
        tipos.len(),
        |i: int| ((PRIMER_TARGET_PROPIO + i) as u32, tipos[i], data.texto_para(tipos[i])),
    )
}

/// El contenido que corresponde a lo pedido, dados los URIs que dieron las rutas.
pub open spec fn contenido_esperado(item: DragItem, uris_de_rutas: Seq<Option<String>>) -> VistaContenido {
    match item {
        DragItem::Files(rutas) => {
            let pares = validas(vistas(rutas@), vistas_opcionales(uris_de_rutas), rutas@.len());
            VistaContenido::Uris {
                uris: pares.map_values(|p: (Seq<char>, Seq<char>)| p.0),
                rutas: pares.map_values(|p: (Seq<char>, Seq<char>)| p.1),
            }
        },
        DragItem::Data { data, mime_types } => VistaContenido::Datos(datos_de(data, vistas(mime_types@))),
    }
}

/// El texto que un mapa de datos le da a un tipo.
fn texto_de_mapa(m: &Vec<(String, String)>, tipo: &String) -> (r: String)
    ensures
        r@ == texto_en_mapa(vista_de_pares(m@), tipo@),
{
    let ghost v = vista_de_pares(m@);
    let mut i: usize = 0;
    assert(v.skip(0) =~= v);
    while i < m.len()
        invariant
            i <= m@.len(),
            v == vista_de_pares(m@),
            texto_en_mapa(v, tipo@) == texto_en_mapa(v.skip(i as int), tipo@),
        decreases m@.len() - i,
    {
        assert(v.skip(i as int)[0] == v[i as int]);
        if m[i].0 == *tipo {
            return m[i].1.clone();
        }
        assert(v.skip(i as int).drop_first() =~= v.skip(i + 1));
        i = i + 1;
    }
    String::new()
}

/// Convierte lo que pidió la interfaz en lo que se va a entregar.
///
/// `uris_de_rutas[i]` es el URI `file://` de `rutas[i]`, o nada si la ruta no da
/// uno (ver `de_ruta`): una ruta sin URI se descarta sin llevarse las demás. Los
/// datos sueltos se entregan de verdad, cada tipo con su identificador propio.
pub fn contenido_de(item: DragItem, uris_de_rutas: Vec<Option<String>>) -> (r: Contenido)
    requires
        item matches DragItem::Files(rutas) ==> uris_de_rutas@.len() == rutas@.len(),
        item matches DragItem::Data { mime_types, .. } ==> mime_types@.len() <= u32::MAX - 1,
    ensures
        r@ == contenido_esperado(item, uris_de_rutas@),
{
    let ghost original = item;
    match item {
        DragItem::Files(rutas) => {
            let ghost vr = vistas(rutas@);
            let ghost vu = vistas_opcionales(uris_de_rutas@);
            let mut uris: Vec<String> = Vec::new();
            let mut buenas: Vec<String> = Vec::new();
            let mut i: usize = 0;
            while i < rutas.len()
                invariant
                    i <= rutas@.len(),
                    rutas@.len() == uris_de_rutas@.len(),
                    vr == vistas(rutas@),
                    vu == vistas_opcionales(uris_de_rutas@),
                    vistas(uris@) == validas(vr, vu, i as nat).map_values(|p: (Seq<char>, Seq<char>)| p.0),
                    vistas(buenas@) == validas(vr, vu, i as nat).map_values(|p: (Seq<char>, Seq<char>)| p.1),
                decreases rutas@.len() - i,
            {
                let ghost antes = validas(vr, vu, i as nat);
                match &uris_de_rutas[i] {
                    Some(u) => {
                        let ghost u0 = uris@;
                        let ghost b0 = buenas@;
                        uris.push(u.clone());
                        buenas.push(rutas[i].clone());
                        proof {
                            assert(vu[i as int] == Some(u@));
                            let ahora = antes.push((u@, vr[i as int]));
                            assert(validas(vr, vu, (i + 1) as nat) == ahora);
                            assert(uris@ == u0.push(*u));
                            assert(buenas@ == b0.push(rutas@[i as int]));
                            assert(vistas(uris@) =~= vistas(u0).push(u@));
                            assert(vistas(buenas@) =~= vistas(b0).push(vr[i as int]));
                            assert(ahora.map_values(|p: (Seq<char>, Seq<char>)| p.0)
                                =~= antes.map_values(|p: (Seq<char>, Seq<char>)| p.0).push(u@));
                            assert(ahora.map_values(|p: (Seq<char>, Seq<char>)| p.1)
                                =~= antes.map_values(|p: (Seq<char>, Seq<char>)| p.1).push(vr[i as int]));
                        }
                    },
                    None => {
                        proof {
                            assert(vu[i as int] is None);
                            assert(validas(vr, vu, (i + 1) as nat) == antes);
                        }
                    },
                }
                i = i + 1;
            }
            Contenido::Uris { uris, rutas: buenas }
        },
        DragItem::Data { data, mime_types } => {
            let ghost tipos = vistas(mime_types@);
            let mut entradas: Vec<(u32, String, String)> = Vec::new();
            let mut i: usize = 0;
            while i < mime_types.len()
                invariant
                    i <= mime_types@.len(),
                    mime_types@.len() <= u32::MAX - 1,
                    tipos == vistas(mime_types@),
                    entradas@.len() == i,
                    forall|j: int| 0 <= j < i ==> #[trigger] vista_de_entradas(entradas@)[j]
                        == datos_de(data, tipos)[j],
                decreases mime_types@.len() - i,
            {
                let texto = match &data {
                    SharedData::Fixed(t) => t.clone(),
                    SharedData::Mapa(m) => texto_de_mapa(m, &mime_types[i]),
                };
                let id: u32 = PRIMER_TARGET_PROPIO + i as u32;
                let ghost e0 = entradas@;
                assert(texto@ == data.texto_para(tipos[i as int]));
                entradas.push((id, mime_types[i].clone(), texto));
                proof {
                    assert forall|j: int| 0 <= j < i + 1 implies #[trigger] vista_de_entradas(entradas@)[j]
                        == datos_de(data, tipos)[j] by {
                        if j < i {
                            assert(entradas@[j] == e0[j]);
                            assert(vista_de_entradas(e0)[j] == datos_de(data, tipos)[j]);
                        } else {
                            assert(tipos[j] == mime_types@[j]@);
                        }
                    }
                }
                i = i + 1;
            }
            assert(vista_de_entradas(entradas@) =~= datos_de(data, tipos));
            Contenido::Datos(entradas)
        },
    }
}

/// Los identificadores propios de un arrastre de datos no chocan con los de
/// archivos ni entre sí: si un tipo propio reusara el de `text/uri-list`, el
/// destino pediría archivos y recibiría texto.
pub proof fn identificadores_propios_no_chocan(data: SharedData, tipos: Seq<Seq<char>>, i: int, j: int)
    requires
        tipos.len() <= u32::MAX - 1,
        0 <= i < tipos.len(),
        0 <= j < tipos.len(),
    ensures
        datos_de(data, tipos)[i].0 != URI_TARGET_ID,
        datos_de(data, tipos)[i].0 != TEXT_TARGET_ID,
        i != j ==> datos_de(data, tipos)[i].0 != datos_de(data, tipos)[j].0,
{
}

/// Una ruta que da URI nunca se pierde por otra que no lo da: su par (URI,
/// ruta) está entre los entregados.
pub proof fn ruta_con_uri_se_entrega(
    rutas: Seq<Seq<char>>,
    uris: Seq<Option<Seq<char>>>,
    n: nat,
    j: int,
)
    requires
        n <= rutas.len(),
        n <= uris.len(),
        0 <= j < n,
        uris[j] is Some,
    ensures
        validas(rutas, uris, n).contains((uris[j]->0, rutas[j])),
    decreases n,
{
    let antes = validas(rutas, uris, (n - 1) as nat);
    if j == n - 1 {
        let ahora = antes.push((uris[j]->0, rutas[j]));
        assert(ahora[ahora.len() - 1] == (uris[j]->0, rutas[j]));
    } else {
        ruta_con_uri_se_entrega(rutas, uris, (n - 1) as nat, j);
        let k = choose|k: int| 0 <= k < antes.len() && antes[k] == (uris[j]->0, rutas[j]);
        match uris[n - 1] {
            Some(u) => {
                assert(antes.push((u, rutas[n - 1]))[k] == antes[k]);
            },
            None => {},
        }
    }
}

/// URIs y rutas quedan alineados: cada par entregado es el URI de una ruta
/// pedida junto con esa misma ruta, así que `text/plain` y `text/uri-list`
/// hablan del mismo archivo.
pub proof fn uris_y_rutas_alineados(
    rutas: Seq<Seq<char>>,
    uris: Seq<Option<Seq<char>>>,
    n: nat,
    k: int,
)
    requires
        n <= rutas.len(),
        n <= uris.len(),
        0 <= k < validas(rutas, uris, n).len(),
    ensures
        exists|j: int|
            0 <= j < n && uris[j] == Some(validas(rutas, uris, n)[k].0) && rutas[j] == validas(
                rutas,
                uris,
                n,
            )[k].1,
    decreases n,
{
    let antes = validas(rutas, uris, (n - 1) as nat);
    let par = validas(rutas, uris, n)[k];
    if k < antes.len() {
        match uris[n - 1] {
            Some(u) => {
                assert(antes.push((u, rutas[n - 1]))[k] == antes[k]);
            },
            None => {},
        }
        uris_y_rutas_alineados(rutas, uris, (n - 1) as nat, k);
        let j = choose|j: int| 0 <= j < n - 1 && uris[j] == Some(antes[k].0) && rutas[j] == antes[k].1;
        assert(0 <= j < n && uris[j] == Some(par.0) && rutas[j] == par.1);
    } else {
        let j = n - 1;
        assert(0 <= j < n && uris[j] == Some(par.0) && rutas[j] == par.1);
    }
}

/// Los tipos que se ofrecen al destino, con su identificador.
pub open spec fn objetivos(c: VistaContenido) -> Seq<(Seq<char>, u32)> {
    match c {
        VistaContenido::Uris { .. } => seq![
            ("text/uri-list"@, URI_TARGET_ID),
            ("text/plain"@, TEXT_TARGET_ID),
            ("text/plain;charset=utf-8"@, TEXT_TARGET_ID),
        ],
        VistaContenido::Datos(e) => e.map_values(|x: (u32, Seq<char>, Seq<char>)| (x.1, x.0)),
    }
}

/// En un arrastre de datos, el objetivo `k` es la entrada `k` misma: su propio
/// tipo MIME bajo su propio identificador, uno por entrada.
pub proof fn cada_entrada_se_ofrece(e: Seq<(u32, Seq<char>, Seq<char>)>, k: int)
    requires
        0 <= k < e.len(),
    ensures
        objetivos(VistaContenido::Datos(e)).len() == e.len(),
        objetivos(VistaContenido::Datos(e))[k] == (e[k].1, e[k].0),
{
}

/// Los objetivos de un arrastre de datos son los tipos pedidos, en orden, cada
/// uno con su identificador propio.
pub proof fn se_ofrecen_los_tipos_pedidos(
    data: SharedData,
    mime_types: Vec<String>,
    uris_de_rutas: Seq<Option<String>>,
    k: int,
)
    requires
        mime_types@.len() <= u32::MAX - 1,
        0 <= k < mime_types@.len(),
    ensures
        objetivos(contenido_esperado(DragItem::Data { data, mime_types }, uris_de_rutas)).len()
            == mime_types@.len(),
        objetivos(contenido_esperado(DragItem::Data { data, mime_types }, uris_de_rutas))[k]
            == (mime_types@[k]@, (PRIMER_TARGET_PROPIO + k) as u32),
{
}

/// La primera entrada con una clave da su valor.
proof fn lema_primera_clave(entradas: Seq<(Seq<char>, Seq<char>)>, k: int)
    requires
        0 <= k < entradas.len(),
        forall|j: int| 0 <= j < k ==> #[trigger] entradas[j].0 != entradas[k].0,
    ensures
        texto_en_mapa(entradas, entradas[k].0) == entradas[k].1,
    decreases k,
{
    if k > 0 {
        let resto = entradas.drop_first();
        assert(entradas[0].0 != entradas[k].0);
        assert forall|j: int| 0 <= j < k - 1 implies #[trigger] resto[j].0 != resto[k - 1].0 by {
            assert(resto[j] == entradas[j + 1]);
        }
        lema_primera_clave(resto, k - 1);
    }
}

/// Ninguna entrada con la clave: el texto vacío.
proof fn lema_sin_clave(entradas: Seq<(Seq<char>, Seq<char>)>, tipo: Seq<char>)
    requires
        forall|j: int| 0 <= j < entradas.len() ==> #[trigger] entradas[j].0 != tipo,
    ensures
        texto_en_mapa(entradas, tipo) == Seq::<char>::empty(),
    decreases entradas.len(),
{
    if entradas.len() > 0 {
        let resto = entradas.drop_first();
        assert forall|j: int| 0 <= j < resto.len() implies #[trigger] resto[j].0 != tipo by {
            assert(resto[j] == entradas[j + 1]);
        }
        lema_sin_clave(resto, tipo);
    }
}

/// Con un mapa de datos, el tipo pedido `i` recibe el valor guardado bajo su
/// propia clave (la primera con esa clave), no el de otra posición.
pub proof fn cada_tipo_recibe_el_valor_de_su_clave(
    m: Vec<(String, String)>,
    mime_types: Vec<String>,
    uris_de_rutas: Seq<Option<String>>,
    i: int,
    k: int,
)
    requires
        mime_types@.len() <= u32::MAX - 1,
        0 <= i < mime_types@.len(),
        0 <= k < m@.len(),
        m@[k].0@ == mime_types@[i]@,
        forall|j: int| 0 <= j < k ==> #[trigger] m@[j].0@ != mime_types@[i]@,
    ensures
        contenido_esperado(DragItem::Data { data: SharedData::Mapa(m), mime_types }, uris_de_rutas)
            matches VistaContenido::Datos(e) && e.len() == mime_types@.len() && e[i] == (
            (PRIMER_TARGET_PROPIO + i) as u32,
            mime_types@[i]@,
            m@[k].1@,
        ),
{
    let v = vista_de_pares(m@);
    assert forall|j: int| 0 <= j < k implies #[trigger] v[j].0 != v[k].0 by {
        assert(m@[j].0@ != mime_types@[i]@);
    }
    lema_primera_clave(v, k);
}

/// Con un mapa de datos, un tipo pedido que no está entre las claves recibe el
/// texto vacío.
pub proof fn un_tipo_sin_clave_recibe_vacio(
    m: Vec<(String, String)>,
    mime_types: Vec<String>,
    uris_de_rutas: Seq<Option<String>>,
    i: int,
)
    requires
        mime_types@.len() <= u32::MAX - 1,
        0 <= i < mime_types@.len(),
        forall|j: int| 0 <= j < m@.len() ==> #[trigger] m@[j].0@ != mime_types@[i]@,
    ensures
        contenido_esperado(DragItem::Data { data: SharedData::Mapa(m), mime_types }, uris_de_rutas)
            matches VistaContenido::Datos(e) && e.len() == mime_types@.len() && e[i] == (
            (PRIMER_TARGET_PROPIO + i) as u32,
            mime_types@[i]@,
            Seq::<char>::empty(),
        ),
{
    let v = vista_de_pares(m@);
    assert forall|j: int| 0 <= j < v.len() implies #[trigger] v[j].0 != mime_types@[i]@ by {
        assert(m@[j].0@ != mime_types@[i]@);
    }
    lema_sin_clave(v, mime_types@[i]@);
}

/// Con un texto fijo, todos los tipos pedidos reciben ese texto.
pub proof fn todos_los_tipos_reciben_el_texto_fijo(
    t: String,
    mime_types: Vec<String>,
    uris_de_rutas: Seq<Option<String>>,
    i: int,
)
    requires
        mime_types@.len() <= u32::MAX - 1,
        0 <= i < mime_types@.len(),
    ensures
        contenido_esperado(DragItem::Data { data: SharedData::Fixed(t), mime_types }, uris_de_rutas)
            matches VistaContenido::Datos(e) && e.len() == mime_types@.len() && e[i] == (
            (PRIMER_TARGET_PROPIO + i) as u32,
            mime_types@[i]@,
            t@,
        ),
{
}

/// Las vistas de una lista de objetivos.
pub open spec fn vista_de_objetivos(v: Seq<(String, u32)>) -> Seq<(Seq<char>, u32)> {
    v.map_values(|x: (String, u32)| (x.0@, x.1))
}

/// Qué tipos se le ofrecen al destino, y con qué identificador cada uno.
///
/// A los archivos se les ofrece el texto además de los URIs: un campo de texto
/// o una terminal aceptan `text/plain` y no `text/uri-list`.
pub fn objetivos_de(contenido: &Contenido) -> (r: Vec<(String, u32)>)
    ensures
        vista_de_objetivos(r@) == objetivos(contenido@),
{
    match contenido {
        Contenido::Uris { .. } => {
            let mut r: Vec<(String, u32)> = Vec::new();
            r.push((String::from_str("text/uri-list"), URI_TARGET_ID));
            r.push((String::from_str("text/plain"), TEXT_TARGET_ID));
            r.push((String::from_str("text/plain;charset=utf-8"), TEXT_TARGET_ID));
            assert(vista_de_objetivos(r@) =~= objetivos(contenido@));
            r
        },
        Contenido::Datos(entradas) => {
            let ghost e = vista_de_entradas(entradas@);
            let mut r: Vec<(String, u32)> = Vec::new();
            let mut i: usize = 0;
            while i < entradas.len()
                invariant
                    i <= entradas@.len(),
                    e == vista_de_entradas(entradas@),
                    r@.len() == i,
                    forall|j: int| 0 <= j < i ==> #[trigger] vista_de_objetivos(r@)[j] == (e[j].1, e[j].0),
                decreases entradas@.len() - i,
            {
                let ghost r0 = r@;
                r.push((entradas[i].1.clone(), entradas[i].0));
                proof {
                    assert forall|j: int| 0 <= j < i + 1 implies #[trigger] vista_de_objetivos(r@)[j]
                        == (e[j].1, e[j].0) by {
                        if j < i {
                            assert(r@[j] == r0[j]);
                            assert(vista_de_objetivos(r0)[j] == (e[j].1, e[j].0));
                        }
                    }
                }
                i = i + 1;
            }
            assert(vista_de_objetivos(r@) =~= objetivos(contenido@));
            r
        },
    }
}

/// Las acciones de un arrastre, una por indicador, como las que negocian el
/// origen y el destino (`GdkDragAction`).
#[derive(Debug, Clone, Copy, PartialEq, Eq, Structural)]
pub struct Acciones {
    pub predeterminada: bool,
    pub copiar: bool,
    pub mover: bool,
    pub enlazar: bool,
    pub privada: bool,
    pub preguntar: bool,
}

impl Acciones {
    /// Ninguna acción.
    pub fn ninguna() -> (r: Acciones)
        ensures
            !r.predeterminada && !r.copiar && !r.mover && !r.enlazar && !r.privada && !r.preguntar,
    {
        Acciones {
            predeterminada: false,
            copiar: false,
            mover: false,
            enlazar: false,
            privada: false,
            preguntar: false,
        }
    }

    /// Sólo copiar.
    pub fn copia() -> (r: Acciones)
        ensures
            r == (Acciones { copiar: true, ..Acciones::vacia() }),
    {
        Acciones { copiar: true, ..Acciones::ninguna() }
    }

    /// Sólo mover.
    pub fn movimiento() -> (r: Acciones)
        ensures
            r == (Acciones { mover: true, ..Acciones::vacia() }),
    {
        Acciones { mover: true, ..Acciones::ninguna() }
    }

    /// Sólo enlazar.
    pub fn enlace() -> (r: Acciones)
        ensures
            r == (Acciones { enlazar: true, ..Acciones::vacia() }),
    {
        Acciones { enlazar: true, ..Acciones::ninguna() }
    }

    /// Sólo preguntar.
    pub fn pregunta() -> (r: Acciones)
        ensures
            r == (Acciones { preguntar: true, ..Acciones::vacia() }),
    {
        Acciones { preguntar: true, ..Acciones::ninguna() }
    }

    /// La vista de ninguna acción.
    pub open spec fn vacia() -> Acciones {
        Acciones {
            predeterminada: false,
            copiar: false,
            mover: false,
            enlazar: false,
            privada: false,
            preguntar: false,
        }
    }

    /// Las acciones de las dos.
    pub open spec fn spec_union(self, otra: Acciones) -> Acciones {
        Acciones {
            predeterminada: self.predeterminada || otra.predeterminada,
            copiar: self.copiar || otra.copiar,
            mover: self.mover || otra.mover,
            enlazar: self.enlazar || otra.enlazar,
            privada: self.privada || otra.privada,
            preguntar: self.preguntar || otra.preguntar,
        }
    }

    /// Las acciones de las dos.
    pub fn union(self, otra: Acciones) -> (r: Acciones)
        ensures
            r == self.spec_union(otra),
    {
        Acciones {
            predeterminada: self.predeterminada || otra.predeterminada,
            copiar: self.copiar || otra.copiar,
            mover: self.mover || otra.mover,
            enlazar: self.enlazar || otra.enlazar,
            privada: self.privada || otra.privada,
            preguntar: self.preguntar || otra.preguntar,
        }
    }

    /// Si todas las acciones de `otra` están en estas.
    pub open spec fn spec_contiene(self, otra: Acciones) -> bool {
        &&& otra.predeterminada ==> self.predeterminada
        &&& otra.copiar ==> self.copiar
        &&& otra.mover ==> self.mover
        &&& otra.enlazar ==> self.enlazar
        &&& otra.privada ==> self.privada
        &&& otra.preguntar ==> self.preguntar
    }

    /// Si todas las acciones de `otra` están en estas.
    pub fn contiene(&self, otra: Acciones) -> (r: bool)
        ensures
            r == self.spec_contiene(otra),
    {
        (!otra.predeterminada || self.predeterminada) && (!otra.copiar || self.copiar) && (
        !otra.mover || self.mover) && (!otra.enlazar || self.enlazar) && (!otra.privada
            || self.privada) && (!otra.preguntar || self.preguntar)
    }
}

/// Las acciones que se le ofrecen al destino: copiar y mover, ninguna otra.
pub open spec fn acciones_ofrecidas() -> Acciones {
    Acciones { copiar: true, mover: true, ..Acciones::vacia() }
}

/// La acción que corresponde a un modo: copiar o mover.
pub open spec fn accion_del_modo(modo: DragMode) -> Acciones {
    match modo {
        DragMode::Copy => Acciones { copiar: true, ..Acciones::vacia() },
        DragMode::Move => Acciones { mover: true, ..Acciones::vacia() },
    }
}

/// Lo que se le ofrece al destino: las acciones entre las que elige, y la que
/// se ofrece primero, como preferida.
#[derive(Debug, Clone, Copy, PartialEq, Eq, Structural)]
pub struct AccionesOfrecidas {
    pub acciones: Acciones,
    pub preferida: Acciones,
}

/// Las acciones que se le ofrecen al destino.
///
/// **Las dos siempre**, aunque quien llama pida una: en Wayland el destino elige
/// entre las que el origen ofrece, y si no hay ninguna en común el compositor
/// cancela el arrastre en lugar de entregarlo.
///
/// El modo pedido queda como el que se ofrece **primero**, que es lo que los
/// destinos suelen tomar por preferido.
pub fn acciones_de(modo: DragMode) -> (r: AccionesOfrecidas)
    ensures
        r.acciones == acciones_ofrecidas(),
        r.preferida == accion_del_modo(modo),
{
    let preferida = match modo {
        DragMode::Copy => Acciones::copia(),
        DragMode::Move => Acciones::movimiento(),
    };
    AccionesOfrecidas { acciones: Acciones::copia().union(Acciones::movimiento()), preferida }
}

/// La acción preferida es una de las ofrecidas, y es la que se pidió: copiar y
/// mover se distinguen.
pub proof fn la_preferida_se_ofrece(modo: DragMode)
    ensures
        acciones_ofrecidas().spec_contiene(accion_del_modo(modo)),
        accion_del_modo(modo).copiar <==> modo == DragMode::Copy,
        accion_del_modo(modo).mover <==> modo == DragMode::Move,
{
}

/// El nombre de la acción negociada: mover antes que copiar, y ninguno para las
/// demás.
pub open spec fn nombre_de(accion: Acciones) -> Option<Seq<char>> {
    if accion.mover {
        Some("move"@)
    } else if accion.copiar {
        Some("copy"@)
    } else {
        None
    }
}

/// El nombre de la acción que negoció el destino.
///
/// `MOVE` primero: si por algún motivo llegaran las dos, se informa la más
/// fuerte.
pub fn nombre_de_accion(accion: Acciones) -> (r: Option<&'static str>)
    ensures
        match r {
            Some(s) => nombre_de(accion) == Some(s@),
            None => nombre_de(accion) is None,
        },
{
    if accion.mover {
        Some("move")
    } else if accion.copiar {
        Some("copy")
    } else {
        None
    }
}

} // verus!
