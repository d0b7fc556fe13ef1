//! Cómo se nombran los archivos que se arrastran.
use vstd::prelude::*;
use vstd::string::*;

verus! {

/// El separador de líneas de un `text/uri-list` (RFC 2483).
pub open spec fn crlf() -> Seq<char> {
    seq!['\r', '\n']
}

/// El cuerpo de un `text/uri-list`: cada URI seguido de su CRLF.
pub open spec fn cuerpo_de_lista(uris: Seq<Seq<char>>) -> Seq<char>
    decreases uris.len(),
{
    if uris.len() == 0 {
        seq![]
    } else {
        cuerpo_de_lista(uris.drop_last()) + uris.last() + crlf()
    }
}

/// Las vistas de una lista de cadenas.
pub open spec fn vistas(v: Seq<String>) -> Seq<Seq<char>> {
    v.map_values(|s: String| s@)
}

/// Un `text/uri-list` con algún URI termina en CRLF; uno sin URIs es vacío.
pub proof fn lista_termina_en_crlf(uris: Seq<Seq<char>>)
    ensures
        uris.len() == 0 ==> cuerpo_de_lista(uris) == Seq::<char>::empty(),
        uris.len() > 0 ==> {
            let c = cuerpo_de_lista(uris);
            c.len() >= 2 && c.subrange(c.len() - 2, c.len() as int) == crlf()
        },
{
    if uris.len() > 0 {
        let c = cuerpo_de_lista(uris);
        let previo = cuerpo_de_lista(uris.drop_last()) + uris.last();
        assert(c == previo + crlf());
        assert(c.subrange(c.len() - 2, c.len() as int) =~= crlf());
    }
}

/// La lista de dos tramos de URIs es la de uno seguida de la del otro: cada URI
/// ocupa su propia línea.
pub proof fn lista_de_la_concatenacion(a: Seq<Seq<char>>, b: Seq<Seq<char>>)
    ensures
        cuerpo_de_lista(a + b) == cuerpo_de_lista(a) + cuerpo_de_lista(b),
    decreases b.len(),
{
    if b.len() == 0 {
        assert(a + b =~= a);
    } else {
        lista_de_la_concatenacion(a, b.drop_last());
        assert((a + b).drop_last() =~= a + b.drop_last());
        assert((a + b).last() == b.last());
    }
}

/// La primera posición, desde `i`, donde empieza un CRLF; -1 si no hay.
pub open spec fn primer_crlf(c: Seq<char>, i: int) -> int
    decreases c.len() - i,
{
    if i < 0 || i + 1 >= c.len() {
        -1
    } else if c[i] == '\r' && c[i + 1] == '\n' {
        i
    } else {
        primer_crlf(c, i + 1)
    }
}

/// Un CRLF encontrado cabe entero en el texto.
pub proof fn lema_primer_crlf_rango(c: Seq<char>, i: int)
    ensures
        primer_crlf(c, i) == -1 || (0 <= i <= primer_crlf(c, i) && primer_crlf(c, i) + 1 < c.len()),
    decreases c.len() - i,
{
    if !(i < 0 || i + 1 >= c.len()) && !(c[i] == '\r' && c[i + 1] == '\n') {
        lema_primer_crlf_rango(c, i + 1);
    }
}

/// Las líneas de un cuerpo separado por CRLF, como las lee quien lo recibe: cada
/// CRLF termina una línea, y un último tramo sin CRLF es una línea más.
pub open spec fn leer_lista(c: Seq<char>) -> Seq<Seq<char>>
    decreases c.len(),
{
    if c.len() == 0 {
        seq![]
    } else {
        let k = primer_crlf(c, 0);
        proof {
            lema_primer_crlf_rango(c, 0);
        }
        if k < 0 {
            seq![c]
        } else {
            seq![c.take(k)] + leer_lista(c.skip(k + 2))
        }
    }
}

/// En `u + CRLF + resto`, con `u` sin CR, el primer CRLF está justo después de `u`.
proof fn lema_primer_crlf(u: Seq<char>, resto: Seq<char>, i: int)
    requires
        0 <= i <= u.len(),
        !u.contains('\r'),
    ensures
        primer_crlf(u + crlf() + resto, i) == u.len(),
    decreases u.len() - i,
{
    let c = u + crlf() + resto;
    if i < u.len() {
        assert(c[i] == u[i]);
        if u[i] == '\r' {
            assert(u.contains('\r'));
        }
        lema_primer_crlf(u, resto, i + 1);
    } else {
        assert(c[i] == '\r' && c[i + 1] == '\n');
    }
}

/// El cuerpo de una lista que empieza por `u`.
proof fn lema_cuerpo_por_delante(uris: Seq<Seq<char>>)
    requires
        uris.len() > 0,
    ensures
        cuerpo_de_lista(uris) == uris[0] + crlf() + cuerpo_de_lista(uris.drop_first()),
{
    let a = seq![uris[0]];
    lista_de_la_concatenacion(a, uris.drop_first());
    assert(a + uris.drop_first() =~= uris);
    assert(a.drop_last() =~= Seq::<Seq<char>>::empty());
    assert(cuerpo_de_lista(a) == cuerpo_de_lista(a.drop_last()) + uris[0] + crlf());
    assert(cuerpo_de_lista(a) =~= uris[0] + crlf());
}

/// Quien lee un `text/uri-list` por sus CRLF recupera los mismos URIs, en el
/// mismo orden y en la misma cantidad, vacíos incluidos, siempre que ninguno
/// lleve un CR.
pub proof fn la_lista_se_lee_de_vuelta(uris: Seq<Seq<char>>)
    requires
        forall|i: int| 0 <= i < uris.len() ==> !(#[trigger] uris[i]).contains('\r'),
    ensures
        leer_lista(cuerpo_de_lista(uris)) == uris,
    decreases uris.len(),
{
    if uris.len() > 0 {
        let u = uris[0];
        let resto = uris.drop_first();
        let cr = cuerpo_de_lista(resto);
        lema_cuerpo_por_delante(uris);
        let c = u + crlf() + cr;
        lema_primer_crlf(u, cr, 0);
        assert(c.take(u.len() as int) =~= u);
        assert(c.skip(u.len() + 2int) =~= cr);
        assert forall|i: int| 0 <= i < resto.len() implies !(#[trigger] resto[i]).contains('\r') by {
            assert(resto[i] == uris[i + 1]);
        }
        la_lista_se_lee_de_vuelta(resto);
        assert(seq![u] + resto =~= uris);
    }
}

/// El cuerpo de un `text/uri-list`.
///
/// Las líneas van separadas por CRLF, que es lo que dice el RFC 2483, y con un
/// CRLF final: hay destinos que descartan la última línea si no lo tiene.
pub fn lista(uris: &[String]) -> (r: String)
    ensures
        r@ == cuerpo_de_lista(vistas(uris@)),
{
    let mut r = String::new();
    let mut i: usize = 0;
    while i < uris.len()
        invariant
            i <= uris@.len(),
            r@ == cuerpo_de_lista(vistas(uris@.take(i as int))),
        decreases uris@.len() - i,
    {
        r.append(uris[i].as_str());
        r.append("\r\n");
        proof {
            let antes = vistas(uris@.take(i as int));
            let ahora = vistas(uris@.take(i + 1));
            assert(ahora.drop_last() =~= antes);
            assert(ahora.last() == uris@[i as int]@);
            reveal_strlit("\r\n");
            assert("\r\n"@ =~= crlf());
            assert(cuerpo_de_lista(ahora) == cuerpo_de_lista(antes) + uris@[i as int]@ + crlf());
        }
        i = i + 1;
    }
    proof {
        assert(uris@.take(uris@.len() as int) =~= uris@);
    }
    r
}

/// Las rutas tal cual, una por línea, sin salto de línea final.
pub open spec fn rutas_unidas(rutas: Seq<Seq<char>>) -> Seq<char>
    decreases rutas.len(),
{
    if rutas.len() == 0 {
        seq![]
    } else if rutas.len() == 1 {
        rutas[0]
    } else {
        rutas_unidas(rutas.drop_last()) + seq!['\n'] + rutas.last()
    }
}

/// La primera posición, desde `i`, de un salto de línea; -1 si no hay.
pub open spec fn primer_salto(c: Seq<char>, i: int) -> int
    decreases c.len() - i,
{
    if i < 0 || i >= c.len() {
        -1
    } else if c[i] == '\n' {
        i
    } else {
        primer_salto(c, i + 1)
    }
}

/// Un salto encontrado está dentro del texto.
pub proof fn lema_primer_salto_rango(c: Seq<char>, i: int)
    ensures
        primer_salto(c, i) == -1 || (0 <= i <= primer_salto(c, i) < c.len()),
    decreases c.len() - i,
{
    if !(i < 0 || i >= c.len()) && c[i] != '\n' {
        lema_primer_salto_rango(c, i + 1);
    }
}

/// Las líneas de un texto, partido en cada salto de línea.
pub open spec fn partir_lineas(c: Seq<char>) -> Seq<Seq<char>>
    decreases c.len(),
{
    let k = primer_salto(c, 0);
    proof {
        lema_primer_salto_rango(c, 0);
    }
    if k < 0 {
        seq![c]
    } else {
        seq![c.take(k)] + partir_lineas(c.skip(k + 1))
    }
}

/// Sin saltos de línea desde `i`, no se encuentra ninguno.
proof fn lema_sin_salto(c: Seq<char>, i: int)
    requires
        0 <= i,
        !c.contains('\n'),
    ensures
        primer_salto(c, i) == -1,
    decreases c.len() - i,
{
    if i < c.len() {
        if c[i] == '\n' {
            assert(c.contains('\n'));
        }
        lema_sin_salto(c, i + 1);
    }
}

/// En `u + "\n" + resto`, con `u` sin saltos, el primero está justo después de `u`.
proof fn lema_salto_tras(u: Seq<char>, resto: Seq<char>, i: int)
    requires
        0 <= i <= u.len(),
        !u.contains('\n'),
    ensures
        primer_salto(u + seq!['\n'] + resto, i) == u.len(),
    decreases u.len() - i,
{
    let c = u + seq!['\n'] + resto;
    if i < u.len() {
        assert(c[i] == u[i]);
        if u[i] == '\n' {
            assert(u.contains('\n'));
        }
        lema_salto_tras(u, resto, i + 1);
    } else {
        assert(c[i] == '\n');
    }
}

/// Las rutas unidas empiezan por la primera, su salto y las demás unidas.
proof fn lema_unidas_por_delante(rutas: Seq<Seq<char>>)
    requires
        rutas.len() >= 2,
    ensures
        rutas_unidas(rutas) == rutas[0] + seq!['\n'] + rutas_unidas(rutas.drop_first()),
    decreases rutas.len(),
{
    if rutas.len() == 2 {
        assert(rutas.drop_last() =~= seq![rutas[0]]);
        assert(rutas.drop_first() =~= seq![rutas[1]]);
        assert(rutas_unidas(rutas.drop_last()) == rutas[0]);
        assert(rutas_unidas(rutas.drop_first()) == rutas[1]);
    } else {
        lema_unidas_por_delante(rutas.drop_last());
        assert(rutas.drop_last().drop_first() =~= rutas.drop_first().drop_last());
        assert(rutas.drop_last()[0] == rutas[0]);
        assert(rutas.drop_first().last() == rutas.last());
        assert(rutas_unidas(rutas.drop_first()) == rutas_unidas(rutas.drop_first().drop_last())
            + seq!['\n'] + rutas.drop_first().last());
    }
}

/// Agregar una ruta a una lista no vacía agrega un salto y esa ruta al final del
/// texto: no se pierde ninguna.
pub proof fn agregar_una_ruta(rutas: Seq<Seq<char>>, ruta: Seq<char>)
    requires
        rutas.len() > 0,
    ensures
        rutas_unidas(rutas.push(ruta)) == rutas_unidas(rutas) + seq!['\n'] + ruta,
{
    assert(rutas.push(ruta).drop_last() =~= rutas);
}

/// Quien parte en sus saltos de línea el texto de las rutas recupera todas las
/// rutas, en orden, siempre que ninguna lleve un salto de línea.
pub proof fn las_rutas_se_leen_de_vuelta(rutas: Seq<Seq<char>>)
    requires
        rutas.len() > 0,
        forall|i: int| 0 <= i < rutas.len() ==> !(#[trigger] rutas[i]).contains('\n'),
    ensures
        partir_lineas(rutas_unidas(rutas)) == rutas,
    decreases rutas.len(),
{
    if rutas.len() == 1 {
        lema_sin_salto(rutas[0], 0);
        assert(seq![rutas[0]] =~= rutas);
    } else {
        let u = rutas[0];
        let resto = rutas.drop_first();
        lema_unidas_por_delante(rutas);
        let cr = rutas_unidas(resto);
        let c = u + seq!['\n'] + cr;
        lema_salto_tras(u, cr, 0);
        assert(c.take(u.len() as int) =~= u);
        assert(c.skip(u.len() + 1int) =~= cr);
        assert forall|i: int| 0 <= i < resto.len() implies !(#[trigger] resto[i]).contains('\n') by {
            assert(resto[i] == rutas[i + 1]);
        }
        las_rutas_se_leen_de_vuelta(resto);
        assert(seq![u] + resto =~= rutas);
    }
}

/// Las rutas como texto plano, para quien toma `text/plain`: se pegan tal cual,
/// y un URI codificado pegado no es ningún archivo.
pub fn rutas_como_texto(rutas: &[String]) -> (r: String)
    ensures
        r@ == rutas_unidas(vistas(rutas@)),
{
    let mut r = String::new();
    let mut i: usize = 0;
    while i < rutas.len()
        invariant
            i <= rutas@.len(),
            r@ == rutas_unidas(vistas(rutas@.take(i as int))),
        decreases rutas@.len() - i,
    {
        if i != 0 {
            r.append("\n");
        }
        r.append(rutas[i].as_str());
        proof {
            reveal_strlit("\n");
            let antes = vistas(rutas@.take(i as int));
            let ahora = vistas(rutas@.take(i + 1));
            assert(ahora.drop_last() =~= antes);
            assert(ahora.last() == rutas@[i as int]@);
            if i == 0 {
                assert(rutas_unidas(ahora) == ahora[0]);
                assert(antes.len() == 0);
                assert(r@ =~= rutas@[0]@);
            } else {
                assert("\n"@ =~= seq!['\n']);
            }
        }
        i = i + 1;
    }
    proof {
        assert(rutas@.take(rutas@.len() as int) =~= rutas@);
    }
    r
}

} // verus!
