//! Dónde está la vista web dentro de una ventana.
use vstd::prelude::*;

verus! {

/// Un widget tal como se lo busca: el nombre de su tipo y, si es un
/// contenedor, sus hijos en orden.
#[derive(Debug)]
pub struct Widget {
    pub tipo: String,
    pub hijos: Option<Vec<Widget>>,
}

/// El camino, índice por índice desde los hijos dados, al primer widget de ese
/// tipo en preorden entre los hijos desde el `i`-ésimo, si lo hay: cada hijo se
/// mira antes que sus descendientes y éstos antes que el hijo siguiente.
pub open spec fn buscar_desde(hijos: Seq<Widget>, tipo: Seq<char>, i: int) -> Option<Seq<int>>
    decreases hijos, hijos.len() - i,
{
    if i < 0 || i >= hijos.len() {
        None
    } else if hijos[i].tipo@ == tipo {
        Some(seq![i])
    } else {
        let dentro = match hijos[i].hijos {
            Some(h) => {
                proof {
                    assert(decreases_to!(hijos => hijos[i]));
                    assert(decreases_to!(hijos[i] => hijos[i].hijos));
                    assert(decreases_to!(hijos[i].hijos => h));
                    assert(decreases_to!(h => h@));
                }
                buscar_desde(h@, tipo, 0)
            },
            None => None,
        };
        match dentro {
            Some(p) => Some(seq![i] + p),
            None => buscar_desde(hijos, tipo, i + 1),
        }
    }
}

/// El widget al que lleva un camino de índices desde los hijos dados.
pub open spec fn widget_en(hijos: Seq<Widget>, camino: Seq<int>) -> Option<Widget>
    decreases camino.len(),
{
    if camino.len() == 0 || camino[0] < 0 || camino[0] >= hijos.len() {
        None
    } else if camino.len() == 1 {
        Some(hijos[camino[0]])
    } else {
        match hijos[camino[0]].hijos {
            Some(h) => widget_en(h@, camino.drop_first()),
            None => None,
        }
    }
}

/// Lo que se encuentra es del tipo buscado: el camino devuelto lleva a un
/// widget de ese tipo.
pub proof fn lo_encontrado_es_del_tipo(hijos: Seq<Widget>, tipo: Seq<char>, i: int)
    ensures
        buscar_desde(hijos, tipo, i) matches Some(camino) ==> widget_en(hijos, camino) matches Some(
            w,
        ) && w.tipo@ == tipo,
    decreases hijos, hijos.len() - i,
{
    if 0 <= i < hijos.len() && hijos[i].tipo@ != tipo {
        match hijos[i].hijos {
            Some(h) => {
                assert(decreases_to!(hijos => hijos[i]));
                assert(decreases_to!(hijos[i] => hijos[i].hijos));
                assert(decreases_to!(hijos[i].hijos => h));
                assert(decreases_to!(h => h@));
                lo_encontrado_es_del_tipo(h@, tipo, 0);
                if let Some(p) = buscar_desde(h@, tipo, 0) {
                    let camino = seq![i] + p;
                    assert(p.len() > 0) by {
                        if p.len() == 0 {
                            assert(widget_en(h@, p) is None);
                        }
                    }
                    assert(camino.drop_first() =~= p);
                    assert(camino[0] == i);
                } else {
                    lo_encontrado_es_del_tipo(hijos, tipo, i + 1);
                }
            },
            None => {
                lo_encontrado_es_del_tipo(hijos, tipo, i + 1);
            },
        }
    }
}

/// Si no se encuentra nada, no hay nada: ningún widget al que llegue un camino
/// desde el `i`-ésimo hijo en adelante es del tipo buscado.
pub proof fn nada_encontrado_nada_hay(hijos: Seq<Widget>, tipo: Seq<char>, i: int, camino: Seq<int>)
    requires
        0 <= i,
        buscar_desde(hijos, tipo, i) is None,
        camino.len() > 0,
        camino[0] >= i,
    ensures
        widget_en(hijos, camino) matches Some(w) ==> w.tipo@ != tipo,
    decreases hijos, hijos.len() - i,
{
    if i < hijos.len() {
        assert(hijos[i].tipo@ != tipo);
        let dentro = match hijos[i].hijos {
            Some(h) => buscar_desde(h@, tipo, 0),
            None => None,
        };
        assert(dentro is None);
        assert(buscar_desde(hijos, tipo, i + 1) is None);
        if camino[0] == i {
            if camino.len() > 1 {
                match hijos[i].hijos {
                    Some(h) => {
                        assert(decreases_to!(hijos => hijos[i]));
                        assert(decreases_to!(hijos[i] => hijos[i].hijos));
                        assert(decreases_to!(hijos[i].hijos => h));
                        assert(decreases_to!(h => h@));
                        let resto = camino.drop_first();
                        if resto[0] >= 0 {
                            nada_encontrado_nada_hay(h@, tipo, 0, resto);
                        }
                    },
                    None => {},
                }
            }
        } else {
            nada_encontrado_nada_hay(hijos, tipo, i + 1, camino);
        }
    }
}

/// La vista de un camino optativo.
pub open spec fn vista_de_camino(c: Option<Vec<usize>>) -> Option<Seq<int>> {
    match c {
        Some(v) => Some(v@.map_values(|k: usize| k as int)),
        None => None,
    }
}

/// Busca entre los hijos de un contenedor, y entre los hijos de éstos, el primer
/// widget de un tipo. Devuelve el camino de índices hasta él.
pub fn find_widget_by_type_name(hijos: &Vec<Widget>, nombre_de_tipo: &String) -> (r: Option<Vec<usize>>)
    ensures
        vista_de_camino(r) == buscar_desde(hijos@, nombre_de_tipo@, 0),
    decreases hijos@,
{
    let mut i: usize = 0;
    while i < hijos.len()
        invariant
            i <= hijos@.len(),
            buscar_desde(hijos@, nombre_de_tipo@, 0) == buscar_desde(hijos@, nombre_de_tipo@, i as int),
        decreases hijos@.len() - i,
    {
        let hijo = &hijos[i];
        if hijo.tipo == *nombre_de_tipo {
            let mut camino: Vec<usize> = Vec::new();
            camino.push(i);
            assert(camino@.map_values(|k: usize| k as int) =~= seq![i as int]);
            return Some(camino);
        }
        match &hijo.hijos {
            Some(h) => {
                assert(decreases_to!(hijos@ => hijos@[i as int]));
                assert(decreases_to!(hijos@[i as int] => hijos@[i as int].hijos));
                assert(decreases_to!(hijos@[i as int].hijos => *h));
                assert(decreases_to!(*h => h@));
                match find_widget_by_type_name(h, nombre_de_tipo) {
                    Some(resto) => {
                        let mut camino: Vec<usize> = Vec::new();
                        camino.push(i);
                        let mut k: usize = 0;
                        while k < resto.len()
                            invariant
                                k <= resto@.len(),
                                camino@.map_values(|j: usize| j as int) == seq![i as int] + resto@.take(
                                    k as int,
                                ).map_values(|j: usize| j as int),
                            decreases resto@.len() - k,
                        {
                            let ghost c0 = camino@;
                            camino.push(resto[k]);
                            assert(camino@.map_values(|j: usize| j as int) =~= c0.map_values(
                                |j: usize| j as int,
                            ).push(resto@[k as int] as int));
                            assert(resto@.take(k + 1).map_values(|j: usize| j as int) =~= resto@.take(
                                k as int,
                            ).map_values(|j: usize| j as int).push(resto@[k as int] as int));
                            k = k + 1;
                        }
                        assert(resto@.take(resto@.len() as int) =~= resto@);
                        assert(camino@.map_values(|j: usize| j as int) =~= seq![i as int]
                            + resto@.map_values(|j: usize| j as int));
                        return Some(camino);
                    },
                    None => {},
                }
            },
            None => {},
        }
        i = i + 1;
    }
    None
}

} // verus!
