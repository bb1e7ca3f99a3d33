//! Lo que vale de varios comandos juntos.
use vstd::prelude::*;

use super::agregar::agregar;
use super::cargar::cargar;
use super::completar::{con_estado, marcar};
use super::desetiquetar::desetiquetar;
use super::eliminar::eliminar;
use super::etiquetar::etiquetar;
use super::importar::importar;
use super::{id_tarea, procesar, Respuesta};
use crate::app::task::{tarea_nueva, VistaTarea};
use crate::settings::Settings;
use crate::texto::{decimal, lectura_usize, ley_decimal_se_lee, palabras, primera_posicion};

verus! {

proof fn lema_primera_posicion_final(s: Seq<Seq<char>>, x: Seq<char>)
    requires
        !s.contains(x),
    ensures
        primera_posicion(s.push(x), x) == s.len(),
    decreases s.len(),
{
    if s.len() > 0 {
        assert(s.push(x)[0] == s[0]);
        assert(s[0] != x);
        assert(s.push(x).drop_first() =~= s.drop_first().push(x));
        assert(!s.drop_first().contains(x)) by {
            if s.drop_first().contains(x) {
                let k = choose|k: int| 0 <= k < s.drop_first().len() && s.drop_first()[k] == x;
                assert(s[k + 1] == x);
            }
        }
        lema_primera_posicion_final(s.drop_first(), x);
    }
}

/// Quitar con `desetiquetar` la etiqueta que `etiquetar` acaba de agregar deja
/// la lista como estaba.
pub proof fn ley_etiquetar_desetiquetar(
    args: Seq<char>,
    ts: Seq<VistaTarea>,
    validas: Seq<Seq<char>>,
)
    requires
        etiquetar(args, ts, validas).1.0,
    ensures
        desetiquetar(args, etiquetar(args, ts, validas).0).0 == ts,
{
    let ws = palabras(args);
    let tag = ws[1];
    let id = id_tarea(ws[0], ts.len())->0;
    let t = ts[id - 1];
    let n = etiquetar(args, ts, validas).0;
    assert(n == ts.update(id - 1, (t.0, t.1, t.2, t.3.push(tag))));
    assert(id_tarea(ws[0], n.len()) == Some(id));
    assert(n[id - 1].3.contains(tag)) by {
        assert(n[id - 1].3[t.3.len() as int] == tag);
    }
    lema_primera_posicion_final(t.3, tag);
    assert(t.3.push(tag).remove(t.3.len() as int) =~= t.3);
    assert(n.update(id - 1, (t.0, t.1, t.2, t.3)) =~= ts);
}

/// Repetir `etiquetar` con los mismos argumentos no cambia nada.
pub proof fn ley_etiquetar_idempotente(
    args: Seq<char>,
    ts: Seq<VistaTarea>,
    validas: Seq<Seq<char>>,
)
    ensures
        etiquetar(args, etiquetar(args, ts, validas).0, validas).0 == etiquetar(
            args,
            ts,
            validas,
        ).0,
        !etiquetar(args, etiquetar(args, ts, validas).0, validas).1.0,
{
    let ws = palabras(args);
    if ws.len() >= 2 && validas.contains(ws[1]) {
        let tag = ws[1];
        match id_tarea(ws[0], ts.len()) {
            Some(id) => {
                let t = ts[id - 1];
                if !t.3.contains(tag) {
                    let n = etiquetar(args, ts, validas).0;
                    assert(n[id - 1].3[t.3.len() as int] == tag);
                    assert(id_tarea(ws[0], n.len()) == Some(id));
                }
            },
            None => {},
        }
    }
}

/// Agregar una tarea y eliminar la última deja la lista como estaba.
pub proof fn ley_agregar_eliminar(descripcion: Seq<char>, ts: Seq<VistaTarea>)
    requires
        descripcion.len() > 0,
        ts.len() < usize::MAX,
    ensures
        eliminar(decimal((ts.len() + 1) as nat), agregar(descripcion, ts).0).0 == ts,
{
    let n = agregar(descripcion, ts).0;
    assert(n == ts.push(tarea_nueva(descripcion)));
    ley_decimal_se_lee((ts.len() + 1) as usize);
    crate::texto::lema_decimal_no_vacio((ts.len() + 1) as nat);
    assert(id_tarea(decimal((ts.len() + 1) as nat), n.len()) == Some((ts.len() + 1) as usize));
    assert(n.remove(ts.len() as int) =~= ts);
}

/// Desmarcar una tarea recién completada la deja pendiente, con la misma
/// descripción y etiquetas, y la marca del segundo cambio.
pub proof fn ley_completar_desmarcar(
    args: Seq<char>,
    ts: Seq<VistaTarea>,
    m1: (i64, u32),
    m2: (i64, u32),
)
    requires
        marcar(args, ts, true, m1).1.0,
    ensures
        ({
            let id = id_tarea(args, ts.len())->0;
            marcar(args, marcar(args, ts, true, m1).0, false, m2).0 == ts.update(
                id - 1,
                con_estado(ts[id - 1], false, m2),
            )
        }),
{
    let id = id_tarea(args, ts.len())->0;
    let n = marcar(args, ts, true, m1).0;
    assert(id_tarea(args, n.len()) == Some(id));
    assert(n.update(id - 1, con_estado(n[id - 1], false, m2)) =~= ts.update(
        id - 1,
        con_estado(ts[id - 1], false, m2),
    ));
}

/// Un comando que informa que la lista no cambió la deja como estaba: basta
/// con guardar la lista cuando un comando informa un cambio.
pub proof fn ley_sin_cambio_misma_lista(
    comando: Seq<char>,
    args: Seq<char>,
    ts: Seq<VistaTarea>,
    settings: &Settings,
    respuesta: Respuesta,
    momento: (i64, u32),
)
    ensures
        !procesar(comando, args, ts, settings, respuesta, momento).1.0 ==> procesar(
            comando,
            args,
            ts,
            settings,
            respuesta,
            momento,
        ).0 == ts,
{
}

/// `importar` con una ruta y las tareas leídas del archivo deja la lista de
/// antes, intacta, seguida de esas tareas tal como se leyeron (estado, marca y
/// etiquetas incluidos), e informa un cambio.
pub proof fn ley_importar_agrega_al_final(
    args: Seq<char>,
    ts: Seq<VistaTarea>,
    leidas: Seq<VistaTarea>,
)
    requires
        args.len() > 0,
    ensures
        ({
            let (n, s) = importar(args, ts, Ok(leidas));
            &&& n.len() == ts.len() + leidas.len()
            &&& forall|i: int| 0 <= i < ts.len() ==> n[i] == #[trigger] ts[i]
            &&& forall|j: int| 0 <= j < leidas.len() ==> n[ts.len() + j] == #[trigger] leidas[j]
            &&& s.0
            &&& !s.2
        }),
{
}

/// `importar` que no pudo leer el archivo deja la lista como estaba e
/// informa un error.
pub proof fn ley_importar_con_error(args: Seq<char>, ts: Seq<VistaTarea>, e: Seq<char>)
    ensures
        importar(args, ts, Err(e)).0 == ts,
        !importar(args, ts, Err(e)).1.0,
{
}

/// `cargar` con una ruta y las tareas leídas del archivo deja exactamente esas
/// tareas, tal como se leyeron, e informa un cambio; si no se pudo leer, la
/// lista no cambia.
pub proof fn ley_cargar_reemplaza(
    args: Seq<char>,
    ts: Seq<VistaTarea>,
    leidas: Seq<VistaTarea>,
    e: Seq<char>,
)
    requires
        args.len() > 0,
    ensures
        cargar(args, ts, Ok(leidas)).0 == leidas,
        cargar(args, ts, Ok(leidas)).1.0,
        cargar(args, ts, Err(e)).0 == ts,
        !cargar(args, ts, Err(e)).1.0,
{
}

/// `eliminar <id>` con `1 <= id <= len` quita la tarea de la posición
/// `id - 1`, esté o no completada: las anteriores quedan en su lugar, las
/// posteriores se corren uno, y se informa un cambio.
pub proof fn ley_eliminar_quita_esa_tarea(args: Seq<char>, ts: Seq<VistaTarea>, id: usize)
    requires
        lectura_usize(args) == Some(id),
        1 <= id <= ts.len(),
    ensures
        ({
            let (n, s) = eliminar(args, ts);
            &&& n.len() == ts.len() - 1
            &&& forall|i: int| 0 <= i < id - 1 ==> n[i] == #[trigger] ts[i]
            &&& forall|i: int| id - 1 <= i < ts.len() - 1 ==> n[i] == #[trigger] ts[i + 1]
            &&& s.0
        }),
{
}

/// `completar <id>` (si `completada`) o `desmarcar <id>` con `1 <= id <= len`
/// deja esa tarea completada o pendiente, sea cual fuere su estado anterior,
/// con la marca del instante dado y la misma descripción y etiquetas; las
/// demás tareas no cambian y se informa un cambio.
pub proof fn ley_marcar_fija_el_estado(
    args: Seq<char>,
    ts: Seq<VistaTarea>,
    completada: bool,
    momento: (i64, u32),
    id: usize,
)
    requires
        lectura_usize(args) == Some(id),
        1 <= id <= ts.len(),
    ensures
        ({
            let (n, s) = marcar(args, ts, completada, momento);
            &&& n.len() == ts.len()
            &&& n[id - 1].1 == completada
            &&& n[id - 1].2 == Some(momento)
            &&& n[id - 1].0 == ts[id - 1].0
            &&& n[id - 1].3 == ts[id - 1].3
            &&& forall|i: int| 0 <= i < ts.len() && i != id - 1 ==> n[i] == #[trigger] ts[i]
            &&& s.0
        }),
{
}

} // verus!
