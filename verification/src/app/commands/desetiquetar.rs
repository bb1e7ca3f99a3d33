//! `desetiquetar <número> <etiqueta>`: quita una etiqueta de una tarea.
use vstd::prelude::*;

use super::{id_tarea, leer_id, msg_id_invalido, poner, sacar, Efecto, Salida};
use crate::app::task::{Tarea, VistaTarea};
use crate::texto::{
    cadena_de,
    decimal,
    escribir_usize,
    palabras,
    posicion,
    primera_posicion,
    separar_palabras,
};

verus! {

/// Lo que hace `desetiquetar` con `args` sobre la lista `ts`: quita la primera
/// aparición de la etiqueta. Sólo cuentan las dos primeras palabras de `args`.
pub open spec fn desetiquetar(args: Seq<char>, ts: Seq<VistaTarea>) -> Efecto {
    let ws = palabras(args);
    if ws.len() < 2 {
        (
            ts,
            (
                false,
                "❌ Error: El comando 'desetiquetar' necesita un ID de tarea y un nombre de etiqueta."@,
                false,
            ),
        )
    } else {
        let tag = ws[1];
        match id_tarea(ws[0], ts.len()) {
            Some(id) => {
                let t = ts[id - 1];
                if t.3.contains(tag) {
                    (
                        ts.update(id - 1, (t.0, t.1, t.2, t.3.remove(primera_posicion(t.3, tag)))),
                        (
                            true,
                            "✅ Etiqueta '"@ + tag + "' eliminada de la tarea "@ + decimal(
                                id as nat,
                            ) + "."@,
                            false,
                        ),
                    )
                } else {
                    (ts, (false, "👍 La tarea no tenía la etiqueta '"@ + tag + "'."@, false))
                }
            },
            None => (ts, (false, msg_id_invalido(), false)),
        }
    }
}

/// Quita de la tarea con el número de la primera palabra de `args` la
/// etiqueta de la segunda, si la tiene.
pub fn ejecutar(args: &str, tareas: &mut Vec<Tarea>) -> (s: Salida)
    ensures
        (final(tareas).deep_view(), s@) == desetiquetar(args@, old(tareas).deep_view()),
{
    let ws = separar_palabras(args);
    if ws.len() < 2 {
        return Salida::nueva(
            false,
            cadena_de(
                "❌ Error: El comando 'desetiquetar' necesita un ID de tarea y un nombre de etiqueta.",
            ),
            false,
        );
    }
    let id_str = ws[0].as_str();
    let tag = ws[1].as_str();
    assert(ws.deep_view()[1] == tag@);
    assert(ws.deep_view()[0] == id_str@);
    match leer_id(id_str, tareas.len()) {
        Some(id) => {
            let ghost d = tareas.deep_view();
            assert(tareas@[id - 1]@ == d[id - 1]);
            match posicion(&tareas[id - 1].tags, tag) {
                Some(pos) => {
                    let mut t = sacar(tareas, id - 1);
                    let ghost tv = t@;
                    let _ = t.tags.remove(pos);
                    assert(t.tags.deep_view() =~= tv.3.remove(pos as int));
                    poner(tareas, id - 1, t);
                    assert(tareas.deep_view() =~= d.update(
                        id - 1,
                        (tv.0, tv.1, tv.2, tv.3.remove(pos as int)),
                    ));
                    let mut m = cadena_de("✅ Etiqueta '");
                    m.append(tag);
                    m.append("' eliminada de la tarea ");
                    let n = escribir_usize(id);
                    m.append(n.as_str());
                    m.append(".");
                    Salida::nueva(true, m, false)
                },
                None => {
                    let mut m = cadena_de("👍 La tarea no tenía la etiqueta '");
                    m.append(tag);
                    m.append("'.");
                    Salida::nueva(false, m, false)
                },
            }
        },
        None => Salida::nueva(false, cadena_de("❌ ID de tarea no válido."), false),
    }
}

} // verus!
