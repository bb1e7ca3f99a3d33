//! `etiquetar <número> <etiqueta>`: agrega una etiqueta válida a una tarea.
use vstd::prelude::*;

use super::{id_tarea, leer_id, msg_id_invalido, poner, sacar, Efecto, Salida};
use crate::app::task::{Tarea, VistaTarea};
use crate::settings::Settings;
use crate::texto::{cadena_de, contiene, decimal, escribir_usize, palabras, separar_palabras};

verus! {

/// Lo que hace `etiquetar` con `args` sobre la lista `ts`, siendo `validas`
/// las etiquetas admitidas. Sólo cuentan las dos primeras palabras de `args`.
pub open spec fn etiquetar(args: Seq<char>, ts: Seq<VistaTarea>, validas: Seq<Seq<char>>) -> Efecto {
    let ws = palabras(args);
    if ws.len() < 2 {
        (
            ts,
            (
                false,
                "❌ Error: El comando 'etiquetar' necesita un ID de tarea y un nombre de etiqueta."@,
                false,
            ),
        )
    } else {
        let tag = ws[1];
        if !validas.contains(tag) {
            (ts, (false, "❌ Error: La etiqueta '"@ + tag + "' no es válida."@, false))
        } else {
            match id_tarea(ws[0], ts.len()) {
                Some(id) => {
                    let t = ts[id - 1];
                    if !t.3.contains(tag) {
                        (
                            ts.update(id - 1, (t.0, t.1, t.2, t.3.push(tag))),
                            (
                                true,
                                "✅ Etiqueta '"@ + tag + "' agregada a la tarea "@ + decimal(
                                    id as nat,
                                ) + "."@,
                                false,
                            ),
                        )
                    } else {
                        (ts, (false, "👍 La tarea ya tenía la etiqueta '"@ + tag + "'."@, false))
                    }
                },
                None => (ts, (false, msg_id_invalido(), false)),
            }
        }
    }
}

/// Agrega a la tarea con el número de la primera palabra de `args` la
/// etiqueta de la segunda, si es válida y la tarea no la tiene.
pub fn ejecutar(args: &str, tareas: &mut Vec<Tarea>, settings: &Settings) -> (s: Salida)
    ensures
        (final(tareas).deep_view(), s@) == etiquetar(
            args@,
            old(tareas).deep_view(),
            settings.general.tags_validos.deep_view(),
        ),
{
    let ws = separar_palabras(args);
    if ws.len() < 2 {
        return Salida::nueva(
            false,
            cadena_de(
                "❌ Error: El comando 'etiquetar' necesita un ID de tarea y un nombre de etiqueta.",
            ),
            false,
        );
    }
    let id_str = ws[0].as_str();
    let tag = ws[1].as_str();
    assert(ws.deep_view()[1] == tag@);
    assert(ws.deep_view()[0] == id_str@);
    if !contiene(&settings.general.tags_validos, tag) {
        let mut m = cadena_de("❌ Error: La etiqueta '");
        m.append(tag);
        m.append("' no es válida.");
        return Salida::nueva(false, m, false);
    }
    match leer_id(id_str, tareas.len()) {
        Some(id) => {
            let ghost d = tareas.deep_view();
            assert(tareas@[id - 1]@ == d[id - 1]);
            if !contiene(&tareas[id - 1].tags, tag) {
                let mut t = sacar(tareas, id - 1);
                let ghost tv = t@;
                t.tags.push(cadena_de(tag));
                assert(t.tags.deep_view() =~= tv.3.push(tag@));
                poner(tareas, id - 1, t);
                assert(tareas.deep_view() =~= d.update(id - 1, (tv.0, tv.1, tv.2, tv.3.push(tag@))));
                let mut m = cadena_de("✅ Etiqueta '");
                m.append(tag);
                m.append("' agregada a la tarea ");
                let n = escribir_usize(id);
                m.append(n.as_str());
                m.append(".");
                Salida::nueva(true, m, false)
            } else {
                let mut m = cadena_de("👍 La tarea ya tenía la etiqueta '");
                m.append(tag);
                m.append("'.");
                Salida::nueva(false, m, false)
            }
        },
        None => Salida::nueva(false, cadena_de("❌ ID de tarea no válido."), false),
    }
}

} // verus!
