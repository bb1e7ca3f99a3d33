//! `eliminar <número>`: quita una tarea de la lista.
use vstd::prelude::*;

use super::{id_tarea, leer_id, msg_id_invalido, sacar, Efecto, Salida};
use crate::app::task::{Tarea, VistaTarea};
use crate::texto::cadena_de;

verus! {

/// Lo que hace `eliminar` con `args` sobre la lista `ts`.
pub open spec fn eliminar(args: Seq<char>, ts: Seq<VistaTarea>) -> Efecto {
    if args.len() == 0 {
        (ts, (false, "❌ Error: El comando para eliminar necesita un número de ID."@, false))
    } else {
        match id_tarea(args, ts.len()) {
            Some(id) => (
                ts.remove(id - 1),
                (true, "✅ Tarea eliminada: '"@ + ts[id - 1].0 + "'"@, false),
            ),
            None => (ts, (false, msg_id_invalido(), false)),
        }
    }
}

/// Quita la tarea con el número `args`.
pub fn ejecutar(args: &str, tareas: &mut Vec<Tarea>) -> (s: Salida)
    ensures
        (final(tareas).deep_view(), s@) == eliminar(args@, old(tareas).deep_view()),
{
    if args.is_empty() {
        Salida::nueva(
            false,
            cadena_de("❌ Error: El comando para eliminar necesita un número de ID."),
            false,
        )
    } else {
        match leer_id(args, tareas.len()) {
            Some(id) => {
                let t = sacar(tareas, id - 1);
                let mut m = cadena_de("✅ Tarea eliminada: '");
                m.append(t.descripcion.as_str());
                m.append("'");
                Salida::nueva(true, m, false)
            },
            None => Salida::nueva(false, cadena_de("❌ ID de tarea no válido."), false),
        }
    }
}

} // verus!
