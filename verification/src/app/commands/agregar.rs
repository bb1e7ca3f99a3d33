//! `agregar <descripción>`: agrega una tarea pendiente al final de la lista.
use vstd::prelude::*;

use super::{Efecto, Salida};
use crate::app::task::{tarea_nueva, Tarea, VistaTarea};
use crate::texto::cadena_de;

verus! {

/// Lo que hace `agregar` con `args` sobre la lista `ts`.
pub open spec fn agregar(args: Seq<char>, ts: Seq<VistaTarea>) -> Efecto {
    if args.len() > 0 {
        (ts.push(tarea_nueva(args)), (true, "✅ Tarea agregada."@, false))
    } else {
        (
            ts,
            (
                false,
                "❌ Error: El comando para agregar una tarea necesita una descripción."@,
                false,
            ),
        )
    }
}

/// Agrega una tarea con la descripción `args`, si no está vacía.
pub fn ejecutar(args: &str, tareas: &mut Vec<Tarea>) -> (s: Salida)
    ensures
        (final(tareas).deep_view(), s@) == agregar(args@, old(tareas).deep_view()),
{
    if !args.is_empty() {
        let ghost d = tareas.deep_view();
        let t = Tarea::nueva(args);
        tareas.push(t);
        assert(tareas.deep_view() =~= d.push(tarea_nueva(args@)));
        Salida::nueva(true, cadena_de("✅ Tarea agregada."), false)
    } else {
        Salida::nueva(
            false,
            cadena_de("❌ Error: El comando para agregar una tarea necesita una descripción."),
            false,
        )
    }
}

} // verus!
