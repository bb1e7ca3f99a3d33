//! `eliminar_todas`: vacía la lista cuando se pudo borrar el archivo de tareas.
use vstd::prelude::*;

use super::{Efecto, Salida};
use crate::app::task::{Tarea, VistaTarea};
use crate::texto::cadena_de;

verus! {

/// Lo que hace `eliminar_todas` sobre la lista `ts`, según se haya podido
/// borrar o no el archivo de tareas.
pub open spec fn eliminar_todas(ts: Seq<VistaTarea>, borrado: bool) -> Efecto {
    if borrado {
        (seq![], (true, "✅ Todas las tareas fueron eliminadas."@, false))
    } else {
        (ts, (false, "👍 No había tareas para eliminar."@, false))
    }
}

/// Vacía la lista si `borrado` (el archivo de tareas se borró). Los
/// argumentos no se usan.
pub fn ejecutar(_args: &str, tareas: &mut Vec<Tarea>, borrado: bool) -> (s: Salida)
    ensures
        (final(tareas).deep_view(), s@) == eliminar_todas(old(tareas).deep_view(), borrado),
{
    if borrado {
        tareas.clear();
        assert(tareas.deep_view() =~= Seq::<VistaTarea>::empty());
        Salida::nueva(true, cadena_de("✅ Todas las tareas fueron eliminadas."), false)
    } else {
        Salida::nueva(false, cadena_de("👍 No había tareas para eliminar."), false)
    }
}

} // verus!
