//! `desmarcar <número>`: vuelve a poner una tarea como pendiente, con la hora del cambio.
use vstd::prelude::*;

use super::completar::{marcar, marcar_ahora, marcar_en, msg_sin_hora, necesita_hora};
use super::Salida;
use crate::app::task::Tarea;
use crate::marca::Marca;

verus! {

/// Marca como pendiente la tarea con el número `args`, con el instante dado.
pub fn ejecutar_en(args: &str, tareas: &mut Vec<Tarea>, momento: Marca) -> (s: Salida)
    ensures
        (final(tareas).deep_view(), s@) == marcar(args@, old(tareas).deep_view(), false, momento@),
{
    marcar_en(args, tareas, false, momento)
}

/// Marca como pendiente la tarea con el número `args`, con la hora actual.
/// Si no se puede leer la hora, la lista no cambia y la respuesta es un error.
pub fn ejecutar(args: &str, tareas: &mut Vec<Tarea>) -> (s: Salida)
    ensures
        necesita_hora(args@, old(tareas)@.len()) ==> (exists|m: (i64, u32)|
            m.0 >= 0 && m.1 < 1_000_000_000 && (final(tareas).deep_view(), s@) == marcar(
                args@,
                old(tareas).deep_view(),
                false,
                m,
            )) || (final(tareas).deep_view() == old(tareas).deep_view() && s@ == (
            false,
            msg_sin_hora(),
            true,
        )),
        !necesita_hora(args@, old(tareas)@.len()) ==> forall|m: (i64, u32)|
            #[trigger] marcar(args@, old(tareas).deep_view(), false, m) == (
                final(tareas).deep_view(),
                s@,
            ),
{
    marcar_ahora(args, tareas, false)
}

} // verus!
