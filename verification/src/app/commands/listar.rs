//! `listar`: muestra las tareas numeradas desde 1.
use vstd::prelude::*;

use super::{Efecto, Salida};
use crate::app::task::{linea_tarea, Tarea, VistaTarea};
use crate::texto::cadena_de;

verus! {

/// Las líneas de las primeras `k` tareas, cada una precedida de un salto de línea.
pub open spec fn lineas_tareas(ts: Seq<VistaTarea>, k: nat) -> Seq<char>
    decreases k,
{
    if k == 0 {
        seq![]
    } else {
        lineas_tareas(ts, (k - 1) as nat) + "\n"@ + linea_tarea(ts[k - 1], k)
    }
}

/// El listado completo: un título y una línea por tarea.
pub open spec fn listado(ts: Seq<VistaTarea>) -> Seq<char> {
    "\nLista de Tareas:"@ + lineas_tareas(ts, ts.len())
}

/// Lo que hace `listar` con `args` sobre la lista `ts`: nunca la cambia.
pub open spec fn listar(args: Seq<char>, ts: Seq<VistaTarea>) -> Efecto {
    if args.len() == 0 {
        (ts, (false, listado(ts), false))
    } else {
        (ts, (false, "❌ Error: El comando para listar tareas no acepta argumentos."@, false))
    }
}

/// El listado de las tareas.
pub fn listar_tareas(lista_de_tareas: &Vec<Tarea>) -> (r: String)
    ensures
        r@ == listado(lista_de_tareas.deep_view()),
{
    let ghost d = lista_de_tareas.deep_view();
    let mut r = cadena_de("\nLista de Tareas:");
    let mut i: usize = 0;
    while i < lista_de_tareas.len()
        invariant
            i <= lista_de_tareas@.len(),
            d == lista_de_tareas.deep_view(),
            r@ == "\nLista de Tareas:"@ + lineas_tareas(d, i as nat),
        decreases lista_de_tareas@.len() - i,
    {
        r.append("\n");
        let l = lista_de_tareas[i].mostrar(i + 1);
        r.append(l.as_str());
        i = i + 1;
        assert(r@ =~= "\nLista de Tareas:"@ + lineas_tareas(d, i as nat));
    }
    r
}

/// Muestra la lista si `args` está vacío.
pub fn ejecutar(args: &str, tareas: &mut Vec<Tarea>) -> (s: Salida)
    ensures
        (final(tareas).deep_view(), s@) == listar(args@, old(tareas).deep_view()),
{
    if args.is_empty() {
        Salida::nueva(false, listar_tareas(tareas), false)
    } else {
        Salida::nueva(
            false,
            cadena_de("❌ Error: El comando para listar tareas no acepta argumentos."),
            false,
        )
    }
}

} // verus!
