//! `importar <archivo>`: agrega al final de la lista las tareas leídas de un archivo.
use vstd::prelude::*;

use super::cargar::vista_lectura;
use super::{Efecto, Salida};
use crate::app::task::{Tarea, VistaTarea};
use crate::texto::{cadena_de, decimal, escribir_usize};

verus! {

/// Lo que hace `importar` con `args` sobre la lista `ts`, siendo `leido` lo que
/// se leyó del archivo `args`.
pub open spec fn importar(
    args: Seq<char>,
    ts: Seq<VistaTarea>,
    leido: Result<Seq<VistaTarea>, Seq<char>>,
) -> Efecto {
    if args.len() == 0 {
        (ts, (false, "❌ El comando para importar necesita la ruta a un archivo."@, false))
    } else {
        match leido {
            Ok(c) => (
                ts + c,
                (true, "✅ Se importaron y agregaron "@ + decimal(c.len()) + " tareas."@, false),
            ),
            Err(e) => (ts, (false, "Error al importar el archivo: "@ + e, true)),
        }
    }
}

/// Agrega al final de la lista las tareas leídas del archivo `args`.
pub fn ejecutar(args: &str, tareas: &mut Vec<Tarea>, leido: Result<Vec<Tarea>, String>) -> (s:
    Salida)
    ensures
        (final(tareas).deep_view(), s@) == importar(
            args@,
            old(tareas).deep_view(),
            vista_lectura(leido),
        ),
{
    if !args.is_empty() {
        match leido {
            Ok(tareas_importadas) => {
                let cantidad = tareas_importadas.len();
                let ghost d = tareas.deep_view();
                let ghost c = tareas_importadas.deep_view();
                let mut otras = tareas_importadas;
                tareas.append(&mut otras);
                assert(tareas.deep_view() =~= d + c);
                let mut m = cadena_de("✅ Se importaron y agregaron ");
                let n = escribir_usize(cantidad);
                m.append(n.as_str());
                m.append(" tareas.");
                Salida::nueva(true, m, false)
            },
            Err(e) => {
                let mut m = cadena_de("Error al importar el archivo: ");
                m.append(e.as_str());
                Salida::nueva(false, m, true)
            },
        }
    } else {
        Salida::nueva(
            false,
            cadena_de("❌ El comando para importar necesita la ruta a un archivo."),
            false,
        )
    }
}

} // verus!
