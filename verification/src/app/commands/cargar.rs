//! `cargar <archivo>`: reemplaza la lista por las tareas leídas de un archivo.
use vstd::prelude::*;

use super::{Efecto, Salida};
use crate::app::task::{Tarea, VistaTarea};
use crate::texto::{cadena_de, decimal, escribir_usize};

verus! {

/// El contenido leído de un archivo: las tareas o el texto del error.
pub open spec fn vista_lectura(r: Result<Vec<Tarea>, String>) -> Result<Seq<VistaTarea>, Seq<char>> {
    match r {
        Ok(v) => Ok(v.deep_view()),
        Err(e) => Err(e@),
    }
}

/// Lo que hace `cargar` con `args` sobre la lista `ts`, siendo `leido` lo que
/// se leyó del archivo `args`.
pub open spec fn cargar(
    args: Seq<char>,
    ts: Seq<VistaTarea>,
    leido: Result<Seq<VistaTarea>, Seq<char>>,
) -> Efecto {
    if args.len() == 0 {
        (ts, (false, "❌ El comando para cargar necesita la ruta a un archivo."@, false))
    } else {
        match leido {
            Ok(c) => (
                c,
                (
                    true,
                    "✅ Se cargaron "@ + decimal(c.len()) + " tareas. La lista anterior fue reemplazada."@,
                    false,
                ),
            ),
            Err(e) => (ts, (false, "Error al cargar el archivo: "@ + e, true)),
        }
    }
}

/// Reemplaza la lista por las tareas leídas del archivo `args`.
pub fn ejecutar(args: &str, tareas: &mut Vec<Tarea>, leido: Result<Vec<Tarea>, String>) -> (s:
    Salida)
    ensures
        (final(tareas).deep_view(), s@) == cargar(
            args@,
            old(tareas).deep_view(),
            vista_lectura(leido),
        ),
{
    if !args.is_empty() {
        match leido {
            Ok(tareas_cargadas) => {
                let cantidad = tareas_cargadas.len();
                *tareas = tareas_cargadas;
                let mut m = cadena_de("✅ Se cargaron ");
                let n = escribir_usize(cantidad);
                m.append(n.as_str());
                m.append(" tareas. La lista anterior fue reemplazada.");
                Salida::nueva(true, m, false)
            },
            Err(e) => {
                let mut m = cadena_de("Error al cargar el archivo: ");
                m.append(e.as_str());
                Salida::nueva(false, m, true)
            },
        }
    } else {
        Salida::nueva(
            false,
            cadena_de("❌ El comando para cargar necesita la ruta a un archivo."),
            false,
        )
    }
}

} // verus!
