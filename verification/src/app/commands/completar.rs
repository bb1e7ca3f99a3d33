//! `completar <número>`: marca una tarea como completada, con la hora del cambio.
use vstd::prelude::*;

use super::{id_tarea, leer_id, msg_id_invalido, poner, sacar, Efecto, Salida};
use crate::app::task::{Tarea, VistaTarea};
use crate::marca::Marca;
use crate::texto::{cadena_de, decimal, escribir_usize};

verus! {

/// La tarea con otro estado y la marca del cambio.
pub open spec fn con_estado(t: VistaTarea, completada: bool, momento: (i64, u32)) -> VistaTarea {
    (t.0, completada, Some(momento), t.3)
}

/// Lo que hacen `completar` (si `completada`) y `desmarcar` (si no) con `args`
/// sobre la lista `ts`, en el instante `momento`.
pub open spec fn marcar(
    args: Seq<char>,
    ts: Seq<VistaTarea>,
    completada: bool,
    momento: (i64, u32),
) -> Efecto {
    if args.len() == 0 {
        (
            ts,
            (
                false,
                if completada {
                    "❌ Error: El comando para completar una tarea necesita un número de ID."@
                } else {
                    "❌ Error: El comando para desmarcar una tarea necesita un número de ID."@
                },
                false,
            ),
        )
    } else {
        match id_tarea(args, ts.len()) {
            Some(id) => (
                ts.update(id - 1, con_estado(ts[id - 1], completada, momento)),
                (
                    true,
                    "✅ Tarea "@ + decimal(id as nat) + if completada {
                        " marcada como completada."@
                    } else {
                        " marcada como pendiente."@
                    },
                    false,
                ),
            ),
            None => (ts, (false, msg_id_invalido(), false)),
        }
    }
}

/// `completar` y `desmarcar` usan la hora sólo si `args` nombra una tarea.
pub open spec fn necesita_hora(args: Seq<char>, n: nat) -> bool {
    args.len() > 0 && id_tarea(args, n) is Some
}

/// El error cuando no se puede leer la hora del sistema.
pub open spec fn msg_sin_hora() -> Seq<char> {
    "❌ No se pudo leer la hora del sistema."@
}

/// `completar`/`desmarcar` cuando `args` no nombra una tarea: la lista no
/// cambia y la respuesta no depende del instante.
fn marcar_sin_hora(args: &str, tareas: &Vec<Tarea>, completada: bool) -> (s: Salida)
    requires
        !necesita_hora(args@, tareas@.len()),
    ensures
        forall|m: (i64, u32)|
            #[trigger] marcar(args@, tareas.deep_view(), completada, m) == (
                tareas.deep_view(),
                s@,
            ),
{
    if args.is_empty() {
        if completada {
            Salida::nueva(
                false,
                cadena_de("❌ Error: El comando para completar una tarea necesita un número de ID."),
                false,
            )
        } else {
            Salida::nueva(
                false,
                cadena_de("❌ Error: El comando para desmarcar una tarea necesita un número de ID."),
                false,
            )
        }
    } else {
        Salida::nueva(false, cadena_de("❌ ID de tarea no válido."), false)
    }
}

/// `completar`/`desmarcar` con el instante dado.
pub fn marcar_en(args: &str, tareas: &mut Vec<Tarea>, completada: bool, momento: Marca) -> (s:
    Salida)
    ensures
        (final(tareas).deep_view(), s@) == marcar(
            args@,
            old(tareas).deep_view(),
            completada,
            momento@,
        ),
{
    if !args.is_empty() {
        match leer_id(args, tareas.len()) {
            Some(id) => {
                let ghost d = tareas.deep_view();
                let mut t = sacar(tareas, id - 1);
                t.completada = completada;
                t.ultimo_cambio = Some(momento);
                poner(tareas, id - 1, t);
                assert(tareas.deep_view() =~= d.update(
                    id - 1,
                    con_estado(d[id - 1], completada, momento@),
                ));
                let mut m = cadena_de("✅ Tarea ");
                let n = escribir_usize(id);
                m.append(n.as_str());
                if completada {
                    m.append(" marcada como completada.");
                } else {
                    m.append(" marcada como pendiente.");
                }
                return Salida::nueva(true, m, false);
            },
            None => {},
        }
    }
    let s = marcar_sin_hora(args, tareas, completada);
    assert(marcar(args@, tareas.deep_view(), completada, momento@) == (tareas.deep_view(), s@));
    s
}

/// `completar`/`desmarcar` con la hora actual del reloj del sistema, que se
/// lee sólo si `args` nombra una tarea. Si no se puede leer, la lista no
/// cambia y la respuesta es un error.
pub fn marcar_ahora(args: &str, tareas: &mut Vec<Tarea>, completada: bool) -> (s: Salida)
    ensures
        necesita_hora(args@, old(tareas)@.len()) ==> (exists|m: (i64, u32)|
            m.0 >= 0 && m.1 < 1_000_000_000 && (final(tareas).deep_view(), s@) == marcar(
                args@,
                old(tareas).deep_view(),
                completada,
                m,
            )) || (final(tareas).deep_view() == old(tareas).deep_view() && s@ == (
            false,
            msg_sin_hora(),
            true,
        )),
        !necesita_hora(args@, old(tareas)@.len()) ==> forall|m: (i64, u32)|
            #[trigger] marcar(args@, old(tareas).deep_view(), completada, m) == (
                final(tareas).deep_view(),
                s@,
            ),
{
    let necesita = !args.is_empty() && leer_id(args, tareas.len()).is_some();
    if necesita {
        match Marca::ahora() {
            Some(m) => marcar_en(args, tareas, completada, m),
            None => Salida::nueva(false, cadena_de("❌ No se pudo leer la hora del sistema."), true),
        }
    } else {
        marcar_sin_hora(args, tareas, completada)
    }
}

/// Marca como completada la tarea con el número `args`, con el instante dado.
pub fn ejecutar_en(args: &str, tareas: &mut Vec<Tarea>, momento: Marca) -> (s: Salida)
    ensures
        (final(tareas).deep_view(), s@) == marcar(args@, old(tareas).deep_view(), true, momento@),
{
    marcar_en(args, tareas, true, momento)
}

/// Marca como completada la tarea con el número `args`, con la hora actual.
/// Si no se puede leer la hora, la lista no cambia y la respuesta es un error.
pub fn ejecutar(args: &str, tareas: &mut Vec<Tarea>) -> (s: Salida)
    ensures
        necesita_hora(args@, old(tareas)@.len()) ==> (exists|m: (i64, u32)|
            m.0 >= 0 && m.1 < 1_000_000_000 && (final(tareas).deep_view(), s@) == marcar(
                args@,
                old(tareas).deep_view(),
                true,
                m,
            )) || (final(tareas).deep_view() == old(tareas).deep_view() && s@ == (
            false,
            msg_sin_hora(),
            true,
        )),
        !necesita_hora(args@, old(tareas)@.len()) ==> forall|m: (i64, u32)|
            #[trigger] marcar(args@, old(tareas).deep_view(), true, m) == (
                final(tareas).deep_view(),
                s@,
            ),
{
    marcar_ahora(args, tareas, true)
}

} // verus!
