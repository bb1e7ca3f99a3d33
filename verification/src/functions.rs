//! Las operaciones de la primera versión del gestor sobre tareas con
//! prioridad, categoría y subtareas, y sus estadísticas de uso. Las preguntas
//! al usuario las hace quien llama; aquí se decide con sus respuestas.
use vstd::prelude::*;

use crate::data::{formato_task, Priority, Statistics, Subtask, Task, VistaSubtask, VistaTask};
use crate::texto::{cadena_de, decimal, escribir_usize, lectura_usize, leer_usize, recortado, recortar};

verus! {

/// Cuántas tareas de `ts` están hechas.
pub open spec fn cuenta_hechas(ts: Seq<VistaTask>) -> nat
    decreases ts.len(),
{
    if ts.len() == 0 {
        0
    } else {
        cuenta_hechas(ts.drop_last()) + if ts.last().1 {
            1nat
        } else {
            0nat
        }
    }
}

/// Cuántas tareas de `ts` están pendientes.
pub open spec fn cuenta_pendientes(ts: Seq<VistaTask>) -> nat
    decreases ts.len(),
{
    if ts.len() == 0 {
        0
    } else {
        cuenta_pendientes(ts.drop_last()) + if ts.last().1 {
            0nat
        } else {
            1nat
        }
    }
}

/// Las estadísticas describen la lista: las hechas y las pendientes son las
/// que hay, y las agregadas son las que hay más las eliminadas.
pub open spec fn estadisticas_consistentes(ts: Seq<VistaTask>, s: Statistics) -> bool {
    &&& s.done_tasks == cuenta_hechas(ts)
    &&& s.pending_tasks == cuenta_pendientes(ts)
    &&& s.added_tasks == ts.len() + s.removed_tasks
}

proof fn lema_cuentas_total(ts: Seq<VistaTask>)
    ensures
        cuenta_hechas(ts) + cuenta_pendientes(ts) == ts.len(),
    decreases ts.len(),
{
    if ts.len() > 0 {
        lema_cuentas_total(ts.drop_last());
    }
}

proof fn lema_cuentas_cambio(ts: Seq<VistaTask>, i: int, x: VistaTask)
    requires
        0 <= i < ts.len(),
    ensures
        cuenta_hechas(ts.update(i, x)) + (if ts[i].1 { 1int } else { 0int }) == cuenta_hechas(ts) + (
        if x.1 {
            1int
        } else {
            0int
        }),
        cuenta_pendientes(ts.update(i, x)) + (if ts[i].1 { 0int } else { 1int }) == cuenta_pendientes(
            ts,
        ) + (if x.1 {
            0int
        } else {
            1int
        }),
    decreases ts.len(),
{
    if i < ts.len() - 1 {
        lema_cuentas_cambio(ts.drop_last(), i, x);
        assert(ts.update(i, x).drop_last() =~= ts.drop_last().update(i, x));
    } else {
        assert(ts.update(i, x).drop_last() =~= ts.drop_last());
    }
}

proof fn lema_cuentas_quitar(ts: Seq<VistaTask>, i: int)
    requires
        0 <= i < ts.len(),
    ensures
        cuenta_hechas(ts.remove(i)) + (if ts[i].1 { 1int } else { 0int }) == cuenta_hechas(ts),
        cuenta_pendientes(ts.remove(i)) + (if ts[i].1 { 0int } else { 1int }) == cuenta_pendientes(
            ts,
        ),
    decreases ts.len(),
{
    if i < ts.len() - 1 {
        lema_cuentas_quitar(ts.drop_last(), i);
        assert(ts.remove(i).drop_last() =~= ts.drop_last().remove(i));
    } else {
        assert(ts.remove(i) =~= ts.drop_last());
    }
}

/// La tarea nueva que agrega `add_task`.
pub open spec fn task_nueva(description: Seq<char>, priority: Priority, tag: Seq<char>) -> VistaTask {
    (description, false, priority, tag, seq![])
}

/// Agrega una tarea pendiente si la descripción no está vacía, y la cuenta
/// como agregada y pendiente. Devuelve si la agregó.
pub fn add_task(
    tasks: &mut Vec<Task>,
    description: &str,
    priority: Priority,
    tag: &str,
    stats: &mut Statistics,
) -> (agregada: bool)
    requires
        description@.len() > 0 ==> old(stats).added_tasks < usize::MAX && old(stats).pending_tasks
            < usize::MAX,
    ensures
        agregada == (description@.len() > 0),
        agregada ==> final(tasks).deep_view() == old(tasks).deep_view().push(
            task_nueva(description@, priority, tag@),
        ),
        agregada ==> final(stats).added_tasks == old(stats).added_tasks + 1
            && final(stats).pending_tasks == old(stats).pending_tasks + 1
            && final(stats).done_tasks == old(stats).done_tasks && final(stats).removed_tasks
            == old(stats).removed_tasks,
        !agregada ==> final(tasks).deep_view() == old(tasks).deep_view() && *final(stats)
            == *old(stats),
        estadisticas_consistentes(old(tasks).deep_view(), *old(stats)) ==> estadisticas_consistentes(
            final(tasks).deep_view(),
            *final(stats),
        ),
{
    if description.is_empty() {
        return false;
    }
    let ghost d = tasks.deep_view();
    let t = Task {
        description: cadena_de(description),
        done: false,
        priority,
        tag: cadena_de(tag),
        subtasks: Vec::new(),
    };
    assert(t.subtasks.deep_view() =~= Seq::<VistaSubtask>::empty());
    tasks.push(t);
    assert(tasks.deep_view() =~= d.push(task_nueva(description@, priority, tag@)));
    assert(tasks.deep_view().drop_last() =~= d);
    stats.added_tasks = stats.added_tasks + 1;
    stats.pending_tasks = stats.pending_tasks + 1;
    true
}

/// La prioridad que indica la respuesta: `1` alta, `2` media, `3` baja (tras
/// quitar los espacios de los extremos).
pub open spec fn prioridad_de(entrada: Seq<char>) -> Option<Priority> {
    match lectura_usize(recortado(entrada)) {
        Some(n) => if n == 1 {
            Some(Priority::Alta)
        } else if n == 2 {
            Some(Priority::Media)
        } else if n == 3 {
            Some(Priority::Baja)
        } else {
            None
        },
        None => None,
    }
}

/// La prioridad elegida, o nada si la respuesta no es válida.
pub fn prioridad_desde_entrada(entrada: &str) -> (r: Option<Priority>)
    ensures
        r == prioridad_de(entrada@),
{
    let t = recortar(entrada);
    match leer_usize(t.as_str()) {
        Some(1) => Some(Priority::Alta),
        Some(2) => Some(Priority::Media),
        Some(3) => Some(Priority::Baja),
        _ => None,
    }
}

/// La categoría que se asigna sin respuesta.
pub open spec fn sin_categoria() -> Seq<char> {
    "Sin Categoría"@
}

/// La categoría elegida con la respuesta `entrada` (sin espacios en los
/// extremos): vacía, ninguna; un número, la categoría con ese número (desde 1),
/// o nada si no existe; otro texto, una categoría nueva que se agrega.
pub fn elegir_categoria(entrada: &str, all_tags: &mut Vec<String>) -> (r: Option<String>)
    ensures
        ({
            let e = recortado(entrada@);
            if e.len() == 0 {
                r matches Some(c) && c@ == sin_categoria() && final(all_tags).deep_view() == old(
                    all_tags,
                ).deep_view()
            } else {
                match lectura_usize(e) {
                    Some(id) => final(all_tags).deep_view() == old(all_tags).deep_view() && if 1
                        <= id && id <= old(all_tags)@.len() {
                        r matches Some(c) && c@ == old(all_tags).deep_view()[id - 1]
                    } else {
                        r is None
                    },
                    None => r matches Some(c) && c@ == e && final(all_tags).deep_view() == old(
                        all_tags,
                    ).deep_view().push(e),
                }
            }
        }),
{
    let t = recortar(entrada);
    if t.as_str().is_empty() {
        return Some(cadena_de("Sin Categoría"));
    }
    match leer_usize(t.as_str()) {
        Some(id) => {
            if id > 0 && id <= all_tags.len() {
                assert(all_tags@[id - 1]@ == all_tags.deep_view()[id - 1]);
                Some(all_tags[id - 1].clone())
            } else {
                None
            }
        },
        None => {
            let ghost d = all_tags.deep_view();
            all_tags.push(t.clone());
            assert(all_tags.deep_view() =~= d.push(t@));
            Some(t)
        },
    }
}

/// Las líneas de las primeras `k` tareas, cada una tras un salto de línea.
pub open spec fn lineas_tasks(ts: Seq<VistaTask>, k: nat) -> Seq<char>
    decreases k,
{
    if k == 0 {
        seq![]
    } else {
        lineas_tasks(ts, (k - 1) as nat) + "\n"@ + formato_task(ts[k - 1], k)
    }
}

/// La lista completa de tareas, numeradas desde 1.
pub fn list_tasks(list: &Vec<Task>) -> (r: String)
    ensures
        r@ == "\n LISTA DE TAREAS:"@ + lineas_tasks(list.deep_view(), list@.len()),
{
    let ghost d = list.deep_view();
    let mut r = cadena_de("\n LISTA DE TAREAS:");
    let mut i: usize = 0;
    while i < list.len()
        invariant
            i <= list@.len(),
            d == list.deep_view(),
            r@ == "\n LISTA DE TAREAS:"@ + lineas_tasks(d, i as nat),
        decreases list@.len() - i,
    {
        r.append("\n");
        let l = list[i].format_task(i + 1);
        r.append(l.as_str());
        i = i + 1;
        assert(r@ =~= "\n LISTA DE TAREAS:"@ + lineas_tasks(d, i as nat));
    }
    r
}

/// La tarea completada: hecha, y todas sus subtareas hechas.
pub open spec fn completada(t: VistaTask) -> VistaTask {
    (t.0, true, t.2, t.3, t.4.map_values(|s: VistaSubtask| (s.0, true)))
}

/// Completa la tarea con el número `id` (desde 1) y sus subtareas; si no lo
/// estaba, la cuenta como hecha y no pendiente. Devuelve si el número es válido.
pub fn complete_task(tasks: &mut Vec<Task>, id: usize, stats: &mut Statistics) -> (valido: bool)
    requires
        1 <= id <= old(tasks)@.len() && !old(tasks)@[id - 1].done ==> old(stats).pending_tasks > 0
            && old(stats).done_tasks < usize::MAX,
    ensures
        valido == (1 <= id <= old(tasks)@.len()),
        valido ==> final(tasks).deep_view() == old(tasks).deep_view().update(
            id - 1,
            completada(old(tasks).deep_view()[id - 1]),
        ),
        valido && !old(tasks)@[id - 1].done ==> final(stats).done_tasks == old(stats).done_tasks + 1
            && final(stats).pending_tasks == old(stats).pending_tasks - 1,
        valido && !old(tasks)@[id - 1].done ==> final(stats).added_tasks == old(stats).added_tasks
            && final(stats).removed_tasks == old(stats).removed_tasks,
        !(valido && !old(tasks)@[id - 1].done) ==> *final(stats) == *old(stats),
        !valido ==> final(tasks).deep_view() == old(tasks).deep_view(),
        estadisticas_consistentes(old(tasks).deep_view(), *old(stats)) ==> estadisticas_consistentes(
            final(tasks).deep_view(),
            *final(stats),
        ),
{
    if id > 0 && id <= tasks.len() {
        let ghost d = tasks.deep_view();
        let ghost estaba = d[id - 1].1;
        let ghost tv = d[id - 1];
        let mut t = tasks.remove(id - 1);
        assert(t@ == tv);
        if !t.done {
            t.done = true;
            stats.done_tasks = stats.done_tasks + 1;
            stats.pending_tasks = stats.pending_tasks - 1;
        }
        let mut subs: Vec<Subtask> = Vec::new();
        let mut viejas = t.subtasks;
        let ghost sv = viejas.deep_view();
        assert(sv == tv.4);
        let mut k: usize = 0;
        let n = viejas.len();
        while viejas.len() > 0
            invariant
                viejas@.len() + subs@.len() == n,
                n == sv.len(),
                viejas.deep_view() == sv.subrange(subs@.len() as int, n as int),
                subs.deep_view() == sv.subrange(0, subs@.len() as int).map_values(
                    |s: VistaSubtask| (s.0, true),
                ),
            decreases viejas@.len(),
        {
            let ghost vd = viejas.deep_view();
            let mut s = viejas.remove(0);
            assert(s@ == vd[0]);
            s.done = true;
            let ghost antes = subs.deep_view();
            let ghost m = subs@.len();
            subs.push(s);
            assert(subs.deep_view() =~= antes.push((sv[m as int].0, true)));
            assert(viejas.deep_view() =~= vd.remove(0));
            assert(viejas.deep_view() =~= sv.subrange(subs@.len() as int, n as int));
            assert(subs.deep_view() =~= sv.subrange(0, subs@.len() as int).map_values(
                |s: VistaSubtask| (s.0, true),
            ));
        }
        assert(sv.subrange(0, n as int) =~= sv);
        t.subtasks = subs;
        let ghost nueva = t@;
        assert(nueva =~= completada(tv));
        tasks.insert(id - 1, t);
        assert(tasks.deep_view() =~= d.update(id - 1, completada(tv)));
        proof {
            lema_cuentas_cambio(d, id - 1, completada(tv));
        }
        true
    } else {
        false
    }
}

/// Quita la tarea con el número `id` (desde 1), la cuenta como eliminada y
/// descuenta la hecha o la pendiente. Devuelve su descripción, o nada si el
/// número no es válido.
pub fn remove_task(tasks: &mut Vec<Task>, id: usize, stats: &mut Statistics) -> (r: Option<String>)
    requires
        1 <= id <= old(tasks)@.len() ==> old(stats).removed_tasks < usize::MAX && (if old(
            tasks,
        )@[id - 1].done {
            old(stats).done_tasks > 0
        } else {
            old(stats).pending_tasks > 0
        }),
    ensures
        r is Some == (1 <= id <= old(tasks)@.len()),
        r matches Some(d) ==> d@ == old(tasks).deep_view()[id - 1].0,
        r is Some ==> final(tasks).deep_view() == old(tasks).deep_view().remove(id - 1),
        r is Some ==> final(stats).removed_tasks == old(stats).removed_tasks + 1
            && final(stats).added_tasks == old(stats).added_tasks,
        r is Some && old(tasks)@[id - 1].done ==> final(stats).done_tasks == old(stats).done_tasks
            - 1 && final(stats).pending_tasks == old(stats).pending_tasks,
        r is Some && !old(tasks)@[id - 1].done ==> final(stats).pending_tasks == old(
            stats,
        ).pending_tasks - 1 && final(stats).done_tasks == old(stats).done_tasks,
        r is None ==> final(tasks).deep_view() == old(tasks).deep_view() && *final(stats) == *old(
            stats,
        ),
        estadisticas_consistentes(old(tasks).deep_view(), *old(stats)) ==> estadisticas_consistentes(
            final(tasks).deep_view(),
            *final(stats),
        ),
{
    if id > 0 && id <= tasks.len() {
        let ghost d = tasks.deep_view();
        let removed_task = tasks.remove(id - 1);
        assert(tasks.deep_view() =~= d.remove(id - 1));
        assert(removed_task@ == d[id - 1]);
        stats.removed_tasks = stats.removed_tasks + 1;
        if removed_task.done {
            stats.done_tasks = stats.done_tasks - 1;
        } else {
            stats.pending_tasks = stats.pending_tasks - 1;
        }
        proof {
            lema_cuentas_quitar(d, id - 1);
        }
        Some(removed_task.description)
    } else {
        None
    }
}

/// Un cambio que el usuario elige para una tarea.
#[derive(Debug)]
pub enum Edicion {
    /// La nueva descripción, tal como se escribió.
    Descripcion(String),
    /// La nueva prioridad.
    Prioridad(Priority),
    /// La nueva categoría.
    Categoria(String),
    /// La descripción de una subtarea nueva, tal como se escribió.
    AgregarSubtarea(String),
    /// El número de la subtarea a completar, tal como se escribió.
    CompletarSubtarea(String),
}

/// La tarea tras la edición, o nada si la edición no vale (subtarea vacía o
/// número de subtarea no válido).
pub open spec fn editada(t: VistaTask, e: Edicion) -> Option<VistaTask> {
    match e {
        Edicion::Descripcion(d) => Some((recortado(d@), t.1, t.2, t.3, t.4)),
        Edicion::Prioridad(p) => Some((t.0, t.1, p, t.3, t.4)),
        Edicion::Categoria(c) => Some((t.0, t.1, t.2, c@, t.4)),
        Edicion::AgregarSubtarea(d) => if recortado(d@).len() > 0 {
            Some((t.0, t.1, t.2, t.3, t.4.push((recortado(d@), false))))
        } else {
            None
        },
        Edicion::CompletarSubtarea(n) => match lectura_usize(recortado(n@)) {
            Some(k) => if 1 <= k && k <= t.4.len() {
                Some((t.0, t.1, t.2, t.3, t.4.update(k - 1, (t.4[k - 1].0, true))))
            } else {
                None
            },
            None => None,
        },
    }
}

/// Completar la subtarea número `k` (desde 1, como la muestra `format_task`)
/// marca hecha la subtarea de la posición `k - 1`, con la misma descripción,
/// y deja igual la tarea y las demás subtareas.
pub proof fn ley_completar_subtarea(t: VistaTask, n: String, k: usize)
    requires
        lectura_usize(recortado(n@)) == Some(k),
        1 <= k <= t.4.len(),
    ensures
        editada(t, Edicion::CompletarSubtarea(n)) matches Some(u) && u.0 == t.0 && u.1 == t.1
            && u.2 == t.2 && u.3 == t.3 && u.4.len() == t.4.len() && u.4[k - 1] == (
            t.4[k - 1].0,
            true,
        ) && forall|i: int| 0 <= i < t.4.len() && i != k - 1 ==> u.4[i] == #[trigger] t.4[i],
{
}

/// Aplica una edición a la tarea con el número `task_id` (desde 1). Devuelve
/// si la aplicó: el número es válido y la edición vale. No cambia si la
/// tarea está hecha, así que las estadísticas siguen valiendo.
pub fn edit_task(tasks: &mut Vec<Task>, task_id: usize, edicion: Edicion) -> (aplicada: bool)
    ensures
        !(1 <= task_id <= old(tasks)@.len()) ==> !aplicada && final(tasks).deep_view() == old(
            tasks,
        ).deep_view(),
        1 <= task_id <= old(tasks)@.len() ==> match editada(
            old(tasks).deep_view()[task_id - 1],
            edicion,
        ) {
            Some(n) => aplicada && final(tasks).deep_view() == old(tasks).deep_view().update(
                task_id - 1,
                n,
            ),
            None => !aplicada && final(tasks).deep_view() == old(tasks).deep_view(),
        },
        forall|s: Statistics|
            estadisticas_consistentes(old(tasks).deep_view(), s) ==> estadisticas_consistentes(
                final(tasks).deep_view(),
                s,
            ),
{
    if task_id == 0 || task_id > tasks.len() {
        return false;
    }
    let ghost d = tasks.deep_view();
    let ghost ev = edicion;
    let mut task = tasks.remove(task_id - 1);
    let ghost tv = task@;
    assert(tv == d[task_id - 1]);
    let aplicada = match edicion {
        Edicion::Descripcion(nueva) => {
            task.description = recortar(nueva.as_str());
            true
        },
        Edicion::Prioridad(p) => {
            task.priority = p;
            true
        },
        Edicion::Categoria(c) => {
            task.tag = c;
            true
        },
        Edicion::AgregarSubtarea(desc) => {
            let r = recortar(desc.as_str());
            if !r.as_str().is_empty() {
                let ghost sv = task.subtasks.deep_view();
                task.subtasks.push(Subtask { description: r, done: false });
                assert(task.subtasks.deep_view() =~= sv.push((recortado(desc@), false)));
                true
            } else {
                false
            }
        },
        Edicion::CompletarSubtarea(n) => {
            let r = recortar(n.as_str());
            match leer_usize(r.as_str()) {
                Some(k) => {
                    if k > 0 && k <= task.subtasks.len() {
                        let ghost sv = task.subtasks.deep_view();
                        let mut s = task.subtasks.remove(k - 1);
                        assert(s@ == sv[k - 1]);
                        s.done = true;
                        task.subtasks.insert(k - 1, s);
                        assert(task.subtasks.deep_view() =~= sv.update(k - 1, (sv[k - 1].0, true)));
                        true
                    } else {
                        false
                    }
                },
                None => false,
            }
        },
    };
    let ghost nv = task@;
    tasks.insert(task_id - 1, task);
    assert(aplicada ==> editada(tv, ev) == Some(nv));
    assert(!aplicada ==> editada(tv, ev) is None && nv == tv);
    assert(tasks.deep_view() =~= d.update(task_id - 1, nv));
    if !aplicada {
        assert(d.update(task_id - 1, nv) =~= d);
    }
    proof {
        lema_cuentas_cambio(d, task_id - 1, nv);
    }
    aplicada
}

/// El reporte de estadísticas.
pub fn show_stats(stats: &Statistics) -> (r: String)
    ensures
        r@ == "\n--- REPORTE DE ESTADÍSTICAS ---\nTareas Agregadas: "@ + decimal(
            stats.added_tasks as nat,
        ) + "\nTareas Completadas: "@ + decimal(stats.done_tasks as nat)
            + "\nTareas Pendientes: "@ + decimal(stats.pending_tasks as nat)
            + "\nTareas Eliminadas: "@ + decimal(stats.removed_tasks as nat)
            + "\n-------------------------------"@,
{
    let mut r = cadena_de("\n--- REPORTE DE ESTADÍSTICAS ---\nTareas Agregadas: ");
    r.append(escribir_usize(stats.added_tasks).as_str());
    r.append("\nTareas Completadas: ");
    r.append(escribir_usize(stats.done_tasks).as_str());
    r.append("\nTareas Pendientes: ");
    r.append(escribir_usize(stats.pending_tasks).as_str());
    r.append("\nTareas Eliminadas: ");
    r.append(escribir_usize(stats.removed_tasks).as_str());
    r.append("\n-------------------------------");
    r
}

} // verus!
