//! Las estructuras de la primera versión del gestor: tareas con prioridad,
//! categoría y subtareas, y las estadísticas de uso.
use vstd::prelude::*;

use crate::texto::{cadena_de, decimal, escribir_usize};

verus! {

/// Lo que una subtarea es: descripción y si está hecha.
pub type VistaSubtask = (Seq<char>, bool);

/// Lo que una tarea es: descripción, hecha, prioridad, categoría y subtareas.
pub type VistaTask = (Seq<char>, bool, Priority, Seq<char>, Seq<VistaSubtask>);

/// Una tarea principal.
#[derive(Debug)]
pub struct Task {
    pub description: String,
    pub done: bool,
    pub priority: Priority,
    pub tag: String,
    pub subtasks: Vec<Subtask>,
}

/// Una subtarea, parte de una tarea principal.
#[derive(Debug)]
pub struct Subtask {
    pub description: String,
    pub done: bool,
}

/// Estadísticas de uso.
#[derive(Debug)]
pub struct Statistics {
    pub added_tasks: usize,
    pub done_tasks: usize,
    pub pending_tasks: usize,
    pub removed_tasks: usize,
}

/// Los niveles de prioridad.
#[derive(Clone, Copy, Debug, PartialEq, Eq)]
pub enum Priority {
    Alta,
    Media,
    Baja,
}

impl View for Subtask {
    type V = VistaSubtask;

    open spec fn view(&self) -> VistaSubtask {
        (self.description@, self.done)
    }
}

impl DeepView for Subtask {
    type V = VistaSubtask;

    open spec fn deep_view(&self) -> VistaSubtask {
        self@
    }
}

impl View for Task {
    type V = VistaTask;

    open spec fn view(&self) -> VistaTask {
        (self.description@, self.done, self.priority, self.tag@, self.subtasks.deep_view())
    }
}

impl DeepView for Task {
    type V = VistaTask;

    open spec fn deep_view(&self) -> VistaTask {
        self@
    }
}

impl Default for Statistics {
    fn default() -> (r: Self)
        ensures
            r.added_tasks == 0 && r.done_tasks == 0 && r.pending_tasks == 0 && r.removed_tasks == 0,
    {
        Statistics { added_tasks: 0, done_tasks: 0, pending_tasks: 0, removed_tasks: 0 }
    }
}

/// El nombre de una prioridad, como lo escribe `{:?}`.
pub open spec fn nombre_prioridad(p: Priority) -> Seq<char> {
    match p {
        Priority::Alta => "Alta"@,
        Priority::Media => "Media"@,
        Priority::Baja => "Baja"@,
    }
}

impl Priority {
    /// El nombre de la prioridad.
    pub fn nombre(&self) -> (r: String)
        ensures
            r@ == nombre_prioridad(*self),
    {
        match self {
            Priority::Alta => cadena_de("Alta"),
            Priority::Media => cadena_de("Media"),
            Priority::Baja => cadena_de("Baja"),
        }
    }
}

/// El estado que se muestra: `[X]` hecha, `[ ]` pendiente.
pub open spec fn marca_hecha(done: bool) -> Seq<char> {
    if done {
        "[X]"@
    } else {
        "[ ]"@
    }
}

/// Las líneas de las primeras `k` subtareas de la tarea `id`.
pub open spec fn lineas_subtareas(subs: Seq<VistaSubtask>, id: nat, k: nat) -> Seq<char>
    decreases k,
{
    if k == 0 {
        seq![]
    } else {
        lineas_subtareas(subs, id, (k - 1) as nat) + "\n\t"@ + marca_hecha(subs[k - 1].1) + " "@
            + decimal(id) + "."@ + decimal(k) + " "@ + subs[k - 1].0
    }
}

/// Cómo se muestra la tarea `t` con el número `id`: el estado, el número, la
/// descripción, la prioridad y la categoría, y debajo sus subtareas.
pub open spec fn formato_task(t: VistaTask, id: nat) -> Seq<char> {
    marca_hecha(t.1) + " "@ + decimal(id) + ": "@ + t.0 + " ("@ + nombre_prioridad(t.2) + ") - "@
        + t.3 + lineas_subtareas(t.4, id, t.4.len())
}

impl Task {
    /// El texto con que se muestra la tarea con el número `id`.
    pub fn format_task(&self, id: usize) -> (r: String)
        ensures
            r@ == formato_task(self@, id as nat),
    {
        let ghost subs = self.subtasks.deep_view();
        let mut r = String::new();
        if self.done {
            r.append("[X]");
        } else {
            r.append("[ ]");
        }
        r.append(" ");
        let n = escribir_usize(id);
        r.append(n.as_str());
        r.append(": ");
        r.append(self.description.as_str());
        r.append(" (");
        let p = self.priority.nombre();
        r.append(p.as_str());
        r.append(") - ");
        r.append(self.tag.as_str());
        let ghost cabeza = r@;
        let mut i: usize = 0;
        while i < self.subtasks.len()
            invariant
                i <= self.subtasks@.len(),
                subs == self.subtasks.deep_view(),
                n@ == decimal(id as nat),
                r@ == cabeza + lineas_subtareas(subs, id as nat, i as nat),
            decreases self.subtasks@.len() - i,
        {
            let s = &self.subtasks[i];
            assert(s@ == subs[i as int]);
            r.append("\n\t");
            if s.done {
                r.append("[X]");
            } else {
                r.append("[ ]");
            }
            r.append(" ");
            r.append(n.as_str());
            r.append(".");
            let k = escribir_usize(i + 1);
            r.append(k.as_str());
            r.append(" ");
            r.append(s.description.as_str());
            assert(lineas_subtareas(subs, id as nat, (i + 1) as nat) == lineas_subtareas(
                subs,
                id as nat,
                i as nat,
            ) + "\n\t"@ + marca_hecha(subs[i as int].1) + " "@ + decimal(id as nat) + "."@ + decimal(
                (i + 1) as nat,
            ) + " "@ + subs[i as int].0);
            i = i + 1;
            assert(r@ =~= cabeza + lineas_subtareas(subs, id as nat, i as nat));
        }
        assert(r@ =~= formato_task(self@, id as nat));
        r
    }
}

} // verus!
