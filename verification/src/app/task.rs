//! Una tarea de la lista y cómo se muestra.
use vstd::prelude::*;

use crate::marca::{fecha_dia_mes_anio, Marca};
use crate::texto::{decimal, escribir_usize, unir, unir_con};

verus! {

/// Lo que una tarea es: descripción, si está completada, el instante del
/// último cambio de estado y sus etiquetas.
pub type VistaTarea = (Seq<char>, bool, Option<(i64, u32)>, Seq<Seq<char>>);

/// Una tarea de la lista.
#[derive(Debug, Clone, PartialEq)]
pub struct Tarea {
    pub descripcion: String,
    pub completada: bool,
    pub ultimo_cambio: Option<Marca>,
    pub tags: Vec<String>,
}

impl View for Tarea {
    type V = VistaTarea;

    open spec fn view(&self) -> VistaTarea {
        (self.descripcion@, self.completada, self.ultimo_cambio.deep_view(), self.tags.deep_view())
    }
}

impl DeepView for Tarea {
    type V = VistaTarea;

    open spec fn deep_view(&self) -> VistaTarea {
        self@
    }
}

/// La tarea nueva que se agrega con una descripción: pendiente, sin marca y sin etiquetas.
pub open spec fn tarea_nueva(descripcion: Seq<char>) -> VistaTarea {
    (descripcion, false, None, seq![])
}

/// El estado que se muestra: `[X]` completada, `[ ]` pendiente.
pub open spec fn texto_estado(completada: bool) -> Seq<char> {
    if completada {
        "[X]"@
    } else {
        "[ ]"@
    }
}

/// La fecha que se muestra entre paréntesis: sólo para tareas completadas con marca.
pub open spec fn texto_marca(t: VistaTarea) -> Seq<char> {
    if t.1 && t.2 is Some {
        "("@ + fecha_dia_mes_anio((t.2->0).0, (t.2->0).1) + ") "@
    } else {
        seq![]
    }
}

/// Las etiquetas que se muestran: `[sin etiquetas]` o la lista entre corchetes.
pub open spec fn texto_tags(tags: Seq<Seq<char>>) -> Seq<char> {
    if tags.len() == 0 {
        "[sin etiquetas]"@
    } else {
        "["@ + unir(tags, ", "@) + "]"@
    }
}

/// La línea con que se muestra la tarea `t` con el número `id`, por ejemplo
/// `[ ] 1: Comprar pan [sin etiquetas]`.
pub open spec fn linea_tarea(t: VistaTarea, id: nat) -> Seq<char> {
    texto_estado(t.1) + " "@ + texto_marca(t) + decimal(id) + ": "@ + t.0 + " "@ + texto_tags(t.3)
}

impl Tarea {
    /// La tarea nueva con la descripción dada.
    pub fn nueva(descripcion: &str) -> (t: Tarea)
        ensures
            t@ == tarea_nueva(descripcion@),
    {
        let t = Tarea {
            descripcion: descripcion.to_owned(),
            completada: false,
            ultimo_cambio: None,
            tags: Vec::new(),
        };
        assert(t.tags.deep_view() =~= Seq::<Seq<char>>::empty());
        t
    }

    /// La línea con que se muestra la tarea con el número `id`.
    pub fn mostrar(&self, id: usize) -> (r: String)
        ensures
            r@ == linea_tarea(self@, id as nat),
    {
        let mut r = String::new();
        if self.completada {
            r.append("[X]");
        } else {
            r.append("[ ]");
        }
        r.append(" ");
        if self.completada {
            match &self.ultimo_cambio {
                Some(m) => {
                    r.append("(");
                    let f = m.dia_mes_anio();
                    r.append(f.as_str());
                    r.append(") ");
                },
                None => {},
            }
        }
        let n = escribir_usize(id);
        r.append(n.as_str());
        r.append(": ");
        r.append(self.descripcion.as_str());
        r.append(" ");
        if self.tags.len() == 0 {
            r.append("[sin etiquetas]");
        } else {
            r.append("[");
            let j = unir_con(&self.tags, ", ");
            r.append(j.as_str());
            r.append("]");
        }
        assert(r@ =~= linea_tarea(self@, id as nat));
        r
    }
}

} // verus!
