//! Las decisiones del menú interactivo: qué opciones ofrecer y qué hacer con
//! la elegida. Mostrar el menú y leer la elección queda fuera.
use vstd::prelude::*;

use crate::app::task::Tarea;
use crate::settings::Settings;
use crate::texto::{cadena_de, decimal, en_orden, escribir_usize, iguales, lema_es_en_orden};

verus! {

/// Las opciones del menú: los nombres de comando de menor a mayor y `salir`.
pub fn opciones_menu(settings: &Settings) -> (r: Vec<String>)
    ensures
        r.deep_view() == en_orden(settings.comandos@.dom()).push("salir"@),
{
    let mut r = settings.comandos.claves_ordenadas();
    proof {
        lema_es_en_orden(r.deep_view());
    }
    let ghost antes = r.deep_view();
    r.push(cadena_de("salir"));
    assert(r.deep_view() =~= antes.push("salir"@));
    r
}

/// Los temas de ayuda: los comandos con explicación, de menor a mayor.
pub fn topicos_de_ayuda(settings: &Settings) -> (r: Vec<String>)
    ensures
        r.deep_view() == en_orden(settings.explicaciones@.dom()),
{
    let r = settings.explicaciones.claves_ordenadas();
    proof {
        lema_es_en_orden(r.deep_view());
    }
    r
}

/// Qué hacer con la opción elegida.
#[derive(Debug)]
pub enum Accion {
    /// Terminar.
    Salir,
    /// Elegir un tema y mostrar su ayuda.
    Ayuda,
    /// Elegir una tarea y una etiqueta válida para agregarle.
    Etiquetar,
    /// Elegir una tarea y una de sus etiquetas para quitarle.
    Desetiquetar,
    /// Pedir el parámetro si hace falta y ejecutar este comando interno.
    Estandar(String),
    /// Nada: la opción no corresponde a ningún comando.
    Ninguna,
}

/// La acción para la opción `eleccion`.
pub open spec fn accion(eleccion: Seq<char>, comandos: Map<Seq<char>, Seq<char>>) -> (u8, Seq<char>) {
    if eleccion == "salir"@ {
        (0, seq![])
    } else if !comandos.contains_key(eleccion) {
        (5, seq![])
    } else if comandos[eleccion] == "explicar"@ {
        (1, seq![])
    } else if comandos[eleccion] == "etiquetar"@ {
        (2, seq![])
    } else if comandos[eleccion] == "desetiquetar"@ {
        (3, seq![])
    } else {
        (4, comandos[eleccion])
    }
}

/// La vista de una acción: su clase y, para un comando, su nombre interno.
pub open spec fn vista_accion(a: Accion) -> (u8, Seq<char>) {
    match a {
        Accion::Salir => (0, seq![]),
        Accion::Ayuda => (1, seq![]),
        Accion::Etiquetar => (2, seq![]),
        Accion::Desetiquetar => (3, seq![]),
        Accion::Estandar(c) => (4, c@),
        Accion::Ninguna => (5, seq![]),
    }
}

/// La acción para la opción elegida del menú.
pub fn accion_menu(eleccion: &str, settings: &Settings) -> (r: Accion)
    ensures
        vista_accion(r) == accion(eleccion@, settings.comandos@),
{
    if iguales(eleccion, "salir") {
        return Accion::Salir;
    }
    match settings.comandos.obtener(eleccion) {
        None => Accion::Ninguna,
        Some(c) => {
            if iguales(c.as_str(), "explicar") {
                Accion::Ayuda
            } else if iguales(c.as_str(), "etiquetar") {
                Accion::Etiquetar
            } else if iguales(c.as_str(), "desetiquetar") {
                Accion::Desetiquetar
            } else {
                Accion::Estandar(c.clone())
            }
        },
    }
}

/// Los comandos que piden un parámetro antes de ejecutarse.
pub open spec fn pide_parametro(comando: Seq<char>) -> bool {
    comando == "agregar"@ || comando == "completar"@ || comando == "desmarcar"@ || comando
        == "importar"@ || comando == "cargar"@ || comando == "eliminar"@
}

/// Si el comando pide un parámetro.
pub fn necesita_parametro(comando: &str) -> (r: bool)
    ensures
        r == pide_parametro(comando@),
{
    iguales(comando, "agregar") || iguales(comando, "completar") || iguales(comando, "desmarcar")
        || iguales(comando, "importar") || iguales(comando, "cargar") || iguales(
        comando,
        "eliminar",
    )
}

/// Los argumentos para (des)etiquetar la tarea de la posición `indice`
/// (desde 0) con la etiqueta `tag`: el número de tarea, un espacio y la etiqueta.
pub fn args_etiqueta(indice: usize, tag: &str) -> (r: String)
    requires
        indice < usize::MAX,
    ensures
        r@ == decimal((indice + 1) as nat) + " "@ + tag@,
{
    let mut r = escribir_usize(indice + 1);
    r.append(" ");
    r.append(tag);
    r
}

/// El aviso antes de elegir una tarea para etiquetar (o, si `quitar`, para
/// desetiquetar): ninguno si hay tareas.
pub open spec fn aviso_vacia(quitar: bool, n: nat) -> Option<Seq<char>> {
    if n > 0 {
        None
    } else if quitar {
        Some("\nNo hay tareas para desetiquetar."@)
    } else {
        Some("\nNo hay tareas para etiquetar. ¡Agregá una primero!"@)
    }
}

/// El aviso cuando no hay tareas que (des)etiquetar.
pub fn aviso_sin_tareas(quitar: bool, tareas: &Vec<Tarea>) -> (r: Option<String>)
    ensures
        r.deep_view() == aviso_vacia(quitar, tareas@.len()),
{
    if tareas.len() > 0 {
        None
    } else if quitar {
        Some(cadena_de("\nNo hay tareas para desetiquetar."))
    } else {
        Some(cadena_de("\nNo hay tareas para etiquetar. ¡Agregá una primero!"))
    }
}

/// El aviso cuando la tarea elegida para desetiquetar no tiene etiquetas.
pub fn aviso_sin_etiquetas(tarea: &Tarea) -> (r: Option<String>)
    ensures
        r.deep_view() == (if tarea.tags@.len() == 0 {
            Some("\nEsa tarea no tiene ninguna etiqueta para eliminar."@)
        } else {
            None::<Seq<char>>
        }),
{
    if tarea.tags.len() == 0 {
        Some(cadena_de("\nEsa tarea no tiene ninguna etiqueta para eliminar."))
    } else {
        None
    }
}

/// Las descripciones de las tareas, para elegir una.
pub fn descripciones(tareas: &Vec<Tarea>) -> (r: Vec<String>)
    ensures
        r@.len() == tareas@.len(),
        forall|i: int| 0 <= i < tareas@.len() ==> (#[trigger] r@[i])@ == tareas@[i].descripcion@,
{
    let mut r: Vec<String> = Vec::new();
    let mut i: usize = 0;
    while i < tareas.len()
        invariant
            i <= tareas@.len(),
            r@.len() == i,
            forall|j: int| 0 <= j < i ==> (#[trigger] r@[j])@ == tareas@[j].descripcion@,
        decreases tareas@.len() - i,
    {
        r.push(tareas[i].descripcion.clone());
        i = i + 1;
    }
    r
}

} // verus!
