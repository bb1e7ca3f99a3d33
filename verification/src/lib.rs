//! Gestor de tareas: la lógica verificada de una lista de tareas con etiquetas,
//! sus comandos, su configuración y sus formatos de guardado.
use vstd::prelude::*;

pub mod app;
pub mod data;
pub mod functions;
pub mod marca;
pub mod settings;
pub mod storage;
pub mod texto;

verus! {

} // verus!
