//! Los formatos en que se guardan las tareas y cómo se elige uno.
use vstd::prelude::*;

pub mod csv;
pub mod txt;

pub use self::csv::CsvStorage;
pub use self::txt::TxtStorage;

use crate::texto::{cadena_de, iguales, partir, recortado, recortar};

verus! {

/// El guardado en JSON (lo hace `serde_json` sobre las tareas).
#[derive(Debug)]
pub struct JsonStorage;

/// El guardado en bincode (lo hace `bincode` sobre las tareas).
#[derive(Debug)]
pub struct BincodeStorage;

impl JsonStorage {
    /// Un archivo JSON en blanco (vacío o sólo con espacios) no tiene tareas.
    pub fn en_blanco(&self, contenido: &str) -> (r: bool)
        ensures
            r == (recortado(contenido@).len() == 0),
    {
        let t = recortar(contenido);
        t.as_str().is_empty()
    }
}

/// El formato elegido.
#[derive(Debug)]
pub enum Storage {
    Csv(CsvStorage),
    Json(JsonStorage),
    Txt(TxtStorage),
    Bincode(BincodeStorage),
}

/// El último componente entre los trozos de una ruta Unix separados por `/`,
/// como lo recorre `Path::components`: los separadores repetidos, la `/` final
/// y los `.` no dan componentes.
pub open spec fn ultimo_componente(trozos: Seq<Seq<char>>) -> Option<Seq<char>>
    decreases trozos.len(),
{
    if trozos.len() == 0 {
        None
    } else if trozos.last().len() == 0 || trozos.last() == "."@ {
        ultimo_componente(trozos.drop_last())
    } else {
        Some(trozos.last())
    }
}

/// `Path::file_name` en Unix: el último componente, salvo que sea `..`.
pub open spec fn nombre_de_archivo(ruta: Seq<char>) -> Option<Seq<char>> {
    match ultimo_componente(partir(ruta, '/')) {
        Some(n) => if n == ".."@ {
            None
        } else {
            Some(n)
        },
        None => None,
    }
}

/// La posición del último `.` de `n`, si lo hay.
pub open spec fn ultimo_punto(n: Seq<char>) -> Option<int>
    decreases n.len(),
{
    if n.len() == 0 {
        None
    } else if n.last() == '.' {
        Some(n.len() - 1)
    } else {
        ultimo_punto(n.drop_last())
    }
}

/// La extensión de una ruta Unix, o vacío si no tiene: lo que sigue al último
/// `.` del nombre de archivo, salvo que ese `.` sea el primer carácter.
pub open spec fn extension_de(ruta: Seq<char>) -> Seq<char> {
    match nombre_de_archivo(ruta) {
        Some(n) => match ultimo_punto(n) {
            Some(k) => if k == 0 {
                seq![]
            } else {
                n.skip(k + 1)
            },
            None => seq![],
        },
        None => seq![],
    }
}

/// `Path::new(ruta).extension().and_then(|e| e.to_str()).unwrap_or("")`. Se
/// afirma lo que documenta std para Unix: `file_name` es el último componente
/// de la ruta (nada si es `..` o no hay ninguno) y `extension` es lo que sigue
/// al último `.` del nombre, nada si no tiene `.` o si su único `.` es el
/// primer carácter; `to_str` no falla sobre una ruta que vino de un `&str`.
#[verifier::external_body]
fn extension(ruta: &str) -> (r: String)
    ensures
        r@ == extension_de(ruta@),
{
    std::path::Path::new(ruta).extension().and_then(|e| e.to_str()).unwrap_or("").to_string()
}

/// El formato que nombra `nombre`: `csv`, `json`, `txt` o `bincode`.
pub open spec fn es_formato(s: Storage, nombre: Seq<char>) -> bool {
    match s {
        Storage::Csv(_) => nombre == "csv"@,
        Storage::Json(_) => nombre == "json"@,
        Storage::Txt(_) => nombre == "txt"@,
        Storage::Bincode(_) => nombre == "bincode"@,
    }
}

/// Hay un formato con ese nombre.
pub open spec fn formato_conocido(nombre: Seq<char>) -> bool {
    nombre == "csv"@ || nombre == "json"@ || nombre == "txt"@ || nombre == "bincode"@
}

impl Storage {
    /// El formato con ese nombre, si lo hay.
    pub fn con_nombre(nombre: &str) -> (r: Option<Storage>)
        ensures
            r is Some <==> formato_conocido(nombre@),
            r matches Some(s) ==> es_formato(s, nombre@),
    {
        if iguales(nombre, "csv") {
            Some(Storage::Csv(CsvStorage))
        } else if iguales(nombre, "json") {
            Some(Storage::Json(JsonStorage))
        } else if iguales(nombre, "txt") {
            Some(Storage::Txt(TxtStorage))
        } else if iguales(nombre, "bincode") {
            Some(Storage::Bincode(BincodeStorage))
        } else {
            None
        }
    }

    /// El formato de la configuración: el que nombra, o texto si no nombra ninguno.
    pub fn desde_formato(formato: &str) -> (r: Storage)
        ensures
            formato_conocido(formato@) ==> es_formato(r, formato@),
            !formato_conocido(formato@) ==> r is Txt,
    {
        match Storage::con_nombre(formato) {
            Some(s) => s,
            None => Storage::Txt(TxtStorage),
        }
    }

    /// El formato que indica la extensión de la ruta, si es uno conocido.
    pub fn por_extension(ruta: &str) -> (r: Option<Storage>)
        ensures
            r is Some <==> formato_conocido(extension_de(ruta@)),
            r matches Some(s) ==> es_formato(s, extension_de(ruta@)),
    {
        let e = extension(ruta);
        Storage::con_nombre(e.as_str())
    }
}

/// El error de un archivo que no existe.
pub open spec fn msg_no_encontrado(ruta: Seq<char>) -> Seq<char> {
    "No se pudo encontrar el archivo en la ruta '"@ + ruta + "'"@
}

/// El error de un archivo cuyo formato no se conoce.
pub open spec fn msg_formato_no_soportado() -> Seq<char> {
    "Formato de archivo no soportado. Usá .csv, .json, .txt, o .bincode."@
}

/// El error de un archivo que no existe.
pub fn no_encontrado(ruta: &str) -> (r: String)
    ensures
        r@ == msg_no_encontrado(ruta@),
{
    let mut r = cadena_de("No se pudo encontrar el archivo en la ruta '");
    r.append(ruta);
    r.append("'");
    r
}

/// El error de un archivo cuyo formato no se conoce.
pub fn formato_no_soportado() -> (r: String)
    ensures
        r@ == msg_formato_no_soportado(),
{
    cadena_de("Formato de archivo no soportado. Usá .csv, .json, .txt, o .bincode.")
}

} // verus!
