//! La aplicación: las tareas, sus comandos y las decisiones de la línea de
//! órdenes y del menú.
use vstd::prelude::*;

pub mod commands;
pub mod task;
pub mod ui;

use crate::settings::{nombre_archivo, Settings};
use crate::texto::{cadena_de, iguales, unir, unir_con};

verus! {

/// Lo que pide la línea de órdenes, más allá del nombre del programa.
#[derive(Debug)]
pub enum Orden {
    /// Sin argumentos: el menú interactivo.
    Menu,
    /// Un nombre que la configuración no conoce; el texto es el mensaje.
    Desconocida(String),
    /// El comando interno y sus argumentos, unidos por espacios.
    Comando(String, String),
}

/// Lo que pide la línea de órdenes `argumentos` (el primero es el programa).
pub open spec fn orden(argumentos: Seq<Seq<char>>, comandos: Map<Seq<char>, Seq<char>>) -> (
    u8,
    Seq<char>,
    Seq<char>,
) {
    if argumentos.len() <= 1 {
        (0, seq![], seq![])
    } else if comandos.contains_key(argumentos[1]) {
        (2, comandos[argumentos[1]], unir(argumentos.skip(2), " "@))
    } else {
        (1, "❌ Comando '"@ + argumentos[1] + "' no reconocido."@, seq![])
    }
}

/// La vista de una orden: su clase y sus textos.
pub open spec fn vista_orden(o: Orden) -> (u8, Seq<char>, Seq<char>) {
    match o {
        Orden::Menu => (0, seq![], seq![]),
        Orden::Desconocida(m) => (1, m@, seq![]),
        Orden::Comando(c, a) => (2, c@, a@),
    }
}

/// Interpreta la línea de órdenes: sin argumentos, el menú; si no, el nombre
/// del comando se traduce con la configuración y el resto se une con espacios.
pub fn interpretar(argumentos: &Vec<String>, settings: &Settings) -> (r: Orden)
    ensures
        vista_orden(r) == orden(argumentos.deep_view(), settings.comandos@),
{
    if argumentos.len() <= 1 {
        return Orden::Menu;
    }
    let nombre = argumentos[1].as_str();
    assert(argumentos.deep_view()[1] == nombre@);
    match settings.comandos.obtener(nombre) {
        Some(interno) => {
            let mut resto: Vec<String> = Vec::new();
            let mut i: usize = 2;
            let ghost d = argumentos.deep_view();
            while i < argumentos.len()
                invariant
                    2 <= i <= argumentos@.len(),
                    d == argumentos.deep_view(),
                    resto.deep_view() == d.subrange(2, i as int),
                decreases argumentos@.len() - i,
            {
                let ghost antes = resto.deep_view();
                assert(argumentos@[i as int]@ == d[i as int]);
                resto.push(argumentos[i].clone());
                assert(resto.deep_view() =~= antes.push(d[i as int]));
                i = i + 1;
                assert(resto.deep_view() =~= d.subrange(2, i as int));
            }
            assert(d.subrange(2, argumentos@.len() as int) =~= d.skip(2));
            let args = unir_con(&resto, " ");
            Orden::Comando(interno.clone(), args)
        },
        None => {
            let mut m = cadena_de("❌ Comando '");
            m.append(nombre);
            m.append("' no reconocido.");
            Orden::Desconocida(m)
        },
    }
}

/// Tras un comando de la línea de órdenes se guarda la lista, salvo tras
/// `eliminar_todas`, que borra el archivo.
pub fn debe_guardar(comando_interno: &str) -> (r: bool)
    ensures
        r == (comando_interno@ != "eliminar_todas"@),
{
    !iguales(comando_interno, "eliminar_todas")
}

/// El aviso inicial: el formato y el archivo en uso.
pub fn aviso_inicial(settings: &Settings) -> (r: String)
    ensures
        r@ == "Usando formato: '"@ + settings.storage.format@ + "', Archivo: '"@ + nombre_archivo(
            settings,
        ) + "'"@,
{
    let mut r = cadena_de("Usando formato: '");
    r.append(settings.storage.format.as_str());
    r.append("', Archivo: '");
    let n = settings.nombre_archivo();
    r.append(n.as_str());
    r.append("'");
    r
}

} // verus!
