//! Los comandos sobre la lista de tareas. Cada uno devuelve qué decir al
//! usuario y si la lista cambió; la lectura y el borrado de archivos los hace
//! quien llama y entrega el resultado.
use vstd::prelude::*;

use crate::app::task::{Tarea, VistaTarea};
use crate::marca::Marca;
use crate::settings::{nombre_archivo, Settings};
use crate::texto::{cadena_de, iguales, lectura_usize, leer_usize};

use self::agregar::agregar;
use self::cargar::{cargar, vista_lectura};
use self::completar::{marcar, msg_sin_hora, necesita_hora};
use self::desetiquetar::desetiquetar;
use self::eliminar::eliminar;
use self::eliminar_todas::eliminar_todas;
use self::etiquetar::etiquetar;
use self::explicar::explicar;
use self::importar::importar;
use self::listar::listar;

pub mod agregar;
pub mod cargar;
pub mod completar;
pub mod desmarcar;
pub mod desetiquetar;
pub mod eliminar;
pub mod eliminar_todas;
pub mod etiquetar;
pub mod explicar;
pub mod importar;
pub mod leyes;
pub mod listar;

verus! {

/// Lo que un comando deja: si cambió la lista, qué mensaje mostrar y si el
/// mensaje es de error (va a la salida de errores).
pub type VistaSalida = (bool, Seq<char>, bool);

/// El resultado de un comando: la lista que queda y la salida.
pub type Efecto = (Seq<VistaTarea>, VistaSalida);

/// Lo que un comando informa al terminar.
#[derive(Debug)]
pub struct Salida {
    /// La lista cambió y conviene guardarla.
    pub cambio: bool,
    /// El texto para el usuario.
    pub mensaje: String,
    /// El texto va a la salida de errores.
    pub error: bool,
}

impl View for Salida {
    type V = VistaSalida;

    open spec fn view(&self) -> VistaSalida {
        (self.cambio, self.mensaje@, self.error)
    }
}

impl Salida {
    pub fn nueva(cambio: bool, mensaje: String, error: bool) -> (s: Salida)
        ensures
            s@ == (cambio, mensaje@, error),
    {
        Salida { cambio, mensaje, error }
    }
}

/// El número de tarea que escriben `args`, si está entre 1 y `n`.
pub open spec fn id_tarea(args: Seq<char>, n: nat) -> Option<usize> {
    match lectura_usize(args) {
        Some(id) => if 1 <= id && id <= n {
            Some(id)
        } else {
            None
        },
        None => None,
    }
}

/// Lee el número de tarea de `args` (`args.parse::<usize>()` entre 1 y `n`).
pub fn leer_id(args: &str, n: usize) -> (r: Option<usize>)
    ensures
        r == id_tarea(args@, n as nat),
{
    match leer_usize(args) {
        Some(id) => if 1 <= id && id <= n {
            Some(id)
        } else {
            None
        },
        None => None,
    }
}

/// El mensaje para un número de tarea que no es válido.
pub open spec fn msg_id_invalido() -> Seq<char> {
    "❌ ID de tarea no válido."@
}

/// Saca de la lista la tarea de la posición `i`.
pub fn sacar(tareas: &mut Vec<Tarea>, i: usize) -> (t: Tarea)
    requires
        i < old(tareas)@.len(),
    ensures
        t == old(tareas)@[i as int],
        final(tareas)@ == old(tareas)@.remove(i as int),
        final(tareas).deep_view() == old(tareas).deep_view().remove(i as int),
{
    let ghost d = tareas.deep_view();
    let t = tareas.remove(i);
    assert(tareas.deep_view() =~= d.remove(i as int));
    t
}

/// Vuelve a poner una tarea en la posición `i`.
pub fn poner(tareas: &mut Vec<Tarea>, i: usize, t: Tarea)
    requires
        i <= old(tareas)@.len(),
    ensures
        final(tareas).deep_view() == old(tareas).deep_view().insert(i as int, t@),
{
    let ghost d = tareas.deep_view();
    tareas.insert(i, t);
    assert(tareas.deep_view() =~= d.insert(i as int, t@));
}

/// Lo que un comando necesita de fuera antes de ejecutarse.
#[derive(Debug)]
pub enum Pedido {
    /// Nada.
    Ninguno,
    /// Leer las tareas del archivo con esta ruta (`cargar`, `importar`).
    LeerArchivo(String),
    /// Borrar el archivo de tareas con este nombre (`eliminar_todas`).
    BorrarArchivo(String),
}

/// Lo que se obtuvo de fuera para un comando.
#[derive(Debug)]
pub enum Respuesta {
    /// El comando no pidió nada.
    Ninguna,
    /// Las tareas leídas del archivo, o el texto del error.
    Archivo(Result<Vec<Tarea>, String>),
    /// Si se pudo borrar el archivo de tareas.
    Borrado(bool),
}

/// El comando lee un archivo: `cargar` o `importar` con una ruta.
pub open spec fn pide_archivo(comando: Seq<char>, args: Seq<char>) -> bool {
    (comando == "cargar"@ || comando == "importar"@) && args.len() > 0
}

/// El comando borra el archivo de tareas: `eliminar_todas`.
pub open spec fn pide_borrado(comando: Seq<char>) -> bool {
    comando == "eliminar_todas"@
}

/// La respuesta es de la clase que el comando pide.
pub open spec fn responde(comando: Seq<char>, args: Seq<char>, respuesta: Respuesta) -> bool {
    &&& pide_archivo(comando, args) ==> respuesta is Archivo
    &&& pide_borrado(comando) ==> respuesta is Borrado
}

/// Lo leído del archivo, según la respuesta.
pub open spec fn leido_de(respuesta: Respuesta) -> Result<Seq<VistaTarea>, Seq<char>> {
    match respuesta {
        Respuesta::Archivo(r) => vista_lectura(r),
        _ => Err(seq![]),
    }
}

/// Si se borró el archivo, según la respuesta.
pub open spec fn borrado_de(respuesta: Respuesta) -> bool {
    match respuesta {
        Respuesta::Borrado(b) => b,
        _ => false,
    }
}

/// Lo que pide de fuera el comando interno `comando` con `args`.
pub fn pedido(comando: &str, args: &str, settings: &Settings) -> (p: Pedido)
    ensures
        match p {
            Pedido::Ninguno => !pide_archivo(comando@, args@) && !pide_borrado(comando@),
            Pedido::LeerArchivo(ruta) => pide_archivo(comando@, args@) && ruta@ == args@,
            Pedido::BorrarArchivo(nombre) => pide_borrado(comando@) && nombre@ == nombre_archivo(
                settings,
            ),
        },
{
    if (iguales(comando, "cargar") || iguales(comando, "importar")) && !args.is_empty() {
        Pedido::LeerArchivo(cadena_de(args))
    } else if iguales(comando, "eliminar_todas") {
        Pedido::BorrarArchivo(settings.nombre_archivo())
    } else {
        Pedido::Ninguno
    }
}

/// Lo que hace el comando interno `comando` con `args` sobre la lista `ts`,
/// con la configuración, lo obtenido de fuera y el instante dados.
pub open spec fn procesar(
    comando: Seq<char>,
    args: Seq<char>,
    ts: Seq<VistaTarea>,
    settings: &Settings,
    respuesta: Respuesta,
    momento: (i64, u32),
) -> Efecto {
    if comando == "agregar"@ {
        agregar(args, ts)
    } else if comando == "cargar"@ {
        cargar(args, ts, leido_de(respuesta))
    } else if comando == "completar"@ {
        marcar(args, ts, true, momento)
    } else if comando == "desmarcar"@ {
        marcar(args, ts, false, momento)
    } else if comando == "eliminar"@ {
        eliminar(args, ts)
    } else if comando == "eliminar_todas"@ {
        eliminar_todas(ts, borrado_de(respuesta))
    } else if comando == "importar"@ {
        importar(args, ts, leido_de(respuesta))
    } else if comando == "listar"@ {
        listar(args, ts)
    } else if comando == "explicar"@ {
        (ts, (false, explicar(args, settings.explicaciones@, settings.comandos@), false))
    } else if comando == "etiquetar"@ {
        etiquetar(args, ts, settings.general.tags_validos.deep_view())
    } else if comando == "desetiquetar"@ {
        desetiquetar(args, ts)
    } else {
        (ts, (false, "❌ Error interno: Comando '"@ + comando + "' no reconocido."@, false))
    }
}

fn archivo(respuesta: Respuesta) -> (r: Result<Vec<Tarea>, String>)
    ensures
        vista_lectura(r) == leido_de(respuesta),
{
    match respuesta {
        Respuesta::Archivo(r) => r,
        _ => Err(String::new()),
    }
}

fn borrado(respuesta: &Respuesta) -> (b: bool)
    ensures
        b == borrado_de(*respuesta),
{
    match respuesta {
        Respuesta::Borrado(b) => *b,
        _ => false,
    }
}

/// Los comandos que no son `completar` ni `desmarcar`, que no usan el instante.
fn procesar_sin_hora(
    comando: &str,
    args: &str,
    tareas: &mut Vec<Tarea>,
    settings: &Settings,
    respuesta: Respuesta,
) -> (s: Salida)
    requires
        comando@ != "completar"@,
        comando@ != "desmarcar"@,
        responde(comando@, args@, respuesta),
    ensures
        forall|m: (i64, u32)|
            #[trigger] procesar(comando@, args@, old(tareas).deep_view(), settings, respuesta, m)
                == (final(tareas).deep_view(), s@),
{
    if iguales(comando, "agregar") {
        agregar::ejecutar(args, tareas)
    } else if iguales(comando, "cargar") {
        cargar::ejecutar(args, tareas, archivo(respuesta))
    } else if iguales(comando, "eliminar") {
        eliminar::ejecutar(args, tareas)
    } else if iguales(comando, "eliminar_todas") {
        let b = borrado(&respuesta);
        eliminar_todas::ejecutar(args, tareas, b)
    } else if iguales(comando, "importar") {
        importar::ejecutar(args, tareas, archivo(respuesta))
    } else if iguales(comando, "listar") {
        listar::ejecutar(args, tareas)
    } else if iguales(comando, "explicar") {
        explicar::ejecutar(args, settings)
    } else if iguales(comando, "etiquetar") {
        etiquetar::ejecutar(args, tareas, settings)
    } else if iguales(comando, "desetiquetar") {
        desetiquetar::ejecutar(args, tareas)
    } else {
        let mut m = cadena_de("❌ Error interno: Comando '");
        m.append(comando);
        m.append("' no reconocido.");
        Salida::nueva(false, m, false)
    }
}

/// Ejecuta el comando interno `comando` con `args`, con lo obtenido de fuera
/// y el instante dados.
pub fn procesar_comando_en(
    comando: &str,
    args: &str,
    tareas: &mut Vec<Tarea>,
    settings: &Settings,
    respuesta: Respuesta,
    momento: Marca,
) -> (s: Salida)
    requires
        responde(comando@, args@, respuesta),
    ensures
        (final(tareas).deep_view(), s@) == procesar(
            comando@,
            args@,
            old(tareas).deep_view(),
            settings,
            respuesta,
            momento@,
        ),
{
    proof {
        reveal_strlit("agregar");
        reveal_strlit("cargar");
        reveal_strlit("completar");
        reveal_strlit("desmarcar");
    }
    if iguales(comando, "completar") {
        completar::ejecutar_en(args, tareas, momento)
    } else if iguales(comando, "desmarcar") {
        desmarcar::ejecutar_en(args, tareas, momento)
    } else {
        let ghost d = tareas.deep_view();
        let s = procesar_sin_hora(comando, args, tareas, settings, respuesta);
        assert(procesar(comando@, args@, d, settings, respuesta, momento@) == (
            tareas.deep_view(),
            s@,
        ));
        s
    }
}

/// `completar` o `desmarcar` sobre una tarea de la lista: los comandos que
/// leen la hora del sistema.
pub open spec fn pide_hora(comando: Seq<char>, args: Seq<char>, n: nat) -> bool {
    (comando == "completar"@ || comando == "desmarcar"@) && necesita_hora(args, n)
}

/// Ejecuta el comando interno `comando` con `args`; `completar` y `desmarcar`
/// de una tarea de la lista toman la hora actual del reloj del sistema, un
/// instante posterior a 1970 que depende del reloj. Si no se puede leer la
/// hora, la lista no cambia y la respuesta es un error.
pub fn procesar_comando(
    comando: &str,
    args: &str,
    tareas: &mut Vec<Tarea>,
    settings: &Settings,
    respuesta: Respuesta,
) -> (s: Salida)
    requires
        responde(comando@, args@, respuesta),
    ensures
        pide_hora(comando@, args@, old(tareas)@.len()) ==> (exists|m: (i64, u32)|
            m.0 >= 0 && m.1 < 1_000_000_000 && (final(tareas).deep_view(), s@) == procesar(
                comando@,
                args@,
                old(tareas).deep_view(),
                settings,
                respuesta,
                m,
            )) || (final(tareas).deep_view() == old(tareas).deep_view() && s@ == (
            false,
            msg_sin_hora(),
            true,
        )),
        !pide_hora(comando@, args@, old(tareas)@.len()) ==> forall|m: (i64, u32)|
            #[trigger] procesar(comando@, args@, old(tareas).deep_view(), settings, respuesta, m)
                == (final(tareas).deep_view(), s@),
{
    proof {
        reveal_strlit("agregar");
        reveal_strlit("cargar");
        reveal_strlit("completar");
        reveal_strlit("desmarcar");
    }
    let ghost d = tareas.deep_view();
    if iguales(comando, "completar") || iguales(comando, "desmarcar") {
        let completada = iguales(comando, "completar");
        let s = completar::marcar_ahora(args, tareas, completada);
        proof {
            assert forall|m: (i64, u32)|
                #[trigger] procesar(comando@, args@, d, settings, respuesta, m) == marcar(
                    args@,
                    d,
                    completada,
                    m,
                ) by {}
            if pide_hora(comando@, args@, d.len()) {
                if exists|m: (i64, u32)|
                    m.0 >= 0 && m.1 < 1_000_000_000 && (tareas.deep_view(), s@) == marcar(
                        args@,
                        d,
                        completada,
                        m,
                    ) {
                    let m = choose|m: (i64, u32)|
                        m.0 >= 0 && m.1 < 1_000_000_000 && (tareas.deep_view(), s@) == marcar(
                            args@,
                            d,
                            completada,
                            m,
                        );
                    assert(procesar(comando@, args@, d, settings, respuesta, m) == (
                        tareas.deep_view(),
                        s@,
                    ));
                }
            }
        }
        s
    } else {
        procesar_sin_hora(comando, args, tareas, settings, respuesta)
    }
}

} // verus!
