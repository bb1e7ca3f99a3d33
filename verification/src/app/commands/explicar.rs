//! `explicar [comando]`: la ayuda de un comando, o la lista de nombres de comando.
use vstd::prelude::*;

use super::Salida;
use crate::settings::Settings;
use crate::texto::{cadena_de, en_orden, lema_es_en_orden};

verus! {

/// Una línea `- nombre` por cada nombre, cada una precedida de un salto de línea.
pub open spec fn lineas_nombres(ns: Seq<Seq<char>>) -> Seq<char>
    decreases ns.len(),
{
    if ns.len() == 0 {
        seq![]
    } else {
        lineas_nombres(ns.drop_last()) + "\n- "@ + ns.last()
    }
}

/// Lo que dice `explicar` con `args`: la ayuda del comando si la hay, o, sin
/// argumentos, los nombres de comando de menor a mayor. Nunca cambia la lista.
pub open spec fn explicar(
    args: Seq<char>,
    explicaciones: Map<Seq<char>, Seq<char>>,
    comandos: Map<Seq<char>, Seq<char>>,
) -> Seq<char> {
    if args.len() > 0 {
        if explicaciones.contains_key(args) {
            "\nAyuda para '"@ + args + "':\n"@ + explicaciones[args]
        } else {
            "No encontré ayuda para el comando '"@ + args + "'."@
        }
    } else {
        "\nComandos disponibles:"@ + lineas_nombres(en_orden(comandos.dom()))
            + "\n\nEscribí 'ayuda <comando>' para más detalles."@
    }
}

/// La ayuda de `args`, o los nombres de comando si `args` está vacío.
pub fn ejecutar(args: &str, settings: &Settings) -> (s: Salida)
    ensures
        s@ == (false, explicar(args@, settings.explicaciones@, settings.comandos@), false),
{
    if !args.is_empty() {
        match settings.explicaciones.obtener(args) {
            Some(e) => {
                let mut m = cadena_de("\nAyuda para '");
                m.append(args);
                m.append("':\n");
                m.append(e.as_str());
                Salida::nueva(false, m, false)
            },
            None => {
                let mut m = cadena_de("No encontré ayuda para el comando '");
                m.append(args);
                m.append("'.");
                Salida::nueva(false, m, false)
            },
        }
    } else {
        let ordenados = settings.comandos.claves_ordenadas();
        let ghost ns = ordenados.deep_view();
        proof {
            lema_es_en_orden(ns);
        }
        let mut m = cadena_de("\nComandos disponibles:");
        let mut i: usize = 0;
        while i < ordenados.len()
            invariant
                i <= ordenados@.len(),
                ns == ordenados.deep_view(),
                m@ == "\nComandos disponibles:"@ + lineas_nombres(ns.take(i as int)),
            decreases ordenados@.len() - i,
        {
            m.append("\n- ");
            m.append(ordenados[i].as_str());
            assert(ns.take(i + 1).drop_last() =~= ns.take(i as int));
            i = i + 1;
            assert(m@ =~= "\nComandos disponibles:"@ + lineas_nombres(ns.take(i as int)));
        }
        assert(ns.take(ordenados@.len() as int) =~= ns);
        m.append("\n\nEscribí 'ayuda <comando>' para más detalles.");
        Salida::nueva(false, m, false)
    }
}

} // verus!
