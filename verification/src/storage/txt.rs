//! El formato de texto: una línea por tarea,
//! `estado,marca,descripción,etiqueta;etiqueta;...`.
use vstd::prelude::*;

use crate::app::task::{Tarea, VistaTarea};
use crate::marca::{lectura_rfc3339, marca_de_cuatro_cifras, rfc3339, Marca};
use crate::texto::{
    caracteres,
    dividir,
    dividir_desde,
    iguales,
    lineas,
    partir,
    posicion_de,
    separar,
    separar_lineas,
    sin_retorno,
    subcadena,
    unir,
    unir_con,
};
use crate::texto::{lema_partir_concat_publico, lema_partir_sin_publico, ley_partir_unir};

verus! {

/// El guardado en texto.
#[derive(Debug)]
pub struct TxtStorage;

/// La marca como se escribe en el archivo: RFC 3339, o nada.
pub open spec fn texto_marca_txt(m: Option<(i64, u32)>) -> Seq<char> {
    match m {
        Some(p) => rfc3339(p.0, p.1),
        None => seq![],
    }
}

/// El estado como se escribe en el archivo.
pub open spec fn texto_estado_txt(completada: bool) -> Seq<char> {
    if completada {
        "completada"@
    } else {
        "no completada"@
    }
}

/// La línea de una tarea, sin el salto final.
pub open spec fn linea_txt(t: VistaTarea) -> Seq<char> {
    texto_estado_txt(t.1) + ","@ + texto_marca_txt(t.2) + ","@ + t.0 + ","@ + unir(t.3, ";"@)
}

/// El contenido del archivo para la lista `ts`: cada línea terminada en salto.
pub open spec fn texto_txt(ts: Seq<VistaTarea>) -> Seq<char>
    decreases ts.len(),
{
    if ts.len() == 0 {
        seq![]
    } else {
        texto_txt(ts.drop_last()) + linea_txt(ts.last()) + "\n"@
    }
}

/// La tarea que describe una línea, si tiene al menos tres comas: estado,
/// marca (vacía o RFC 3339), descripción y el resto como etiquetas separadas
/// por `;` (ninguna si el resto está vacío).
pub open spec fn leer_linea_txt(l: Seq<char>) -> Option<VistaTarea> {
    match dividir(l, ',') {
        None => None,
        Some((estado, r1)) => match dividir(r1, ',') {
            None => None,
            Some((marca, r2)) => match dividir(r2, ',') {
                None => None,
                Some((descripcion, tags)) => Some(
                    (
                        descripcion,
                        estado == "completada"@,
                        if marca.len() == 0 {
                            None
                        } else {
                            lectura_rfc3339(marca)
                        },
                        if tags.len() == 0 {
                            seq![]
                        } else {
                            partir(tags, ';')
                        },
                    ),
                ),
            },
        },
    }
}

/// Las tareas de las líneas que se pueden leer, en orden; las demás se saltan.
pub open spec fn leer_lineas_txt(ls: Seq<Seq<char>>) -> Seq<VistaTarea>
    decreases ls.len(),
{
    if ls.len() == 0 {
        seq![]
    } else {
        let previas = leer_lineas_txt(ls.drop_last());
        match leer_linea_txt(ls.last()) {
            Some(t) => previas.push(t),
            None => previas,
        }
    }
}

/// Las tareas que se leen de un contenido en texto.
pub open spec fn leer_txt(s: Seq<char>) -> Seq<VistaTarea> {
    leer_lineas_txt(lineas(s))
}

/// Lo que se sabe de la escritura de la marca de una tarea: no vacía, sin
/// comas ni saltos, y legible de vuelta si el año tiene cuatro cifras.
pub open spec fn marca_escrita_bien(t: VistaTarea) -> bool {
    match t.2 {
        Some(p) => {
            &&& rfc3339(p.0, p.1).len() > 0
            &&& !rfc3339(p.0, p.1).contains(',')
            &&& !rfc3339(p.0, p.1).contains('\n')
            &&& !rfc3339(p.0, p.1).contains('\r')
            &&& marca_de_cuatro_cifras(p.0, p.1) ==> lectura_rfc3339(rfc3339(p.0, p.1)) == Some(p)
        },
        None => true,
    }
}

/// Las tareas que el formato de texto guarda sin pérdida: la descripción sin
/// comas ni saltos de línea; la marca, si la hay, de un año de cuatro cifras;
/// las etiquetas sin `;` ni saltos de línea, que no
/// sean una sola etiqueta vacía y cuya última no termine en `\r`.
pub open spec fn representable_txt(t: VistaTarea) -> bool {
    &&& !t.0.contains(',')
    &&& !t.0.contains('\n')
    &&& (t.2 matches Some(p) ==> marca_de_cuatro_cifras(p.0, p.1))
    &&& forall|i: int| 0 <= i < t.3.len() ==> !(#[trigger] t.3[i]).contains(';') && !t.3[i].contains('\n')
    &&& t.3 != seq![Seq::<char>::empty()]
    &&& !(t.3.len() > 0 && t.3.last().len() > 0 && t.3.last().last() == '\r')
}

proof fn lema_dividir_concat(a: Seq<char>, b: Seq<char>, c: char)
    requires
        !a.contains(c),
    ensures
        dividir(a + seq![c] + b, c) == Some((a, b)),
{
    let s = a + seq![c] + b;
    assert(s[a.len() as int] == c);
    assert forall|j: int| 0 <= j < a.len() implies s[j] != c by {
        assert(s[j] == a[j]);
    }
    lema_posicion_de_pub(s, c, a.len() as int);
    assert(s.take(a.len() as int) =~= a);
    assert(s.skip(a.len() as int + 1) =~= b);
}

proof fn lema_posicion_de_pub(s: Seq<char>, c: char, i: int)
    requires
        0 <= i <= s.len(),
        forall|j: int| 0 <= j < i ==> s[j] != c,
        i == s.len() || s[i] == c,
    ensures
        posicion_de(s, c) == i,
    decreases i,
{
    if i > 0 {
        lema_posicion_de_pub(s.drop_first(), c, i - 1);
    }
}

proof fn lema_sin_caracter_concat(a: Seq<char>, b: Seq<char>, c: char)
    requires
        !a.contains(c),
        !b.contains(c),
    ensures
        !(a + b).contains(c),
{
    if (a + b).contains(c) {
        let k = choose|k: int| 0 <= k < (a + b).len() && (a + b)[k] == c;
        if k < a.len() {
            assert(a[k] == c);
        } else {
            assert(b[k - a.len()] == c);
        }
    }
}

proof fn lema_unir_sin(ts: Seq<Seq<char>>, sep: Seq<char>, c: char)
    requires
        !sep.contains(c),
        forall|i: int| 0 <= i < ts.len() ==> !(#[trigger] ts[i]).contains(c),
    ensures
        !unir(ts, sep).contains(c),
    decreases ts.len(),
{
    if ts.len() > 1 {
        lema_unir_sin(ts.drop_last(), sep, c);
        assert(!ts[ts.len() - 1].contains(c));
        lema_sin_caracter_concat(unir(ts.drop_last(), sep), sep, c);
        lema_sin_caracter_concat(unir(ts.drop_last(), sep) + sep, ts.last(), c);
    } else if ts.len() == 1 {
        assert(!ts[0].contains(c));
    }
}

proof fn lema_unir_vacio(ts: Seq<Seq<char>>, sep: Seq<char>)
    requires
        sep.len() > 0,
    ensures
        unir(ts, sep).len() == 0 <==> (ts.len() == 0 || ts == seq![Seq::<char>::empty()]),
    decreases ts.len(),
{
    if ts.len() == 1 {
        if ts[0].len() == 0 {
            assert(ts[0] =~= Seq::<char>::empty());
            assert(ts =~= seq![Seq::<char>::empty()]);
        }
    } else if ts.len() > 1 {
        assert(ts != seq![Seq::<char>::empty()]);
    }
}

proof fn lema_unir_ultimo(ts: Seq<Seq<char>>, sep: Seq<char>)
    requires
        ts.len() > 0,
        ts.last().len() > 0,
    ensures
        unir(ts, sep).len() > 0,
        unir(ts, sep).last() == ts.last().last(),
{
}

proof fn lema_unir_ultimo_vacio(ts: Seq<Seq<char>>, sep: Seq<char>)
    requires
        ts.len() > 1,
        ts.last().len() == 0,
        sep.len() > 0,
    ensures
        unir(ts, sep).len() > 0,
        unir(ts, sep).last() == sep.last(),
{
    assert(unir(ts, sep) =~= unir(ts.drop_last(), sep) + sep);
}

/// Una línea escrita se lee como la tarea de partida.
proof fn lema_linea_txt(t: VistaTarea)
    requires
        representable_txt(t),
        marca_escrita_bien(t),
    ensures
        leer_linea_txt(linea_txt(t)) == Some(t),
        !linea_txt(t).contains('\n'),
        linea_txt(t).len() > 0,
        linea_txt(t).last() != '\r',
{
    reveal_strlit("completada");
    reveal_strlit("no completada");
    reveal_strlit(",");
    reveal_strlit(";");
    let e = texto_estado_txt(t.1);
    let m = texto_marca_txt(t.2);
    let tg = unir(t.3, ";"@);
    assert(!e.contains(',')) by {
        if e.contains(',') {
            let k = choose|k: int| 0 <= k < e.len() && e[k] == ',';
        }
    }
    assert(!e.contains('\n')) by {
        if e.contains('\n') {
            let k = choose|k: int| 0 <= k < e.len() && e[k] == '\n';
        }
    }
    assert(!m.contains(',') && !m.contains('\n'));
    let l = linea_txt(t);
    assert(l =~= e + seq![','] + (m + seq![','] + t.0 + seq![','] + tg));
    lema_dividir_concat(e, m + seq![','] + t.0 + seq![','] + tg, ',');
    assert(m + seq![','] + t.0 + seq![','] + tg =~= m + seq![','] + (t.0 + seq![','] + tg));
    lema_dividir_concat(m, t.0 + seq![','] + tg, ',');
    lema_dividir_concat(t.0, tg, ',');
    assert((e == "completada"@) == t.1);
    if t.2 is None {
        assert(m.len() == 0);
    }
    lema_unir_vacio(t.3, ";"@);
    if t.3.len() > 0 {
        assert(";"@ =~= seq![';']);
        assert forall|i: int| 0 <= i < t.3.len() implies !(#[trigger] t.3[i]).contains(';') by {}
        ley_partir_unir(t.3, ';');
    }
    // Sin saltos de línea.
    assert forall|i: int| 0 <= i < t.3.len() implies !(#[trigger] t.3[i]).contains('\n') by {}
    assert(!";"@.contains('\n')) by {
        if ";"@.contains('\n') {
            let k = choose|k: int| 0 <= k < ";"@.len() && ";"@[k] == '\n';
        }
    }
    lema_unir_sin(t.3, ";"@, '\n');
    assert(!seq![','].contains('\n')) by {
        if seq![','].contains('\n') {
            let k = choose|k: int| 0 <= k < 1 && seq![','][k] == '\n';
        }
    }
    lema_sin_caracter_concat(e, seq![','], '\n');
    lema_sin_caracter_concat(e + seq![','], m, '\n');
    lema_sin_caracter_concat(e + seq![','] + m, seq![','], '\n');
    lema_sin_caracter_concat(e + seq![','] + m + seq![','], t.0, '\n');
    lema_sin_caracter_concat(e + seq![','] + m + seq![','] + t.0, seq![','], '\n');
    lema_sin_caracter_concat(e + seq![','] + m + seq![','] + t.0 + seq![','], tg, '\n');
    assert(l =~= e + seq![','] + m + seq![','] + t.0 + seq![','] + tg);
    // El último carácter.
    if tg.len() == 0 {
        assert(l.last() == ',');
    } else {
        if t.3.last().len() > 0 {
            lema_unir_ultimo(t.3, ";"@);
        } else {
            lema_unir_ultimo_vacio(t.3, ";"@);
        }
        assert(l.last() == tg.last());
    }
}

/// Separar en líneas un texto hecho de líneas terminadas en salto (y un resto
/// sin saltos) da esas líneas y el resto.
proof fn lema_partir_texto(ts: Seq<VistaTarea>, w: Seq<char>)
    requires
        !w.contains('\n'),
        forall|i: int| 0 <= i < ts.len() ==> !linea_txt(#[trigger] ts[i]).contains('\n'),
    ensures
        partir(texto_txt(ts) + w, '\n') == ts.map_values(|t: VistaTarea| linea_txt(t)).push(w),
    decreases ts.len(),
{
    if ts.len() == 0 {
        lema_partir_sin_publico(seq![], w, '\n');
        assert(seq![] + w =~= w);
        assert(texto_txt(ts) + w =~= w);
    } else {
        let prev = ts.drop_last();
        let l = linea_txt(ts.last());
        assert forall|i: int| 0 <= i < prev.len() implies !linea_txt(#[trigger] prev[i]).contains(
            '\n',
        ) by {
            assert(prev[i] == ts[i]);
        }
        assert(!linea_txt(ts[ts.len() - 1]).contains('\n'));
        lema_partir_texto(prev, l);
        reveal_strlit("\n");
        assert(texto_txt(ts) + w =~= (texto_txt(prev) + l) + seq!['\n'] + w);
        lema_partir_concat_publico(seq![], texto_txt(prev) + l, w, '\n');
        lema_partir_sin_publico(seq![], w, '\n');
        assert(seq![] + w =~= w);
        assert(ts.map_values(|t: VistaTarea| linea_txt(t)) =~= prev.map_values(
            |t: VistaTarea| linea_txt(t),
        ).push(l));
    }
}

proof fn lema_leer_lineas(ts: Seq<VistaTarea>)
    requires
        forall|i: int| 0 <= i < ts.len() ==> leer_linea_txt(linea_txt(#[trigger] ts[i])) == Some(
            ts[i],
        ),
    ensures
        leer_lineas_txt(ts.map_values(|t: VistaTarea| linea_txt(t))) == ts,
    decreases ts.len(),
{
    if ts.len() > 0 {
        let prev = ts.drop_last();
        assert forall|i: int| 0 <= i < prev.len() implies leer_linea_txt(
            linea_txt(#[trigger] prev[i]),
        ) == Some(prev[i]) by {
            assert(prev[i] == ts[i]);
        }
        lema_leer_lineas(prev);
        let ls = ts.map_values(|t: VistaTarea| linea_txt(t));
        assert(ls.drop_last() =~= prev.map_values(|t: VistaTarea| linea_txt(t)));
        assert(leer_linea_txt(ls.last()) == Some(ts.last()));
        assert(prev.push(ts.last()) =~= ts);
    }
}

/// Leer lo que se escribió da la lista de partida, cuando cada tarea es
/// representable y su marca se escribió como afirma `chrono`.
proof fn lema_ida_vuelta_txt(ts: Seq<VistaTarea>)
    requires
        forall|i: int| 0 <= i < ts.len() ==> representable_txt(#[trigger] ts[i]),
        forall|i: int| 0 <= i < ts.len() ==> marca_escrita_bien(#[trigger] ts[i]),
    ensures
        leer_txt(texto_txt(ts)) == ts,
{
    assert forall|i: int| 0 <= i < ts.len() implies leer_linea_txt(linea_txt(#[trigger] ts[i]))
        == Some(ts[i]) && !linea_txt(ts[i]).contains('\n') && linea_txt(ts[i]).len() > 0
        && linea_txt(ts[i]).last() != '\r' by {
        lema_linea_txt(ts[i]);
    }
    let ls = ts.map_values(|t: VistaTarea| linea_txt(t));
    assert(!Seq::<char>::empty().contains('\n'));
    lema_partir_texto(ts, seq![]);
    assert(texto_txt(ts) + seq![] =~= texto_txt(ts));
    let ps = partir(texto_txt(ts), '\n');
    assert(ps.drop_last() =~= ls);
    assert(ls.map_values(|l: Seq<char>| sin_retorno(l)) =~= ls) by {
        assert forall|i: int| 0 <= i < ls.len() implies sin_retorno(ls[i]) == ls[i] by {
            assert(ls[i] == linea_txt(ts[i]));
        }
    }
    assert(lineas(texto_txt(ts)) == ls);
    lema_leer_lineas(ts);
}

impl TxtStorage {
    /// El contenido del archivo para la lista `tasks`. Leerlo con `load` da
    /// la misma lista cuando cada tarea es representable en texto.
    pub fn save(&self, tasks: &Vec<Tarea>) -> (r: String)
        ensures
            r@ == texto_txt(tasks.deep_view()),
            (forall|i: int| 0 <= i < tasks@.len() ==> representable_txt(#[trigger] tasks.deep_view()[i]))
                ==> leer_txt(r@) == tasks.deep_view(),
    {
        let ghost d = tasks.deep_view();
        let mut r = String::new();
        let mut i: usize = 0;
        while i < tasks.len()
            invariant
                i <= tasks@.len(),
                d == tasks.deep_view(),
                r@ == texto_txt(d.take(i as int)),
                forall|j: int| 0 <= j < i ==> marca_escrita_bien(#[trigger] d[j]),
            decreases tasks@.len() - i,
        {
            let t = &tasks[i];
            assert(t@ == d[i as int]);
            if t.completada {
                r.append("completada");
            } else {
                r.append("no completada");
            }
            r.append(",");
            match &t.ultimo_cambio {
                Some(m) => {
                    let s = m.a_rfc3339();
                    r.append(s.as_str());
                },
                None => {},
            }
            r.append(",");
            r.append(t.descripcion.as_str());
            r.append(",");
            let tags = unir_con(&t.tags, ";");
            r.append(tags.as_str());
            r.append("\n");
            assert(d.take(i + 1).drop_last() =~= d.take(i as int));
            i = i + 1;
            assert(r@ =~= texto_txt(d.take(i as int)));
        }
        assert(d.take(tasks@.len() as int) =~= d);
        proof {
            if forall|i: int| 0 <= i < tasks@.len() ==> representable_txt(#[trigger] d[i]) {
                lema_ida_vuelta_txt(d);
            }
        }
        r
    }

    /// Las tareas que describe el contenido de un archivo en texto.
    pub fn load(&self, contenido: &str) -> (r: Vec<Tarea>)
        ensures
            r.deep_view() == leer_txt(contenido@),
    {
        let ls = separar_lineas(contenido);
        let ghost dl = ls.deep_view();
        let mut r: Vec<Tarea> = Vec::new();
        let mut i: usize = 0;
        while i < ls.len()
            invariant
                i <= ls@.len(),
                dl == ls.deep_view(),
                dl == lineas(contenido@),
                r.deep_view() == leer_lineas_txt(dl.take(i as int)),
            decreases ls@.len() - i,
        {
            assert(dl.take(i + 1).drop_last() =~= dl.take(i as int));
            assert(ls@[i as int]@ == dl[i as int]);
            match leer_linea(ls[i].as_str()) {
                Some(t) => {
                    let ghost antes = r.deep_view();
                    let ghost tv = t@;
                    r.push(t);
                    assert(r.deep_view() =~= antes.push(tv));
                },
                None => {},
            }
            i = i + 1;
        }
        assert(dl.take(ls@.len() as int) =~= dl);
        r
    }
}

/// La tarea de una línea, si tiene al menos tres comas.
fn leer_linea(linea: &str) -> (r: Option<Tarea>)
    ensures
        match leer_linea_txt(linea@) {
            Some(t) => r matches Some(x) && x@ == t,
            None => r is None,
        },
{
    let v = caracteres(linea);
    assert(v@.skip(0) =~= v@);
    let (estado, p1) = match dividir_desde(&v, 0, ',') {
        Some(x) => x,
        None => return None,
    };
    let (marca, p2) = match dividir_desde(&v, p1, ',') {
        Some(x) => x,
        None => return None,
    };
    let (descripcion, p3) = match dividir_desde(&v, p2, ',') {
        Some(x) => x,
        None => return None,
    };
    let resto = subcadena(&v, p3, v.len());
    assert(v@.skip(p3 as int) =~= v@.subrange(p3 as int, v@.len() as int));
    let completada = iguales(estado.as_str(), "completada");
    let ultimo_cambio = if marca.as_str().is_empty() {
        None
    } else {
        Marca::desde_rfc3339(marca.as_str())
    };
    let tags = if resto.as_str().is_empty() {
        let t: Vec<String> = Vec::new();
        assert(t.deep_view() =~= Seq::<Seq<char>>::empty());
        t
    } else {
        separar(resto.as_str(), ';')
    };
    Some(Tarea { descripcion, completada, ultimo_cambio, tags })
}

} // verus!
