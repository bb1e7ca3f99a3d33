//! El formato CSV: un encabezado y un registro por tarea, con los campos
//! `completada,ultimo_cambio,descripcion,tags`. La escritura y la lectura de
//! CSV las hace el crate `csv`.
use vstd::prelude::*;

use super::txt::{marca_escrita_bien, texto_marca_txt};
use crate::app::task::{Tarea, VistaTarea};
use crate::marca::{lectura_rfc3339, marca_de_cuatro_cifras, Marca};
use crate::texto::{cadena_de, iguales, ley_partir_unir, partir, separar, unir, unir_con};

verus! {

/// Un `csv::Writer` que escribe en memoria, sobre un `Vec<u8>`, con la
/// configuración por defecto (separador `,`, comillas sólo donde hacen falta,
/// registros de igual cantidad de campos). Cada valor de este tipo es un
/// escritor cuyas escrituras tuvieron todas éxito: la que falla lo consume.
#[verifier::external_body]
pub struct EscritorCsv {
    escritor: csv::Writer<Vec<u8>>,
}

/// Los registros que el escritor ya recibió, en orden.
pub uninterp spec fn registros_escritos(w: EscritorCsv) -> Seq<Seq<Seq<char>>>;

/// El escritor pone entre comillas un campo con `,`, `"`, `\r` o `\n`.
pub open spec fn necesita_comillas(f: Seq<char>) -> bool {
    f.contains(',') || f.contains('"') || f.contains('\r') || f.contains('\n')
}

/// El campo con cada `"` escrita dos veces.
pub open spec fn comillas_dobladas(f: Seq<char>) -> Seq<char>
    decreases f.len(),
{
    if f.len() == 0 {
        seq![]
    } else {
        comillas_dobladas(f.drop_last()) + if f.last() == '"' {
            seq!['"', '"']
        } else {
            seq![f.last()]
        }
    }
}

/// Un campo como lo escribe el escritor por defecto.
pub open spec fn texto_campo_csv(f: Seq<char>) -> Seq<char> {
    if necesita_comillas(f) {
        seq!['"'] + comillas_dobladas(f) + seq!['"']
    } else {
        f
    }
}

/// Un registro como lo escribe el escritor por defecto: los campos separados
/// por `,` y un `\n` al final; un registro sin nada escrito (sin campos o con
/// un solo campo vacío) se escribe `""`.
pub open spec fn texto_registro_csv(r: Seq<Seq<char>>) -> Seq<char> {
    (if r.len() == 0 || (r.len() == 1 && r[0].len() == 0) {
        seq!['"', '"']
    } else {
        unir(r.map_values(|f: Seq<char>| texto_campo_csv(f)), seq![','])
    }) + seq!['\n']
}

/// Los registros escritos uno tras otro.
pub open spec fn texto_csv(rs: Seq<Seq<Seq<char>>>) -> Seq<char>
    decreases rs.len(),
{
    if rs.len() == 0 {
        seq![]
    } else {
        texto_csv(rs.drop_last()) + texto_registro_csv(rs.last())
    }
}

/// Los bytes (UTF-8) que `csv::Writer::into_inner` entrega tras escribir esos
/// registros con la configuración por defecto.
pub open spec fn bytes_csv(registros: Seq<Seq<Seq<char>>>) -> Seq<u8> {
    vstd::utf8::encode_utf8(texto_csv(registros))
}

/// Lo que lee `csv::ReaderBuilder::new().has_headers(true)` de unos bytes:
/// los registros que siguen al encabezado, o el texto del primer error.
pub uninterp spec fn lectura_csv(bytes: Seq<u8>) -> Result<Seq<Seq<Seq<char>>>, Seq<char>>;

/// Registros que el escritor por defecto de `csv` acepta y que su lector por
/// defecto devuelve tal cual: al menos uno, todos con la misma cantidad de
/// campos, y al menos dos campos.
pub open spec fn registros_uniformes(rs: Seq<Seq<Seq<char>>>) -> bool {
    &&& rs.len() >= 1
    &&& rs[0].len() >= 2
    &&& forall|i: int| 0 <= i < rs.len() ==> (#[trigger] rs[i]).len() == rs[0].len()
}

/// `csv::Writer::from_writer(Vec::new())`: un escritor que no recibió registros.
#[verifier::external_body]
fn escritor_csv() -> (w: EscritorCsv)
    ensures
        registros_escritos(w) == Seq::<Seq<Seq<char>>>::empty(),
{
    EscritorCsv { escritor: csv::Writer::from_writer(Vec::new()) }
}

/// `csv::Writer::write_record`, que consume el escritor y lo devuelve si la
/// escritura tuvo éxito. Entonces el registro queda escrito al final. Un
/// escritor sobre `Vec<u8>` sólo falla cuando el registro no tiene la cantidad
/// de campos del primero (`UnequalLengths`): sus campos ya quedaron en el
/// búfer, así que el escritor no se devuelve.
#[verifier::external_body]
fn escribir_registro_csv(w: EscritorCsv, registro: &Vec<String>) -> (r: Result<EscritorCsv, String>)
    ensures
        r matches Ok(n) ==> registros_escritos(n) == registros_escritos(w).push(
            registro.deep_view(),
        ),
        (registro@.len() > 0 && (registros_escritos(w).len() == 0 || registros_escritos(w)[0].len()
            == registro@.len())) ==> r is Ok,
{
    let mut w = w;
    match w.escritor.write_record(registro) {
        Ok(()) => Ok(w),
        Err(e) => Err(e.to_string()),
    }
}

/// `csv::Writer::into_inner`: los bytes de los registros escritos (todos con
/// éxito, ver `EscritorCsv`), en UTF-8 y con el formato de `csv-core` por
/// defecto (separador `,`, terminador `\n`, estilo `Necessary`, comillas
/// dobladas; ver `texto_registro_csv`). Sobre un `Vec<u8>` no falla. Se
/// afirma también, por la fuente de `csv-core` (el estilo `Necessary` pone
/// entre comillas los campos con `,`, `"`, `\r` o `\n`) y la del lector por
/// defecto (sin comentarios ni recorte), que leer esos bytes con encabezado
/// devuelve los registros tras el primero cuando son uniformes.
#[verifier::external_body]
fn bytes_de_escritor(w: EscritorCsv) -> (r: Result<Vec<u8>, String>)
    ensures
        r is Ok,
        r matches Ok(b) ==> b@ == bytes_csv(registros_escritos(w)),
        r matches Ok(b) ==> (registros_uniformes(registros_escritos(w)) ==> lectura_csv(b@) == Ok::<
            Seq<Seq<Seq<char>>>,
            Seq<char>,
        >(registros_escritos(w).drop_first())),
{
    w.escritor.into_inner().map_err(|e| e.to_string())
}

/// Los registros de unos bytes CSV tras el encabezado
/// (`ReaderBuilder::new().has_headers(true).from_reader(bytes).records()`),
/// o el texto del primer error.
#[verifier::external_body]
fn leer_registros_csv(bytes: &[u8]) -> (r: Result<Vec<Vec<String>>, String>)
    ensures
        match r {
            Ok(v) => lectura_csv(bytes@) == Ok::<Seq<Seq<Seq<char>>>, Seq<char>>(v.deep_view()),
            Err(e) => lectura_csv(bytes@) == Err::<Seq<Seq<Seq<char>>>, Seq<char>>(e@),
        },
{
    let mut lector = csv::ReaderBuilder::new().has_headers(true).from_reader(bytes);
    match lector.records().collect::<Result<Vec<csv::StringRecord>, csv::Error>>() {
        Ok(rs) => Ok(rs.iter().map(|r| r.iter().map(|f| f.to_string()).collect()).collect()),
        Err(e) => Err(e.to_string()),
    }
}

/// El guardado en CSV.
#[derive(Debug)]
pub struct CsvStorage;

/// El encabezado del archivo.
pub open spec fn encabezado_csv() -> Seq<Seq<char>> {
    seq!["completada"@, "ultimo_cambio"@, "descripcion"@, "tags"@]
}

/// El registro de una tarea.
pub open spec fn registro_csv(t: VistaTarea) -> Seq<Seq<char>> {
    seq![
        if t.1 {
            "true"@
        } else {
            "false"@
        },
        texto_marca_txt(t.2),
        t.0,
        unir(t.3, ";"@),
    ]
}

/// Los registros del archivo para la lista `ts`: el encabezado y uno por tarea.
pub open spec fn registros_csv(ts: Seq<VistaTarea>) -> Seq<Seq<Seq<char>>> {
    seq![encabezado_csv()] + ts.map_values(|t: VistaTarea| registro_csv(t))
}

/// El campo `i` de un registro, o vacío si no lo tiene.
pub open spec fn campo(r: Seq<Seq<char>>, i: int) -> Seq<char> {
    if 0 <= i < r.len() {
        r[i]
    } else {
        seq![]
    }
}

/// La tarea de un registro: `true` en el primer campo es completada; la marca
/// se lee en RFC 3339; las etiquetas van separadas por `;`.
pub open spec fn tarea_de_registro(r: Seq<Seq<char>>) -> VistaTarea {
    (
        campo(r, 2),
        campo(r, 0) == "true"@,
        if campo(r, 1).len() == 0 {
            None
        } else {
            lectura_rfc3339(campo(r, 1))
        },
        if campo(r, 3).len() == 0 {
            seq![]
        } else {
            partir(campo(r, 3), ';')
        },
    )
}

/// Las tareas que se leen de unos bytes CSV, o el texto del error.
pub open spec fn leer_csv(bytes: Seq<u8>) -> Result<Seq<VistaTarea>, Seq<char>> {
    match lectura_csv(bytes) {
        Ok(rs) => Ok(rs.map_values(|r: Seq<Seq<char>>| tarea_de_registro(r))),
        Err(e) => Err(e),
    }
}

/// Las tareas que el formato CSV guarda sin pérdida: la marca, si la hay, de
/// un año de cuatro cifras; las etiquetas sin `;`, y
/// que no sean una sola etiqueta vacía.
pub open spec fn representable_csv(t: VistaTarea) -> bool {
    &&& (t.2 matches Some(p) ==> marca_de_cuatro_cifras(p.0, p.1))
    &&& forall|i: int| 0 <= i < t.3.len() ==> !(#[trigger] t.3[i]).contains(';')
    &&& t.3 != seq![Seq::<char>::empty()]
}

proof fn lema_registro(t: VistaTarea)
    requires
        representable_csv(t),
        marca_escrita_bien(t),
    ensures
        tarea_de_registro(registro_csv(t)) == t,
{
    reveal_strlit("true");
    reveal_strlit("false");
    reveal_strlit(";");
    let r = registro_csv(t);
    assert(campo(r, 0) == (if t.1 { "true"@ } else { "false"@ }));
    assert((campo(r, 0) == "true"@) == t.1);
    assert(campo(r, 2) == t.0);
    if t.2 is None {
        assert(campo(r, 1).len() == 0);
    }
    let tg = unir(t.3, ";"@);
    assert(";"@ =~= seq![';']);
    if t.3.len() == 0 {
        assert(tg.len() == 0);
        assert(tarea_de_registro(r).3 =~= t.3);
    } else if t.3.len() == 1 {
        assert(tg == t.3[0]);
        assert(t.3[0].len() > 0) by {
            if t.3[0].len() == 0 {
                assert(t.3[0] =~= Seq::<char>::empty());
                assert(t.3 =~= seq![Seq::<char>::empty()]);
            }
        }
        ley_partir_unir(t.3, ';');
    } else {
        assert(tg =~= unir(t.3.drop_last(), ";"@) + ";"@ + t.3.last());
        assert(tg.len() > 0);
        ley_partir_unir(t.3, ';');
    }
}

impl CsvStorage {
    /// Los bytes del archivo CSV para la lista `tasks`: el encabezado y un
    /// registro por tarea. Leerlos con `load` da la misma lista cuando cada
    /// tarea es representable en CSV.
    pub fn save(&self, tasks: &Vec<Tarea>) -> (r: Result<Vec<u8>, String>)
        ensures
            r is Ok,
            r matches Ok(b) ==> b@ == bytes_csv(registros_csv(tasks.deep_view())),
            r matches Ok(b) ==> ((forall|i: int|
                0 <= i < tasks@.len() ==> representable_csv(#[trigger] tasks.deep_view()[i]))
                ==> leer_csv(b@) == Ok::<Seq<VistaTarea>, Seq<char>>(tasks.deep_view())),
    {
        let ghost d = tasks.deep_view();
        let w = escritor_csv();
        let mut encabezado: Vec<String> = Vec::new();
        encabezado.push(cadena_de("completada"));
        encabezado.push(cadena_de("ultimo_cambio"));
        encabezado.push(cadena_de("descripcion"));
        encabezado.push(cadena_de("tags"));
        assert(encabezado.deep_view() =~= encabezado_csv());
        let mut w = match escribir_registro_csv(w, &encabezado) {
            Ok(n) => n,
            Err(e) => {
                assert(false);
                return Err(e);
            },
        };
        assert(registros_escritos(w) =~= registros_csv(d.take(0)));
        let mut i: usize = 0;
        while i < tasks.len()
            invariant
                i <= tasks@.len(),
                d == tasks.deep_view(),
                registros_escritos(w) == registros_csv(d.take(i as int)),
                forall|j: int| 0 <= j < i ==> marca_escrita_bien(#[trigger] d[j]),
            decreases tasks@.len() - i,
        {
            let t = &tasks[i];
            assert(t@ == d[i as int]);
            let mut registro: Vec<String> = Vec::new();
            if t.completada {
                registro.push(cadena_de("true"));
            } else {
                registro.push(cadena_de("false"));
            }
            match &t.ultimo_cambio {
                Some(m) => registro.push(m.a_rfc3339()),
                None => registro.push(String::new()),
            }
            registro.push(t.descripcion.clone());
            registro.push(unir_con(&t.tags, ";"));
            assert(registro.deep_view() =~= registro_csv(d[i as int]));
            assert(registros_escritos(w)[0] == encabezado_csv());
            w = match escribir_registro_csv(w, &registro) {
                Ok(n) => n,
                Err(e) => {
                    assert(false);
                    return Err(e);
                },
            };
            assert(registros_csv(d.take(i + 1)) =~= registros_csv(d.take(i as int)).push(
                registro_csv(d[i as int]),
            )) by {
                assert(d.take(i + 1).map_values(|t: VistaTarea| registro_csv(t)) =~= d.take(
                    i as int,
                ).map_values(|t: VistaTarea| registro_csv(t)).push(registro_csv(d[i as int])));
            }
            i = i + 1;
        }
        assert(d.take(tasks@.len() as int) =~= d);
        let ghost rs = registros_escritos(w);
        assert(registros_uniformes(rs)) by {
            assert forall|k: int| 0 <= k < rs.len() implies (#[trigger] rs[k]).len() == rs[0].len() by {
                if k > 0 {
                    assert(rs[k] == registro_csv(d[k - 1]));
                }
            }
        }
        let r = bytes_de_escritor(w);
        proof {
            if forall|i: int| 0 <= i < tasks@.len() ==> representable_csv(#[trigger] d[i]) {
                assert(rs.drop_first() =~= d.map_values(|t: VistaTarea| registro_csv(t)));
                assert(rs.drop_first().map_values(|r: Seq<Seq<char>>| tarea_de_registro(r)) =~= d)
                    by {
                    assert forall|k: int| 0 <= k < d.len() implies tarea_de_registro(
                        rs.drop_first()[k],
                    ) == d[k] by {
                        lema_registro(d[k]);
                    }
                }
            }
        }
        r
    }

    /// Las tareas de unos bytes CSV, o el texto del error de lectura.
    pub fn load(&self, bytes: &[u8]) -> (r: Result<Vec<Tarea>, String>)
        ensures
            match r {
                Ok(v) => leer_csv(bytes@) == Ok::<Seq<VistaTarea>, Seq<char>>(v.deep_view()),
                Err(e) => leer_csv(bytes@) == Err::<Seq<VistaTarea>, Seq<char>>(e@),
            },
    {
        match leer_registros_csv(bytes) {
            Err(e) => Err(e),
            Ok(registros) => {
                let ghost dr = registros.deep_view();
                let mut tareas: Vec<Tarea> = Vec::new();
                let mut i: usize = 0;
                while i < registros.len()
                    invariant
                        i <= registros@.len(),
                        dr == registros.deep_view(),
                        tareas.deep_view() == dr.take(i as int).map_values(
                            |r: Seq<Seq<char>>| tarea_de_registro(r),
                        ),
                    decreases registros@.len() - i,
                {
                    assert(registros@[i as int].deep_view() == dr[i as int]);
                    let t = tarea_de(&registros[i]);
                    let ghost antes = tareas.deep_view();
                    let ghost tv = t@;
                    tareas.push(t);
                    assert(tareas.deep_view() =~= antes.push(tv));
                    assert(dr.take(i + 1).map_values(|r: Seq<Seq<char>>| tarea_de_registro(r))
                        =~= dr.take(i as int).map_values(|r: Seq<Seq<char>>| tarea_de_registro(r)).push(
                        tarea_de_registro(dr[i as int]),
                    ));
                    i = i + 1;
                }
                assert(dr.take(registros@.len() as int) =~= dr);
                Ok(tareas)
            },
        }
    }
}

fn campo_de(registro: &Vec<String>, i: usize) -> (r: String)
    ensures
        r@ == campo(registro.deep_view(), i as int),
{
    if i < registro.len() {
        registro[i].clone()
    } else {
        String::new()
    }
}

/// La tarea de un registro.
fn tarea_de(registro: &Vec<String>) -> (t: Tarea)
    ensures
        t@ == tarea_de_registro(registro.deep_view()),
{
    let estado = campo_de(registro, 0);
    let marca = campo_de(registro, 1);
    let descripcion = campo_de(registro, 2);
    let tags_str = campo_de(registro, 3);
    let ultimo_cambio = if marca.as_str().is_empty() {
        None
    } else {
        Marca::desde_rfc3339(marca.as_str())
    };
    let tags = if tags_str.as_str().is_empty() {
        let v: Vec<String> = Vec::new();
        assert(v.deep_view() =~= Seq::<Seq<char>>::empty());
        v
    } else {
        separar(tags_str.as_str(), ';')
    };
    Tarea { descripcion, completada: iguales(estado.as_str(), "true"), ultimo_cambio, tags }
}

} // verus!
