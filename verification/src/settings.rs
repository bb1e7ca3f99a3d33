//! La configuración: dónde y en qué formato se guardan las tareas, qué
//! etiquetas valen, los nombres de los comandos y sus textos de ayuda.
use vstd::prelude::*;

use crate::texto::{cadena_de, iguales, ordenar, ordenada_estricta};

verus! {

/// Un mapa de cadena a cadena, como el `HashMap<String, String>` de la
/// configuración: a lo sumo un valor por clave.
#[derive(Debug)]
pub struct Diccionario {
    entradas: Vec<(String, String)>,
}

/// Las claves de las entradas son distintas entre sí.
pub open spec fn claves_distintas(e: Seq<(String, String)>) -> bool {
    forall|i: int, j: int| 0 <= i < j < e.len() ==> (#[trigger] e[i]).0@ != (#[trigger] e[j]).0@
}

/// El mapa que forman las entradas.
pub open spec fn mapa_de(e: Seq<(String, String)>) -> Map<Seq<char>, Seq<char>> {
    Map::new(
        |k: Seq<char>| exists|i: int| 0 <= i < e.len() && (#[trigger] e[i]).0@ == k,
        |k: Seq<char>| e[choose|i: int| 0 <= i < e.len() && (#[trigger] e[i]).0@ == k].1@,
    )
}

impl View for Diccionario {
    type V = Map<Seq<char>, Seq<char>>;

    closed spec fn view(&self) -> Map<Seq<char>, Seq<char>> {
        mapa_de(self.entradas@)
    }
}

proof fn lema_valor_en(e: Seq<(String, String)>, i: int)
    requires
        claves_distintas(e),
        0 <= i < e.len(),
    ensures
        mapa_de(e).contains_key(e[i].0@),
        mapa_de(e)[e[i].0@] == e[i].1@,
{
    let k = e[i].0@;
    assert(mapa_de(e).dom().contains(k));
    let j = choose|j: int| 0 <= j < e.len() && (#[trigger] e[j]).0@ == k;
    if j != i {
        if j < i {
            assert(e[j].0@ != e[i].0@);
        } else {
            assert(e[i].0@ != e[j].0@);
        }
    }
}

impl Diccionario {
    #[verifier::type_invariant]
    closed spec fn bien_formado(self) -> bool {
        claves_distintas(self.entradas@)
    }

    /// El diccionario vacío (`HashMap::new`).
    pub fn nuevo() -> (d: Diccionario)
        ensures
            d@ == Map::<Seq<char>, Seq<char>>::empty(),
    {
        let d = Diccionario { entradas: Vec::new() };
        assert(d@ =~= Map::<Seq<char>, Seq<char>>::empty());
        d
    }

    /// El número de claves.
    pub fn len(&self) -> (n: usize)
        ensures
            n as nat == self@.dom().len(),
            self@.dom().finite(),
    {
        proof {
            use_type_invariant(self);
        }
        let ghost e = self.entradas@;
        let ghost claves = e.map_values(|p: (String, String)| p.0@);
        assert(claves.no_duplicates()) by {
            assert forall|i: int, j: int| 0 <= i < claves.len() && 0 <= j < claves.len() && i
                != j implies claves[i] != claves[j] by {
                if i < j {
                    assert(e[i].0@ != e[j].0@);
                } else {
                    assert(e[j].0@ != e[i].0@);
                }
            }
        }
        assert(self@.dom() =~= claves.to_set()) by {
            assert forall|k: Seq<char>| self@.dom().contains(k) <==> claves.to_set().contains(k) by {
                if self@.dom().contains(k) {
                    let i = choose|i: int| 0 <= i < e.len() && (#[trigger] e[i]).0@ == k;
                    assert(claves[i] == k);
                }
                if claves.contains(k) {
                    let i = choose|i: int| 0 <= i < claves.len() && claves[i] == k;
                    assert(e[i].0@ == k);
                }
            }
        }
        proof {
            claves.unique_seq_to_set();
        }
        self.entradas.len()
    }

    /// `get`: el valor de la clave, si la hay.
    pub fn obtener(&self, clave: &str) -> (r: Option<&String>)
        ensures
            r is Some <==> self@.contains_key(clave@),
            r matches Some(v) ==> v@ == self@[clave@],
    {
        proof {
            use_type_invariant(self);
        }
        let mut i: usize = 0;
        while i < self.entradas.len()
            invariant
                i <= self.entradas@.len(),
                claves_distintas(self.entradas@),
                forall|j: int| 0 <= j < i ==> (#[trigger] self.entradas@[j]).0@ != clave@,
            decreases self.entradas@.len() - i,
        {
            if iguales(self.entradas[i].0.as_str(), clave) {
                proof {
                    lema_valor_en(self.entradas@, i as int);
                }
                return Some(&self.entradas[i].1);
            }
            i = i + 1;
        }
        None
    }

    /// `insert`: la clave pasa a tener el valor dado, reemplazando el anterior si lo había.
    pub fn insertar(&mut self, clave: String, valor: String)
        ensures
            final(self)@ == old(self)@.insert(clave@, valor@),
    {
        proof {
            use_type_invariant(&*self);
        }
        let mut entradas: Vec<(String, String)> = Vec::new();
        std::mem::swap(&mut entradas, &mut self.entradas);
        let ghost e = entradas@;
        let ghost k = clave@;
        let ghost v = valor@;
        let mut i: usize = 0;
        while i < entradas.len() && !(entradas[i].0 == clave)
            invariant
                i <= entradas@.len(),
                e == entradas@,
                claves_distintas(e),
                k == clave@,
                forall|j: int| 0 <= j < i ==> (#[trigger] e[j]).0@ != k,
            decreases entradas@.len() - i,
        {
            i = i + 1;
        }
        if i < entradas.len() {
            let _ = entradas.remove(i);
            entradas.insert(i, (clave, valor));
            let ghost n = entradas@;
            assert(n =~= e.update(i as int, n[i as int]));
            assert(claves_distintas(n)) by {
                assert forall|a: int, b: int| 0 <= a < b < n.len() implies (#[trigger] n[a]).0@
                    != (#[trigger] n[b]).0@ by {
                    if a != i && b != i {
                        assert(n[a] == e[a] && n[b] == e[b]);
                    } else if a == i {
                        assert(n[b] == e[b]);
                    } else {
                        assert(n[a] == e[a]);
                    }
                }
            }
            assert(mapa_de(n) =~= mapa_de(e).insert(k, v)) by {
                assert forall|q: Seq<char>| #[trigger] mapa_de(n).contains_key(q)
                    <==> mapa_de(e).insert(k, v).contains_key(q) by {
                    if mapa_de(n).contains_key(q) {
                        let j = choose|j: int| 0 <= j < n.len() && (#[trigger] n[j]).0@ == q;
                        if j != i {
                            assert(e[j] == n[j]);
                        }
                    }
                    if mapa_de(e).contains_key(q) {
                        let j = choose|j: int| 0 <= j < e.len() && (#[trigger] e[j]).0@ == q;
                        if j != i {
                            assert(e[j] == n[j]);
                        }
                    }
                }
                assert forall|q: Seq<char>| #[trigger] mapa_de(n).contains_key(q) implies mapa_de(
                    n,
                )[q] == mapa_de(e).insert(k, v)[q] by {
                    let j = choose|j: int| 0 <= j < n.len() && (#[trigger] n[j]).0@ == q;
                    lema_valor_en(n, j);
                    if j != i {
                        assert(e[j] == n[j]);
                        lema_valor_en(e, j);
                    }
                }
            }
        } else {
            entradas.push((clave, valor));
            let ghost n = entradas@;
            assert(claves_distintas(n)) by {
                assert forall|a: int, b: int| 0 <= a < b < n.len() implies (#[trigger] n[a]).0@
                    != (#[trigger] n[b]).0@ by {
                    if b < e.len() {
                        assert(n[a] == e[a] && n[b] == e[b]);
                    } else {
                        assert(n[a] == e[a]);
                    }
                }
            }
            assert(mapa_de(n) =~= mapa_de(e).insert(k, v)) by {
                assert forall|q: Seq<char>| #[trigger] mapa_de(n).contains_key(q)
                    <==> mapa_de(e).insert(k, v).contains_key(q) by {
                    if mapa_de(n).contains_key(q) {
                        let j = choose|j: int| 0 <= j < n.len() && (#[trigger] n[j]).0@ == q;
                        if j < e.len() {
                            assert(e[j] == n[j]);
                        }
                    }
                    if mapa_de(e).contains_key(q) {
                        let j = choose|j: int| 0 <= j < e.len() && (#[trigger] e[j]).0@ == q;
                        assert(e[j] == n[j]);
                    }
                    if q == k {
                        assert(n[e.len() as int].0@ == k);
                    }
                }
                assert forall|q: Seq<char>| #[trigger] mapa_de(n).contains_key(q) implies mapa_de(
                    n,
                )[q] == mapa_de(e).insert(k, v)[q] by {
                    let j = choose|j: int| 0 <= j < n.len() && (#[trigger] n[j]).0@ == q;
                    lema_valor_en(n, j);
                    if j < e.len() {
                        assert(e[j] == n[j]);
                        lema_valor_en(e, j);
                    }
                }
            }
        }
        self.entradas = entradas;
    }

    /// Las claves, de menor a mayor (`keys().collect()` seguido de `sort()`).
    pub fn claves_ordenadas(&self) -> (r: Vec<String>)
        ensures
            ordenada_estricta(r.deep_view()),
            r.deep_view().to_set() == self@.dom(),
    {
        proof {
            use_type_invariant(self);
        }
        let ghost e = self.entradas@;
        let mut v: Vec<String> = Vec::new();
        let mut i: usize = 0;
        while i < self.entradas.len()
            invariant
                i <= e.len(),
                e == self.entradas@,
                v@.len() == i,
                forall|j: int| 0 <= j < i ==> (#[trigger] v@[j])@ == e[j].0@,
            decreases e.len() - i,
        {
            let k = self.entradas[i].0.clone();
            v.push(k);
            i = i + 1;
        }
        assert forall|a: int, b: int| 0 <= a < b < v@.len() implies v@[a]@ != v@[b]@ by {
            assert(v@[a]@ == e[a].0@);
            assert(v@[b]@ == e[b].0@);
        }
        let ghost vd = v.deep_view();
        let r = ordenar(v);
        assert(vd.to_set() =~= self@.dom()) by {
            assert forall|k: Seq<char>| vd.to_set().contains(k) <==> self@.dom().contains(k) by {
                if vd.contains(k) {
                    let j = choose|j: int| 0 <= j < vd.len() && vd[j] == k;
                    assert(e[j].0@ == k);
                }
                if self@.dom().contains(k) {
                    let j = choose|j: int| 0 <= j < e.len() && (#[trigger] e[j]).0@ == k;
                    assert(vd[j] == k);
                }
            }
        }
        r
    }
}

/// Dónde se guardan las tareas: el nombre base del archivo y su formato.
#[derive(Debug)]
pub struct StorageSettings {
    pub filename_base: String,
    pub format: String,
}

/// Ajustes generales: las etiquetas que se pueden poner a una tarea.
#[derive(Debug)]
pub struct GeneralSettings {
    pub tags_validos: Vec<String>,
}

/// La configuración completa.
#[derive(Debug)]
pub struct Settings {
    pub storage: StorageSettings,
    pub general: GeneralSettings,
    /// Nombre que escribe el usuario -> comando interno.
    pub comandos: Diccionario,
    /// Comando -> texto de ayuda.
    pub explicaciones: Diccionario,
}

/// El nombre del archivo de tareas: `nombre_base.formato`.
pub open spec fn nombre_archivo(settings: &Settings) -> Seq<char> {
    settings.storage.filename_base@ + "."@ + settings.storage.format@
}

impl Settings {
    /// El nombre del archivo de tareas (`format!("{}.{}", filename_base, format)`).
    pub fn nombre_archivo(&self) -> (r: String)
        ensures
            r@ == nombre_archivo(self),
    {
        let mut r = self.storage.filename_base.clone();
        r.append(".");
        r.append(self.storage.format.as_str());
        r
    }
}

/// Las etiquetas válidas por defecto.
pub open spec fn tags_por_defecto() -> Seq<Seq<char>> {
    seq!["trabajo"@, "personal"@]
}

/// Los nombres de comando por defecto: cada comando con su propio nombre, y
/// `ayuda` para `explicar`.
pub open spec fn comandos_por_defecto() -> Map<Seq<char>, Seq<char>> {
    Map::empty().insert("agregar"@, "agregar"@).insert("listar"@, "listar"@).insert(
        "completar"@,
        "completar"@,
    ).insert("desmarcar"@, "desmarcar"@).insert("importar"@, "importar"@).insert(
        "cargar"@,
        "cargar"@,
    ).insert("ayuda"@, "explicar"@).insert("eliminar"@, "eliminar"@).insert(
        "eliminar_todas"@,
        "eliminar_todas"@,
    ).insert("etiquetar"@, "etiquetar"@).insert("desetiquetar"@, "desetiquetar"@)
}

/// Los textos de ayuda por defecto.
pub open spec fn explicaciones_por_defecto() -> Map<Seq<char>, Seq<char>> {
    Map::empty().insert(
        "agregar"@,
        "Uso: agregar <descripción>. Agrega una nueva tarea."@,
    ).insert("listar"@, "Uso: listar. Muestra todas las tareas."@).insert(
        "completar"@,
        "Uso: completar <número>. Marca una tarea como completada."@,
    ).insert(
        "desmarcar"@,
        "Uso: desmarcar <número>. Vuelve a marcar una tarea como pendiente."@,
    ).insert(
        "importar"@,
        "Uso: importar <archivo>. Agrega tareas de un archivo a la lista actual."@,
    ).insert(
        "cargar"@,
        "Uso: cargar <archivo>. Reemplaza la lista actual con las tareas del archivo."@,
    ).insert(
        "explicar"@,
        "Uso: explicar <comando>. Muestra la ayuda para un comando."@,
    ).insert("eliminar"@, "Uso: eliminar <número>. Elimina una tarea de la lista."@).insert(
        "eliminar_todas"@,
        "Uso: eliminar_todas. Elimina todas las tareas."@,
    ).insert(
        "etiquetar"@,
        "Uso: etiquetar <número> <tag>. Agrega una etiqueta a una tarea."@,
    ).insert(
        "desetiquetar"@,
        "Uso: desetiquetar <número> <tag>. Elimina una etiqueta de una tarea."@,
    )
}

/// Las etiquetas válidas por defecto: `trabajo` y `personal`.
pub fn default_tags() -> (r: Vec<String>)
    ensures
        r.deep_view() == tags_por_defecto(),
{
    let mut r: Vec<String> = Vec::new();
    r.push(cadena_de("trabajo"));
    r.push(cadena_de("personal"));
    assert(r.deep_view() =~= tags_por_defecto());
    r
}

/// Los ajustes generales por defecto.
pub fn default_general() -> (r: GeneralSettings)
    ensures
        r.tags_validos.deep_view() == tags_por_defecto(),
{
    GeneralSettings { tags_validos: default_tags() }
}

fn par(d: &mut Diccionario, clave: &str, valor: &str)
    ensures
        final(d)@ == old(d)@.insert(clave@, valor@),
{
    d.insertar(cadena_de(clave), cadena_de(valor));
}

/// Los nombres de comando por defecto.
pub fn default_comandos() -> (r: Diccionario)
    ensures
        r@ == comandos_por_defecto(),
{
    let mut d = Diccionario::nuevo();
    par(&mut d, "agregar", "agregar");
    par(&mut d, "listar", "listar");
    par(&mut d, "completar", "completar");
    par(&mut d, "desmarcar", "desmarcar");
    par(&mut d, "importar", "importar");
    par(&mut d, "cargar", "cargar");
    par(&mut d, "ayuda", "explicar");
    par(&mut d, "eliminar", "eliminar");
    par(&mut d, "eliminar_todas", "eliminar_todas");
    par(&mut d, "etiquetar", "etiquetar");
    par(&mut d, "desetiquetar", "desetiquetar");
    d
}

/// Los textos de ayuda por defecto.
pub fn default_explicaciones() -> (r: Diccionario)
    ensures
        r@ == explicaciones_por_defecto(),
{
    let mut d = Diccionario::nuevo();
    par(&mut d, "agregar", "Uso: agregar <descripción>. Agrega una nueva tarea.");
    par(&mut d, "listar", "Uso: listar. Muestra todas las tareas.");
    par(&mut d, "completar", "Uso: completar <número>. Marca una tarea como completada.");
    par(&mut d, "desmarcar", "Uso: desmarcar <número>. Vuelve a marcar una tarea como pendiente.");
    par(&mut d, "importar", "Uso: importar <archivo>. Agrega tareas de un archivo a la lista actual.");
    par(
        &mut d,
        "cargar",
        "Uso: cargar <archivo>. Reemplaza la lista actual con las tareas del archivo.",
    );
    par(&mut d, "explicar", "Uso: explicar <comando>. Muestra la ayuda para un comando.");
    par(&mut d, "eliminar", "Uso: eliminar <número>. Elimina una tarea de la lista.");
    par(&mut d, "eliminar_todas", "Uso: eliminar_todas. Elimina todas las tareas.");
    par(&mut d, "etiquetar", "Uso: etiquetar <número> <tag>. Agrega una etiqueta a una tarea.");
    par(
        &mut d,
        "desetiquetar",
        "Uso: desetiquetar <número> <tag>. Elimina una etiqueta de una tarea.",
    );
    d
}

impl Default for GeneralSettings {
    fn default() -> (r: Self)
        ensures
            r.tags_validos.deep_view() == tags_por_defecto(),
    {
        GeneralSettings { tags_validos: default_tags() }
    }
}

impl Default for StorageSettings {
    fn default() -> (r: Self)
        ensures
            r.filename_base@ == "tareas"@,
            r.format@ == "txt"@,
    {
        StorageSettings { filename_base: cadena_de("tareas"), format: cadena_de("txt") }
    }
}

impl Default for Settings {
    fn default() -> (r: Self)
        ensures
            r.storage.filename_base@ == "tareas"@,
            r.storage.format@ == "txt"@,
            r.general.tags_validos.deep_view() == tags_por_defecto(),
            r.comandos@ == comandos_por_defecto(),
            r.explicaciones@ == explicaciones_por_defecto(),
    {
        Settings {
            storage: StorageSettings::default(),
            general: GeneralSettings::default(),
            comandos: default_comandos(),
            explicaciones: default_explicaciones(),
        }
    }
}

} // verus!
