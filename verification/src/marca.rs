//! Marcas de tiempo: el instante del último cambio de una tarea, como segundos
//! y nanosegundos desde 1970-01-01T00:00:00Z, tal como los representa `chrono`.
use vstd::prelude::*;

use chrono::{DateTime, Utc};
use std::time::{SystemTime, UNIX_EPOCH};

verus! {

/// El primer segundo que `chrono` representa en UTC (1 de enero del año -262143).
pub const SEGUNDO_MINIMO: i64 = -8334601315200i64;

/// El último segundo que `chrono` representa en UTC (31 de diciembre del año 262142).
pub const SEGUNDO_MAXIMO: i64 = 8210266876799i64;

/// Primer segundo del año 0000.
pub const SEGUNDO_ANIO_0: i64 = -62167219200i64;

/// Último segundo del año 9999.
pub const SEGUNDO_ANIO_9999: i64 = 253402300799i64;

/// Los pares (segundos, nanosegundos) que `DateTime::<Utc>::from_timestamp`
/// acepta: segundos en el rango de fechas de `chrono` y nanosegundos por debajo
/// de un segundo, salvo en el segundo intercalar (el último de un minuto).
pub open spec fn marca_valida(segundos: i64, nanos: u32) -> bool {
    &&& SEGUNDO_MINIMO <= segundos <= SEGUNDO_MAXIMO
    &&& nanos < 2_000_000_000
    &&& (nanos >= 1_000_000_000 ==> segundos % 60 == 59)
}

/// Las marcas cuyo año está entre 0000 y 9999, las que RFC 3339 escribe con
/// cuatro cifras (un segundo intercalar incluido: se escribe como `:60`).
pub open spec fn marca_de_cuatro_cifras(segundos: i64, nanos: u32) -> bool {
    SEGUNDO_ANIO_0 <= segundos <= SEGUNDO_ANIO_9999
}

/// Lo que `DateTime::<Utc>::to_rfc3339` escribe para el instante dado.
pub uninterp spec fn rfc3339(segundos: i64, nanos: u32) -> Seq<char>;

/// Lo que `DateTime::parse_from_rfc3339` lee de un texto, llevado a UTC:
/// segundos y nanosegundos del instante, o nada si el texto no es RFC 3339.
pub uninterp spec fn lectura_rfc3339(texto: Seq<char>) -> Option<(i64, u32)>;

/// Lo que `DateTime::<Utc>::format("%d/%m/%Y %H:%M:%S")` escribe para el instante dado.
pub uninterp spec fn fecha_dia_mes_anio(segundos: i64, nanos: u32) -> Seq<char>;

/// La hora del sistema en UTC, como la toma `Utc::now` pero sin sus pánicos:
/// `SystemTime::now().duration_since(UNIX_EPOCH)` y
/// `DateTime::<Utc>::from_timestamp` sobre sus segundos y nanosegundos. No hay
/// resultado si el reloj marca un instante anterior a 1970 o fuera del rango
/// de `chrono` (donde `Utc::now` entra en pánico). Se afirma que el instante,
/// si lo hay, es representable, posterior a la época y sin segundo intercalar
/// (`Duration::subsec_nanos` es menor que un segundo). Qué instante es no se
/// afirma: depende del reloj.
#[verifier::external_body]
fn reloj_utc() -> (r: Option<(i64, u32)>)
    ensures
        r matches Some(p) ==> marca_valida(p.0, p.1) && p.0 >= 0 && p.1 < 1_000_000_000,
{
    let d = SystemTime::now().duration_since(UNIX_EPOCH).ok()?;
    let t = DateTime::<Utc>::from_timestamp(i64::try_from(d.as_secs()).ok()?, d.subsec_nanos())?;
    Some((t.timestamp(), t.timestamp_subsec_nanos()))
}

/// `DateTime::<Utc>::to_rfc3339` sobre `from_timestamp(segundos, nanos)`.
/// Se afirma, por la fuente de `chrono` (`write_rfc3339`): el texto no es
/// vacío, se escribe con cifras, `-`, `+`, `:`, `.` y `T`, de modo que no lleva
/// `,`, `;`, `\n` ni `\r`; y para años de 0000 a 9999, `parse_from_rfc3339`
/// lo lee de vuelta como el mismo instante. Un segundo intercalar
/// (nanosegundos desde 1e9) se escribe como segundo `60` con la fracción
/// restante, y `parse_rfc3339` lee el `60` como el segundo 59 más 1e9
/// nanosegundos, que `with_timezone` conserva.
#[verifier::external_body]
fn escribir_rfc3339(segundos: i64, nanos: u32) -> (r: String)
    requires
        marca_valida(segundos, nanos),
    ensures
        r@ == rfc3339(segundos, nanos),
        r@.len() > 0,
        !r@.contains(','),
        !r@.contains(';'),
        !r@.contains('\n'),
        !r@.contains('\r'),
        marca_de_cuatro_cifras(segundos, nanos) ==> lectura_rfc3339(r@) == Some((segundos, nanos)),
{
    DateTime::from_timestamp(segundos, nanos).unwrap().to_rfc3339()
}

/// `DateTime::parse_from_rfc3339(texto).ok()`, llevado a UTC con
/// `with_timezone(&Utc)` y dado como segundos y nanosegundos. Se afirma que el
/// resultado, si lo hay, es un instante que `chrono` representa.
#[verifier::external_body]
fn leer_rfc3339(texto: &str) -> (r: Option<(i64, u32)>)
    ensures
        r == lectura_rfc3339(texto@),
        r matches Some(p) ==> marca_valida(p.0, p.1),
{
    match DateTime::parse_from_rfc3339(texto) {
        Ok(dt) => {
            let u = dt.with_timezone(&Utc);
            Some((u.timestamp(), u.timestamp_subsec_nanos()))
        },
        Err(_) => None,
    }
}

/// `DateTime::<Utc>::format("%d/%m/%Y %H:%M:%S")` sobre `from_timestamp(segundos, nanos)`.
#[verifier::external_body]
fn escribir_dia_mes_anio(segundos: i64, nanos: u32) -> (r: String)
    requires
        marca_valida(segundos, nanos),
    ensures
        r@ == fecha_dia_mes_anio(segundos, nanos),
{
    DateTime::from_timestamp(segundos, nanos).unwrap().format("%d/%m/%Y %H:%M:%S").to_string()
}

/// Un instante en UTC con la precisión de `chrono`: segundos desde la época
/// Unix y nanosegundos dentro del segundo.
#[derive(Clone, Copy, Debug, PartialEq, Eq)]
pub struct Marca {
    segundos: i64,
    nanos: u32,
}

impl View for Marca {
    type V = (i64, u32);

    closed spec fn view(&self) -> (i64, u32) {
        (self.segundos, self.nanos)
    }
}

impl DeepView for Marca {
    type V = (i64, u32);

    open spec fn deep_view(&self) -> (i64, u32) {
        self@
    }
}

impl Marca {
    #[verifier::type_invariant]
    closed spec fn bien_formada(self) -> bool {
        marca_valida(self.segundos, self.nanos)
    }

    /// La marca de `segundos` y `nanos`, si `chrono` la representa.
    pub fn desde_timestamp(segundos: i64, nanos: u32) -> (r: Option<Marca>)
        ensures
            r is Some <==> marca_valida(segundos, nanos),
            r matches Some(m) ==> m@ == (segundos, nanos),
    {
        if SEGUNDO_MINIMO <= segundos && segundos <= SEGUNDO_MAXIMO && nanos < 2_000_000_000 && (
        nanos < 1_000_000_000 || segundos % 60 == 59 || segundos % 60 == -1) {
            Some(Marca { segundos, nanos })
        } else {
            None
        }
    }

    /// El instante actual del reloj del sistema (`Utc::now`), o nada si el
    /// reloj marca un instante que `chrono` no representa o anterior a 1970.
    pub fn ahora() -> (r: Option<Marca>)
        ensures
            r matches Some(m) ==> m@.0 >= 0 && m@.1 < 1_000_000_000,
    {
        match reloj_utc() {
            Some((s, n)) => Some(Marca { segundos: s, nanos: n }),
            None => None,
        }
    }

    /// Segundos desde 1970-01-01T00:00:00Z.
    pub fn segundos(&self) -> (r: i64)
        ensures
            r == self@.0,
    {
        self.segundos
    }

    /// Nanosegundos dentro del segundo.
    pub fn nanos(&self) -> (r: u32)
        ensures
            r == self@.1,
    {
        self.nanos
    }

    /// `to_rfc3339`: la escritura RFC 3339 del instante.
    pub fn a_rfc3339(&self) -> (r: String)
        ensures
            r@ == rfc3339(self@.0, self@.1),
            r@.len() > 0,
            !r@.contains(','),
            !r@.contains(';'),
            !r@.contains('\n'),
            !r@.contains('\r'),
            marca_de_cuatro_cifras(self@.0, self@.1) ==> lectura_rfc3339(r@) == Some(self@),
    {
        proof {
            use_type_invariant(self);
        }
        escribir_rfc3339(self.segundos, self.nanos)
    }

    /// `parse_from_rfc3339(texto).ok()` llevado a UTC.
    pub fn desde_rfc3339(texto: &str) -> (r: Option<Marca>)
        ensures
            r matches Some(m) ==> lectura_rfc3339(texto@) == Some(m@),
            r is None ==> lectura_rfc3339(texto@) is None,
    {
        match leer_rfc3339(texto) {
            Some((s, n)) => Some(Marca { segundos: s, nanos: n }),
            None => None,
        }
    }

    /// La fecha y hora con el formato `dd/mm/aaaa HH:MM:SS`.
    pub fn dia_mes_anio(&self) -> (r: String)
        ensures
            r@ == fecha_dia_mes_anio(self@.0, self@.1),
    {
        proof {
            use_type_invariant(self);
        }
        escribir_dia_mes_anio(self.segundos, self.nanos)
    }
}

} // verus!
