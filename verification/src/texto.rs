//! Operaciones sobre texto: conversión entre `str` y secuencias de caracteres,
//! números decimales, separación y unión de campos.
use vstd::prelude::*;

verus! {

/// Los caracteres de `s`, en orden.
pub fn caracteres(s: &str) -> (v: Vec<char>)
    ensures
        v@ == s@,
{
    let mut v: Vec<char> = Vec::new();
    for c in it: s.chars()
        invariant
            v@ == it.seq().take(it.index() as int),
            it.seq() == s@,
    {
        v.push(c);
    }
    v
}

/// `str::to_string`: una cadena propia con el mismo texto.
pub fn cadena_de(s: &str) -> (r: String)
    ensures
        r@ == s@,
{
    s.to_owned()
}

/// `String::push` de std: agrega un carácter al final de la cadena.
#[verifier::external_body]
pub(crate) fn empujar(s: &mut String, c: char)
    ensures
        final(s)@ == old(s)@.push(c),
{
    s.push(c);
}

/// La cadena formada por los caracteres de `v`.
pub fn cadena(v: &[char]) -> (s: String)
    ensures
        s@ == v@,
{
    let mut s = String::new();
    let mut i: usize = 0;
    while i < v.len()
        invariant
            i <= v@.len(),
            s@ == v@.take(i as int),
        decreases v@.len() - i,
    {
        empujar(&mut s, v[i]);
        i = i + 1;
        assert(s@ =~= v@.take(i as int));
    }
    assert(v@.take(v@.len() as int) =~= v@);
    s
}

// ---------------------------------------------------------------------------
// Números decimales

pub open spec fn es_digito(c: char) -> bool {
    '0' <= c && c <= '9'
}

pub open spec fn todos_digitos(s: Seq<char>) -> bool {
    forall|i: int| 0 <= i < s.len() ==> es_digito(#[trigger] s[i])
}

pub open spec fn valor_digito(c: char) -> nat {
    (c as int - '0' as int) as nat
}

/// El número que escriben los dígitos decimales de `s`.
pub open spec fn valor_digitos(s: Seq<char>) -> nat
    decreases s.len(),
{
    if s.len() == 0 {
        0
    } else {
        valor_digitos(s.drop_last()) * 10 + valor_digito(s.last())
    }
}

/// Lo que `str::parse::<usize>` da sobre `s`: un `+` opcional y al menos un
/// dígito decimal, sin exceder `usize::MAX`.
pub open spec fn lectura_usize(s: Seq<char>) -> Option<usize> {
    let d = if s.len() > 0 && s[0] == '+' { s.drop_first() } else { s };
    if d.len() > 0 && todos_digitos(d) && valor_digitos(d) <= usize::MAX {
        Some(valor_digitos(d) as usize)
    } else {
        None
    }
}

proof fn lema_valor_prefijo(s: Seq<char>, k: int)
    requires
        0 <= k <= s.len(),
    ensures
        valor_digitos(s.take(k)) <= valor_digitos(s),
    decreases s.len() - k,
{
    if k < s.len() {
        lema_valor_prefijo(s, k + 1);
        assert(s.take(k + 1).drop_last() =~= s.take(k));
    } else {
        assert(s.take(k) =~= s);
    }
}

/// `str::parse::<usize>`.
pub fn leer_usize(s: &str) -> (r: Option<usize>)
    ensures
        r == lectura_usize(s@),
{
    let v = caracteres(s);
    let n = v.len();
    let mut i: usize = 0;
    if n > 0 && v[0] == '+' {
        i = 1;
    }
    let ghost d = if s@.len() > 0 && s@[0] == '+' { s@.drop_first() } else { s@ };
    let inicio = i;
    if inicio == n {
        return None;
    }
    let mut acc: usize = 0;
    while i < n
        invariant
            inicio <= i <= n,
            n == v@.len(),
            v@ == s@,
            d == v@.skip(inicio as int),
            d == (if s@.len() > 0 && s@[0] == '+' { s@.drop_first() } else { s@ }),
            inicio < n,
            todos_digitos(d.take(i - inicio)),
            acc == valor_digitos(d.take(i - inicio)),
        decreases n - i,
    {
        let c = v[i];
        if !('0' <= c && c <= '9') {
            assert(d[i - inicio] == c);
            assert(!todos_digitos(d));
            return None;
        }
        let dig = (c as u32 - '0' as u32) as usize;
        assert(d.take(i + 1 - inicio).drop_last() =~= d.take(i - inicio));
        assert(d.take(i + 1 - inicio).last() == c);
        assert(valor_digitos(d.take(i + 1 - inicio)) == valor_digitos(d.take(i - inicio)) * 10
            + valor_digito(c));
        match acc.checked_mul(10) {
            None => {
                proof {
                    lema_valor_prefijo(d, i + 1 - inicio);
                }
                return None;
            },
            Some(m) => match m.checked_add(dig) {
                None => {
                    proof {
                        lema_valor_prefijo(d, i + 1 - inicio);
                    }
                    return None;
                },
                Some(a) => {
                    acc = a;
                },
            },
        }
        i = i + 1;
    }
    assert(d.take(n - inicio) =~= d);
    Some(acc)
}

pub open spec fn digito_de(n: nat) -> char
    recommends
        n < 10,
{
    (n + '0' as nat) as char
}

/// La escritura decimal de `n`, sin ceros a la izquierda.
pub open spec fn decimal(n: nat) -> Seq<char>
    decreases n,
{
    if n < 10 {
        seq![digito_de(n)]
    } else {
        decimal(n / 10).push(digito_de(n % 10))
    }
}

proof fn lema_valor_digito(k: nat)
    requires
        k < 10,
    ensures
        valor_digito(digito_de(k)) == k,
        es_digito(digito_de(k)),
        digito_de(k) != '+',
{
    assert(k + '0' as nat == k + 48);
    assert(((k + 48) as char) as int == k + 48);
}

pub proof fn lema_decimal(n: nat)
    ensures
        todos_digitos(decimal(n)),
        valor_digitos(decimal(n)) == n,
        decimal(n).len() > 0,
        decimal(n)[0] != '+',
    decreases n,
{
    lema_valor_digito(n % 10);
    if n < 10 {
        let d = decimal(n);
        assert(d.drop_last() =~= Seq::<char>::empty());
        assert(valor_digitos(d.drop_last()) == 0);
        assert(d.last() == digito_de(n));
        assert(n % 10 == n);
        assert(valor_digitos(d) == valor_digitos(d.drop_last()) * 10 + valor_digito(d.last()));
    } else {
        lema_decimal(n / 10);
        let d = decimal(n);
        assert(d.drop_last() =~= decimal(n / 10));
        assert(d.last() == digito_de(n % 10));
        assert(n == (n / 10) * 10 + n % 10);
        assert(valor_digitos(d) == valor_digitos(decimal(n / 10)) * 10 + valor_digito(d.last()));
        assert forall|i: int| 0 <= i < d.len() implies es_digito(#[trigger] d[i]) by {
            if i < d.len() - 1 {
                assert(d[i] == decimal(n / 10)[i]);
            }
        }
    }
}

/// La escritura decimal no es vacía.
pub proof fn lema_decimal_no_vacio(n: nat)
    ensures
        decimal(n).len() > 0,
{
    lema_decimal(n);
}

/// La lectura de la escritura decimal de un número da el mismo número.
pub proof fn ley_decimal_se_lee(n: usize)
    ensures
        lectura_usize(decimal(n as nat)) == Some(n),
{
    lema_decimal(n as nat);
}

/// `usize::to_string`: la escritura decimal de `n`.
pub fn escribir_usize(n: usize) -> (s: String)
    ensures
        s@ == decimal(n as nat),
    decreases n,
{
    if n < 10 {
        let mut s = String::new();
        empujar(&mut s, char_digito(n));
        s
    } else {
        let mut s = escribir_usize(n / 10);
        empujar(&mut s, char_digito(n % 10));
        s
    }
}

fn char_digito(n: usize) -> (c: char)
    requires
        n < 10,
    ensures
        c == digito_de(n as nat),
{
    match n {
        0 => '0',
        1 => '1',
        2 => '2',
        3 => '3',
        4 => '4',
        5 => '5',
        6 => '6',
        7 => '7',
        8 => '8',
        _ => '9',
    }
}

// ---------------------------------------------------------------------------
// Espacios en blanco

/// `char::is_whitespace`: los caracteres con la propiedad Unicode `White_Space`.
pub open spec fn es_espacio(c: char) -> bool {
    ||| ('\u{9}' <= c && c <= '\u{d}')
    ||| c == ' '
    ||| c == '\u{85}'
    ||| c == '\u{a0}'
    ||| c == '\u{1680}'
    ||| ('\u{2000}' <= c && c <= '\u{200a}')
    ||| c == '\u{2028}'
    ||| c == '\u{2029}'
    ||| c == '\u{202f}'
    ||| c == '\u{205f}'
    ||| c == '\u{3000}'
}

/// `char::is_whitespace`.
pub fn espacio(c: char) -> (b: bool)
    ensures
        b == es_espacio(c),
{
    ('\u{9}' <= c && c <= '\u{d}') || c == ' ' || c == '\u{85}' || c == '\u{a0}' || c == '\u{1680}'
        || ('\u{2000}' <= c && c <= '\u{200a}') || c == '\u{2028}' || c == '\u{2029}' || c
        == '\u{202f}' || c == '\u{205f}' || c == '\u{3000}'
}

/// Las palabras de `s` (los tramos máximos sin espacios), siendo `actual` la
/// palabra que se venía leyendo antes de `s`.
pub open spec fn palabras_con(actual: Seq<char>, s: Seq<char>) -> Seq<Seq<char>>
    decreases s.len(),
{
    if s.len() == 0 {
        if actual.len() == 0 { seq![] } else { seq![actual] }
    } else if es_espacio(s[0]) {
        (if actual.len() == 0 { seq![] } else { seq![actual] }) + palabras_con(seq![], s.drop_first())
    } else {
        palabras_con(actual.push(s[0]), s.drop_first())
    }
}

/// Lo que recorre `str::split_whitespace`: las palabras de `s`, en orden.
pub open spec fn palabras(s: Seq<char>) -> Seq<Seq<char>> {
    palabras_con(seq![], s)
}

/// `str::split_whitespace`, reunido en un vector.
pub fn separar_palabras(s: &str) -> (r: Vec<String>)
    ensures
        r.deep_view() == palabras(s@),
{
    let v = caracteres(s);
    let mut r: Vec<String> = Vec::new();
    let mut actual = String::new();
    let mut i: usize = 0;
    assert(v@.skip(0) =~= v@);
    assert(r.deep_view() =~= Seq::<Seq<char>>::empty());
    assert(actual@ =~= Seq::<char>::empty());
    while i < v.len()
        invariant
            i <= v@.len(),
            v@ == s@,
            palabras(s@) == r.deep_view() + palabras_con(actual@, v@.skip(i as int)),
        decreases v@.len() - i,
    {
        let c = v[i];
        assert(v@.skip(i as int).drop_first() =~= v@.skip(i + 1));
        assert(v@.skip(i as int)[0] == c);
        let ghost resto = v@.skip(i + 1);
        if espacio(c) {
            if !actual.as_str().is_empty() {
                assert(palabras_con(actual@, v@.skip(i as int)) == seq![actual@] + palabras_con(
                    seq![],
                    resto,
                ));
                let ghost antes = r.deep_view();
                let ghost a = actual@;
                r.push(actual);
                assert(r.deep_view() =~= antes + seq![a]);
                actual = String::new();
                assert(antes + (seq![a] + palabras_con(seq![], resto)) =~= r.deep_view()
                    + palabras_con(actual@, resto));
            } else {
                assert(actual@ =~= Seq::<char>::empty());
                assert(palabras_con(actual@, v@.skip(i as int)) == Seq::<Seq<char>>::empty()
                    + palabras_con(seq![], resto));
                assert(Seq::<Seq<char>>::empty() + palabras_con(seq![], resto) =~= palabras_con(
                    actual@,
                    resto,
                ));
            }
        } else {
            empujar(&mut actual, c);
        }
        i = i + 1;
    }
    if !actual.as_str().is_empty() {
        let ghost antes = r.deep_view();
        r.push(actual);
        assert(r.deep_view() =~= antes + seq![actual@]);
    }
    r
}

// ---------------------------------------------------------------------------
// Separación por un carácter

/// Los trozos de `s` entre apariciones de `c`, siendo `actual` el trozo que se
/// venía leyendo antes de `s`.
pub open spec fn partir_con(actual: Seq<char>, s: Seq<char>, c: char) -> Seq<Seq<char>>
    decreases s.len(),
{
    if s.len() == 0 {
        seq![actual]
    } else if s[0] == c {
        seq![actual] + partir_con(seq![], s.drop_first(), c)
    } else {
        partir_con(actual.push(s[0]), s.drop_first(), c)
    }
}

/// Lo que recorre `str::split(c)`: los trozos de `s` entre apariciones de `c`.
pub open spec fn partir(s: Seq<char>, c: char) -> Seq<Seq<char>> {
    partir_con(seq![], s, c)
}

/// `str::split(c)`, reunido en un vector.
pub fn separar(s: &str, c: char) -> (r: Vec<String>)
    ensures
        r.deep_view() == partir(s@, c),
{
    let v = caracteres(s);
    separar_caracteres(&v, c)
}

/// `split(c)` sobre una secuencia de caracteres.
pub fn separar_caracteres(v: &Vec<char>, c: char) -> (r: Vec<String>)
    ensures
        r.deep_view() == partir(v@, c),
{
    let mut r: Vec<String> = Vec::new();
    let mut actual = String::new();
    let mut i: usize = 0;
    assert(v@.skip(0) =~= v@);
    assert(r.deep_view() =~= Seq::<Seq<char>>::empty());
    assert(actual@ =~= Seq::<char>::empty());
    while i < v.len()
        invariant
            i <= v@.len(),
            partir(v@, c) == r.deep_view() + partir_con(actual@, v@.skip(i as int), c),
        decreases v@.len() - i,
    {
        let x = v[i];
        assert(v@.skip(i as int).drop_first() =~= v@.skip(i + 1));
        assert(v@.skip(i as int)[0] == x);
        if x == c {
            let ghost antes = r.deep_view();
            r.push(actual);
            assert(r.deep_view() =~= antes + seq![actual@]);
            actual = String::new();
        } else {
            empujar(&mut actual, x);
        }
        i = i + 1;
    }
    let ghost antes = r.deep_view();
    r.push(actual);
    assert(r.deep_view() =~= antes + seq![actual@]);
    r
}

/// Los trozos de `ts` unidos, con `sep` entre cada dos.
pub open spec fn unir(ts: Seq<Seq<char>>, sep: Seq<char>) -> Seq<char>
    decreases ts.len(),
{
    if ts.len() == 0 {
        seq![]
    } else if ts.len() == 1 {
        ts[0]
    } else {
        unir(ts.drop_last(), sep) + sep + ts.last()
    }
}

/// `[String]::join(sep)`.
pub fn unir_con(ts: &Vec<String>, sep: &str) -> (r: String)
    ensures
        r@ == unir(ts.deep_view(), sep@),
{
    let mut r = String::new();
    let mut i: usize = 0;
    let ghost dv = ts.deep_view();
    while i < ts.len()
        invariant
            i <= ts@.len(),
            dv == ts.deep_view(),
            r@ == unir(dv.take(i as int), sep@),
        decreases ts@.len() - i,
    {
        assert(dv.take(i + 1).drop_last() =~= dv.take(i as int));
        if i > 0 {
            r.append(sep);
        }
        r.append(ts[i].as_str());
        i = i + 1;
        assert(dv.take(i as int).last() == dv[i - 1]);
        if i == 1 {
            assert(r@ =~= dv.take(1)[0]);
        }
    }
    assert(dv.take(ts@.len() as int) =~= dv);
    r
}

proof fn lema_partir_sin(actual: Seq<char>, w: Seq<char>, c: char)
    requires
        !w.contains(c),
    ensures
        partir_con(actual, w, c) == seq![actual + w],
    decreases w.len(),
{
    if w.len() == 0 {
        assert(actual + w =~= actual);
    } else {
        assert(w[0] != c);
        assert(!w.drop_first().contains(c)) by {
            if w.drop_first().contains(c) {
                let k = choose|k: int| 0 <= k < w.drop_first().len() && w.drop_first()[k] == c;
                assert(w[k + 1] == c);
            }
        }
        lema_partir_sin(actual.push(w[0]), w.drop_first(), c);
        assert(actual.push(w[0]) + w.drop_first() =~= actual + w);
    }
}

proof fn lema_partir_concat(actual: Seq<char>, x: Seq<char>, y: Seq<char>, c: char)
    ensures
        partir_con(actual, x + seq![c] + y, c) == partir_con(actual, x, c) + partir(y, c),
    decreases x.len(),
{
    if x.len() == 0 {
        assert(x + seq![c] + y =~= seq![c] + y);
        assert((seq![c] + y).drop_first() =~= y);
    } else {
        assert((x + seq![c] + y).drop_first() =~= x.drop_first() + seq![c] + y);
        assert((x + seq![c] + y)[0] == x[0]);
        if x[0] == c {
            lema_partir_concat(seq![], x.drop_first(), y, c);
            assert(partir_con(actual, x + seq![c] + y, c) == seq![actual] + partir_con(
                seq![],
                x.drop_first() + seq![c] + y,
                c,
            ));
        } else {
            lema_partir_concat(actual.push(x[0]), x.drop_first(), y, c);
        }
    }
}

/// Separar por `c` lo que se unió con `c` da los trozos de partida, cuando
/// ninguno contiene `c` y hay al menos uno.
pub proof fn ley_partir_unir(ts: Seq<Seq<char>>, c: char)
    requires
        ts.len() >= 1,
        forall|i: int| 0 <= i < ts.len() ==> !(#[trigger] ts[i]).contains(c),
    ensures
        partir(unir(ts, seq![c]), c) == ts,
    decreases ts.len(),
{
    if ts.len() == 1 {
        lema_partir_sin(seq![], ts[0], c);
        assert(seq![] + ts[0] =~= ts[0]);
        assert(seq![ts[0]] =~= ts);
    } else {
        let init = ts.drop_last();
        assert forall|i: int| 0 <= i < init.len() implies !(#[trigger] init[i]).contains(c) by {
            assert(init[i] == ts[i]);
        }
        ley_partir_unir(init, c);
        lema_partir_concat(seq![], unir(init, seq![c]), ts.last(), c);
        assert(!ts[ts.len() - 1].contains(c));
        lema_partir_sin(seq![], ts.last(), c);
        assert(seq![] + ts.last() =~= ts.last());
        assert(init + seq![ts.last()] =~= ts);
    }
}

/// La posición de la primera aparición de `c` en `s` (o su longitud si no aparece).
pub open spec fn posicion_de(s: Seq<char>, c: char) -> nat
    decreases s.len(),
{
    if s.len() == 0 || s[0] == c {
        0
    } else {
        1 + posicion_de(s.drop_first(), c)
    }
}

/// `s` partida en la primera aparición de `c`: lo de antes y lo de después.
pub open spec fn dividir(s: Seq<char>, c: char) -> Option<(Seq<char>, Seq<char>)> {
    if s.contains(c) {
        Some((s.take(posicion_de(s, c) as int), s.skip(posicion_de(s, c) as int + 1)))
    } else {
        None
    }
}

proof fn lema_posicion_de(s: Seq<char>, c: char, i: int)
    requires
        0 <= i <= s.len(),
        forall|j: int| 0 <= j < i ==> s[j] != c,
        i == s.len() || s[i] == c,
    ensures
        posicion_de(s, c) == i,
    decreases i,
{
    if i > 0 {
        lema_posicion_de(s.drop_first(), c, i - 1);
    }
}

/// Los caracteres de `v` entre las posiciones `a` y `b`.
pub fn subcadena(v: &Vec<char>, a: usize, b: usize) -> (r: String)
    requires
        a <= b <= v@.len(),
    ensures
        r@ == v@.subrange(a as int, b as int),
{
    let mut r = String::new();
    let mut k: usize = a;
    while k < b
        invariant
            a <= k <= b,
            b <= v@.len(),
            r@ == v@.subrange(a as int, k as int),
        decreases b - k,
    {
        empujar(&mut r, v[k]);
        k = k + 1;
        assert(r@ =~= v@.subrange(a as int, k as int));
    }
    r
}

/// `s.split_once(c)` sobre una secuencia de caracteres, desde la posición `desde`.
pub fn dividir_desde(v: &Vec<char>, desde: usize, c: char) -> (r: Option<(String, usize)>)
    requires
        desde <= v@.len(),
    ensures
        match dividir(v@.skip(desde as int), c) {
            Some((antes, despues)) => r matches Some(p) && p.0@ == antes && desde < p.1 <= v@.len()
                && v@.skip(p.1 as int) == despues,
            None => r is None,
        },
{
    let ghost s = v@.skip(desde as int);
    let mut i: usize = desde;
    while i < v.len() && v[i] != c
        invariant
            desde <= i <= v@.len(),
            s == v@.skip(desde as int),
            forall|j: int| 0 <= j < i - desde ==> s[j] != c,
        decreases v@.len() - i,
    {
        i = i + 1;
    }
    if i < v.len() {
        proof {
            lema_posicion_de(s, c, i - desde);
            assert(s[i - desde] == c);
            assert(s.take(i - desde) =~= v@.subrange(desde as int, i as int));
            assert(s.skip(i - desde + 1) =~= v@.skip(i + 1));
        }
        let antes = subcadena(v, desde, i);
        Some((antes, i + 1))
    } else {
        proof {
            if s.contains(c) {
                let k = choose|k: int| 0 <= k < s.len() && s[k] == c;
                assert(false);
            }
        }
        None
    }
}

/// Partir una secuencia sin `c` da un único trozo.
pub proof fn lema_partir_sin_publico(actual: Seq<char>, w: Seq<char>, c: char)
    requires
        !w.contains(c),
    ensures
        partir_con(actual, w, c) == seq![actual + w],
{
    lema_partir_sin(actual, w, c);
}

/// Partir por `c` una concatenación separada por `c` concatena los trozos.
pub proof fn lema_partir_concat_publico(actual: Seq<char>, x: Seq<char>, y: Seq<char>, c: char)
    ensures
        partir_con(actual, x + seq![c] + y, c) == partir_con(actual, x, c) + partir(y, c),
{
    lema_partir_concat(actual, x, y, c);
}

// ---------------------------------------------------------------------------
// Líneas

/// Una línea sin el `\r` final, si lo tiene.
pub open spec fn sin_retorno(l: Seq<char>) -> Seq<char> {
    if l.len() > 0 && l.last() == '\r' {
        l.drop_last()
    } else {
        l
    }
}

/// Lo que recorre `str::lines`: los trozos entre saltos `\n`, sin el `\r` que
/// preceda a un salto; el último trozo sólo si no es vacío.
pub open spec fn lineas(s: Seq<char>) -> Seq<Seq<char>> {
    let ps = partir(s, '\n');
    let cerradas = ps.drop_last().map_values(|l: Seq<char>| sin_retorno(l));
    if ps.last().len() == 0 {
        cerradas
    } else {
        cerradas.push(ps.last())
    }
}

proof fn lema_partir_no_vacio(actual: Seq<char>, s: Seq<char>, c: char)
    ensures
        partir_con(actual, s, c).len() >= 1,
    decreases s.len(),
{
    if s.len() > 0 {
        if s[0] == c {
            lema_partir_no_vacio(seq![], s.drop_first(), c);
        } else {
            lema_partir_no_vacio(actual.push(s[0]), s.drop_first(), c);
        }
    }
}

/// `str::lines`, reunido en un vector.
pub fn separar_lineas(s: &str) -> (r: Vec<String>)
    ensures
        r.deep_view() == lineas(s@),
{
    let ps = separar(s, '\n');
    proof {
        lema_partir_no_vacio(seq![], s@, '\n');
    }
    let ghost dp = ps.deep_view();
    let n = ps.len();
    let mut r: Vec<String> = Vec::new();
    let mut i: usize = 0;
    while i + 1 < n
        invariant
            n == ps@.len(),
            n >= 1,
            i + 1 <= n,
            dp == ps.deep_view(),
            r.deep_view() == dp.drop_last().map_values(|l: Seq<char>| sin_retorno(l)).take(
                i as int,
            ),
        decreases n - i,
    {
        let l = quitar_retorno(&ps[i]);
        let ghost antes = r.deep_view();
        assert(ps@[i as int]@ == dp[i as int]);
        assert(dp.drop_last()[i as int] == dp[i as int]);
        let ghost lv = l@;
        r.push(l);
        assert(r.deep_view() =~= antes.push(lv));
        assert(r.deep_view() =~= dp.drop_last().map_values(|l: Seq<char>| sin_retorno(l)).take(
            i + 1,
        ));
        i = i + 1;
    }
    let ghost cerradas = dp.drop_last().map_values(|l: Seq<char>| sin_retorno(l));
    assert(cerradas.take(i as int) =~= cerradas);
    let ultima = &ps[n - 1];
    if !ultima.as_str().is_empty() {
        let u = ultima.clone();
        let ghost antes = r.deep_view();
        r.push(u);
        assert(r.deep_view() =~= antes.push(dp.last()));
    }
    r
}

fn quitar_retorno(l: &String) -> (r: String)
    ensures
        r@ == sin_retorno(l@),
{
    let v = caracteres(l.as_str());
    if v.len() > 0 && v[v.len() - 1] == '\r' {
        let mut w = v;
        w.pop();
        assert(w@ =~= l@.drop_last());
        cadena(w.as_slice())
    } else {
        l.clone()
    }
}

// ---------------------------------------------------------------------------
// Recorte de espacios

pub open spec fn sin_espacios_iniciales(s: Seq<char>) -> Seq<char>
    decreases s.len(),
{
    if s.len() > 0 && es_espacio(s[0]) {
        sin_espacios_iniciales(s.drop_first())
    } else {
        s
    }
}

pub open spec fn sin_espacios_finales(s: Seq<char>) -> Seq<char>
    decreases s.len(),
{
    if s.len() > 0 && es_espacio(s.last()) {
        sin_espacios_finales(s.drop_last())
    } else {
        s
    }
}

/// `str::trim`: `s` sin los espacios del principio ni los del final.
pub open spec fn recortado(s: Seq<char>) -> Seq<char> {
    sin_espacios_finales(sin_espacios_iniciales(s))
}

/// `str::trim`.
pub fn recortar(s: &str) -> (r: String)
    ensures
        r@ == recortado(s@),
{
    let v = caracteres(s);
    let mut a: usize = 0;
    assert(v@.skip(0) =~= v@);
    while a < v.len() && espacio(v[a])
        invariant
            a <= v@.len(),
            sin_espacios_iniciales(v@) == sin_espacios_iniciales(v@.skip(a as int)),
        decreases v@.len() - a,
    {
        assert(v@.skip(a as int).drop_first() =~= v@.skip(a + 1));
        a = a + 1;
    }
    let ghost ini = v@.skip(a as int);
    assert(sin_espacios_iniciales(v@) == ini);
    let mut b: usize = v.len();
    while b > a && espacio(v[b - 1])
        invariant
            a <= b <= v@.len(),
            ini == v@.skip(a as int),
            sin_espacios_finales(ini) == sin_espacios_finales(v@.subrange(a as int, b as int)),
        decreases b,
    {
        assert(v@.subrange(a as int, b as int).drop_last() =~= v@.subrange(a as int, b - 1));
        b = b - 1;
    }
    let ghost fin = v@.subrange(a as int, b as int);
    assert(sin_espacios_finales(fin) == fin);
    let mut w: Vec<char> = Vec::new();
    let mut k: usize = a;
    while k < b
        invariant
            a <= k <= b,
            b <= v@.len(),
            w@ == v@.subrange(a as int, k as int),
        decreases b - k,
    {
        w.push(v[k]);
        k = k + 1;
        assert(w@ =~= v@.subrange(a as int, k as int));
    }
    assert(v@.skip(a as int) =~= v@.subrange(a as int, v@.len() as int));
    cadena(w.as_slice())
}

// ---------------------------------------------------------------------------
// Orden lexicográfico

/// El orden de `String`: carácter a carácter por su valor Unicode (el mismo que
/// da comparar los bytes UTF-8); un prefijo propio va antes.
pub open spec fn lex_menor(a: Seq<char>, b: Seq<char>) -> bool
    decreases a.len(),
{
    if a.len() == 0 {
        b.len() > 0
    } else if b.len() == 0 {
        false
    } else if a[0] != b[0] {
        (a[0] as int) < (b[0] as int)
    } else {
        lex_menor(a.drop_first(), b.drop_first())
    }
}

pub proof fn lema_lex_irreflexivo(a: Seq<char>)
    ensures
        !lex_menor(a, a),
    decreases a.len(),
{
    if a.len() > 0 {
        lema_lex_irreflexivo(a.drop_first());
    }
}

pub proof fn lema_lex_total(a: Seq<char>, b: Seq<char>)
    requires
        a != b,
    ensures
        lex_menor(a, b) || lex_menor(b, a),
    decreases a.len(),
{
    if a.len() > 0 && b.len() > 0 && a[0] == b[0] {
        if a.drop_first() == b.drop_first() {
            assert(a =~= seq![a[0]] + a.drop_first());
            assert(b =~= seq![b[0]] + b.drop_first());
        }
        lema_lex_total(a.drop_first(), b.drop_first());
    } else if a.len() > 0 && b.len() > 0 {
        assert(a[0] as int != b[0] as int);
    } else if a.len() == 0 && b.len() == 0 {
        assert(a =~= b);
    }
}

pub proof fn lema_lex_transitivo(a: Seq<char>, b: Seq<char>, c: Seq<char>)
    requires
        lex_menor(a, b),
        lex_menor(b, c),
    ensures
        lex_menor(a, c),
    decreases a.len(),
{
    if a.len() > 0 && b.len() > 0 && c.len() > 0 && a[0] == b[0] && b[0] == c[0] {
        lema_lex_transitivo(a.drop_first(), b.drop_first(), c.drop_first());
    }
}

pub proof fn lema_lex_asimetrico(a: Seq<char>, b: Seq<char>)
    requires
        lex_menor(a, b),
    ensures
        !lex_menor(b, a),
{
    if lex_menor(b, a) {
        lema_lex_transitivo(a, b, a);
        lema_lex_irreflexivo(a);
    }
}

/// `a == b` entre cadenas.
pub fn iguales(a: &str, b: &str) -> (r: bool)
    ensures
        r == (a@ == b@),
{
    let va = caracteres(a);
    let vb = caracteres(b);
    if va.len() != vb.len() {
        return false;
    }
    let mut i: usize = 0;
    while i < va.len()
        invariant
            i <= va@.len(),
            va@.len() == vb@.len(),
            va@ == a@,
            vb@ == b@,
            forall|j: int| 0 <= j < i ==> va@[j] == vb@[j],
        decreases va@.len() - i,
    {
        if va[i] != vb[i] {
            return false;
        }
        i = i + 1;
    }
    assert(va@ =~= vb@);
    true
}

/// `v.contains(x)` sobre un vector de cadenas.
pub fn contiene(v: &Vec<String>, x: &str) -> (r: bool)
    ensures
        r == v.deep_view().contains(x@),
{
    let mut i: usize = 0;
    while i < v.len()
        invariant
            i <= v@.len(),
            forall|j: int| 0 <= j < i ==> v.deep_view()[j] != x@,
        decreases v@.len() - i,
    {
        if iguales(v[i].as_str(), x) {
            assert(v.deep_view()[i as int] == x@);
            return true;
        }
        i = i + 1;
    }
    false
}

/// La primera posición de `x` en `s` (se usa sólo si `s` contiene `x`).
pub open spec fn primera_posicion(s: Seq<Seq<char>>, x: Seq<char>) -> int
    decreases s.len(),
{
    if s.len() == 0 || s[0] == x {
        0
    } else {
        1 + primera_posicion(s.drop_first(), x)
    }
}

proof fn lema_primera_posicion(s: Seq<Seq<char>>, x: Seq<char>, i: int)
    requires
        0 <= i < s.len(),
        s[i] == x,
        forall|j: int| 0 <= j < i ==> s[j] != x,
    ensures
        primera_posicion(s, x) == i,
    decreases i,
{
    if i > 0 {
        lema_primera_posicion(s.drop_first(), x, i - 1);
    }
}

/// `iter().position(|t| t == x)` sobre un vector de cadenas.
pub fn posicion(v: &Vec<String>, x: &str) -> (r: Option<usize>)
    ensures
        r is Some <==> v.deep_view().contains(x@),
        r matches Some(i) ==> i == primera_posicion(v.deep_view(), x@) && i < v@.len(),
{
    let mut i: usize = 0;
    while i < v.len()
        invariant
            i <= v@.len(),
            forall|j: int| 0 <= j < i ==> v.deep_view()[j] != x@,
        decreases v@.len() - i,
    {
        if iguales(v[i].as_str(), x) {
            proof {
                lema_primera_posicion(v.deep_view(), x@, i as int);
                assert(v.deep_view()[i as int] == x@);
            }
            return Some(i);
        }
        i = i + 1;
    }
    None
}

/// `a < b` entre cadenas.
pub fn menor(a: &str, b: &str) -> (r: bool)
    ensures
        r == lex_menor(a@, b@),
{
    let va = caracteres(a);
    let vb = caracteres(b);
    let mut i: usize = 0;
    assert(va@.skip(0) =~= va@);
    assert(vb@.skip(0) =~= vb@);
    while i < va.len() && i < vb.len() && va[i] == vb[i]
        invariant
            i <= va@.len(),
            i <= vb@.len(),
            lex_menor(a@, b@) == lex_menor(va@.skip(i as int), vb@.skip(i as int)),
            va@ == a@,
            vb@ == b@,
        decreases va@.len() - i,
    {
        assert(va@.skip(i as int).drop_first() =~= va@.skip(i + 1));
        assert(vb@.skip(i as int).drop_first() =~= vb@.skip(i + 1));
        i = i + 1;
    }
    if i == va.len() {
        i < vb.len()
    } else if i == vb.len() {
        false
    } else {
        va[i] < vb[i]
    }
}

/// Ordenada de menor a mayor, sin repetidos.
pub open spec fn ordenada_estricta(s: Seq<Seq<char>>) -> bool {
    forall|i: int, j: int| 0 <= i < j < s.len() ==> lex_menor(#[trigger] s[i], #[trigger] s[j])
}

/// La única secuencia ordenada de menor a mayor, sin repetidos, con los
/// elementos de un conjunto finito.
pub open spec fn en_orden(conjunto: Set<Seq<char>>) -> Seq<Seq<char>> {
    choose|s: Seq<Seq<char>>| ordenada_estricta(s) && s.to_set() == conjunto
}

/// Dos secuencias ordenadas sin repetidos con los mismos elementos son iguales.
pub proof fn lema_orden_unico(a: Seq<Seq<char>>, b: Seq<Seq<char>>)
    requires
        ordenada_estricta(a),
        ordenada_estricta(b),
        a.to_set() == b.to_set(),
    ensures
        a == b,
    decreases a.len(),
{
    if a.len() == 0 {
        if b.len() > 0 {
            assert(b.to_set().contains(b[0]));
            assert(!a.to_set().contains(b[0]));
        }
        assert(a =~= b);
    } else {
        assert(a.to_set().contains(a[0]));
        assert(b.contains(a[0]));
        assert(b.len() > 0);
        assert(b.to_set().contains(b[0]));
        assert(a.contains(b[0]));
        let i = choose|i: int| 0 <= i < a.len() && a[i] == b[0];
        let j = choose|j: int| 0 <= j < b.len() && b[j] == a[0];
        if a[0] != b[0] {
            assert(i > 0 && j > 0);
            assert(lex_menor(a[0], a[i]));
            assert(lex_menor(b[0], b[j]));
            lema_lex_asimetrico(a[0], b[0]);
        }
        let ra = a.drop_first();
        let rb = b.drop_first();
        assert(ordenada_estricta(ra)) by {
            assert forall|x: int, y: int| 0 <= x < y < ra.len() implies lex_menor(
                #[trigger] ra[x],
                #[trigger] ra[y],
            ) by {
                assert(ra[x] == a[x + 1] && ra[y] == a[y + 1]);
            }
        }
        assert(ordenada_estricta(rb)) by {
            assert forall|x: int, y: int| 0 <= x < y < rb.len() implies lex_menor(
                #[trigger] rb[x],
                #[trigger] rb[y],
            ) by {
                assert(rb[x] == b[x + 1] && rb[y] == b[y + 1]);
            }
        }
        assert(ra.to_set() =~= rb.to_set()) by {
            assert forall|s: Seq<char>| ra.to_set().contains(s) <==> rb.to_set().contains(s) by {
                if ra.contains(s) {
                    let k = choose|k: int| 0 <= k < ra.len() && ra[k] == s;
                    assert(a[k + 1] == s);
                    assert(lex_menor(a[0], a[k + 1]));
                    lema_lex_irreflexivo(s);
                    assert(b.to_set().contains(s));
                    let q = choose|q: int| 0 <= q < b.len() && b[q] == s;
                    assert(q != 0);
                    assert(rb[q - 1] == s);
                }
                if rb.contains(s) {
                    let k = choose|k: int| 0 <= k < rb.len() && rb[k] == s;
                    assert(b[k + 1] == s);
                    assert(lex_menor(b[0], b[k + 1]));
                    lema_lex_irreflexivo(s);
                    assert(a.to_set().contains(s));
                    let q = choose|q: int| 0 <= q < a.len() && a[q] == s;
                    assert(q != 0);
                    assert(ra[q - 1] == s);
                }
            }
        }
        lema_orden_unico(ra, rb);
        assert(a =~= seq![a[0]] + ra);
        assert(b =~= seq![b[0]] + rb);
    }
}

/// Una secuencia ordenada sin repetidos es la que da `en_orden` para sus elementos.
pub proof fn lema_es_en_orden(s: Seq<Seq<char>>)
    requires
        ordenada_estricta(s),
    ensures
        s == en_orden(s.to_set()),
{
    let c = en_orden(s.to_set());
    assert(ordenada_estricta(c) && c.to_set() == s.to_set());
    lema_orden_unico(s, c);
}

/// Ordena de menor a mayor cadenas distintas entre sí (`sort` sobre claves de un mapa).
pub fn ordenar(v: Vec<String>) -> (r: Vec<String>)
    requires
        forall|i: int, j: int| 0 <= i < j < v@.len() ==> v@[i]@ != v@[j]@,
    ensures
        ordenada_estricta(r.deep_view()),
        r.deep_view().to_set() == v.deep_view().to_set(),
        r@.len() == v@.len(),
{
    let ghost dv = v.deep_view();
    let mut r: Vec<String> = Vec::new();
    let mut v = v;
    let ghost n = dv.len();
    assert(v.deep_view() =~= dv);
    while v.len() > 0
        invariant
            ordenada_estricta(r.deep_view()),
            r.deep_view().to_set() + v.deep_view().to_set() == dv.to_set(),
            r@.len() + v@.len() == n,
            n == dv.len(),
            forall|i: int, j: int| 0 <= i < j < v@.len() ==> v@[i]@ != v@[j]@,
            forall|i: int, j: int| 0 <= i < r@.len() && 0 <= j < v@.len() ==> r@[i]@ != v@[j]@,
        decreases v@.len(),
    {
        let ghost vv = v.deep_view();
        let ghost rv = r.deep_view();
        let x = v.pop().unwrap();
        assert(vv =~= v.deep_view().push(x@));
        let mut p: usize = 0;
        while p < r.len() && menor(r[p].as_str(), x.as_str())
            invariant
                p <= r@.len(),
                rv == r.deep_view(),
                forall|i: int| 0 <= i < p ==> lex_menor(#[trigger] rv[i], x@),
            decreases r@.len() - p,
        {
            p = p + 1;
        }
        proof {
            if p < r@.len() {
                assert(r@[p as int]@ != x@);
                lema_lex_total(rv[p as int], x@);
            }
        }
        let ghost xv = x@;
        r.insert(p, x);
        let ghost nr = r.deep_view();
        assert(nr =~= rv.insert(p as int, xv));
        assert forall|i: int, j: int| 0 <= i < j < nr.len() implies lex_menor(
            #[trigger] nr[i],
            #[trigger] nr[j],
        ) by {
            if j < p {
                assert(nr[i] == rv[i] && nr[j] == rv[j]);
            } else if j == p {
                assert(nr[i] == rv[i]);
            } else if i < p {
                assert(nr[i] == rv[i] && nr[j] == rv[j - 1]);
                if j - 1 > p {
                    lema_lex_transitivo(rv[i], xv, rv[p as int]);
                    lema_lex_transitivo(rv[i], rv[p as int], rv[j - 1]);
                } else {
                    lema_lex_transitivo(rv[i], xv, rv[p as int]);
                }
            } else if i == p {
                assert(nr[j] == rv[j - 1]);
                if j - 1 > p {
                    lema_lex_transitivo(xv, rv[p as int], rv[j - 1]);
                }
            } else {
                assert(nr[i] == rv[i - 1] && nr[j] == rv[j - 1]);
            }
        }
        assert(nr.to_set() =~= rv.to_set().insert(xv)) by {
            assert forall|s: Seq<char>| nr.to_set().contains(s) <==> rv.to_set().insert(
                xv,
            ).contains(s) by {
                if nr.contains(s) {
                    let k = choose|k: int| 0 <= k < nr.len() && nr[k] == s;
                    if k < p {
                        assert(rv[k] == s);
                    } else if k > p {
                        assert(rv[k - 1] == s);
                    }
                }
                if rv.contains(s) {
                    let k = choose|k: int| 0 <= k < rv.len() && rv[k] == s;
                    if k < p {
                        assert(nr[k] == s);
                    } else {
                        assert(nr[k + 1] == s);
                    }
                }
                if s == xv {
                    assert(nr[p as int] == s);
                }
            }
        }
        assert(vv.to_set() =~= v.deep_view().to_set().insert(xv)) by {
            assert forall|s: Seq<char>| vv.to_set().contains(s) <==> v.deep_view().to_set().insert(
                xv,
            ).contains(s) by {
                if vv.contains(s) {
                    let k = choose|k: int| 0 <= k < vv.len() && vv[k] == s;
                    if k < vv.len() - 1 {
                        assert(v.deep_view()[k] == s);
                    }
                }
                if v.deep_view().contains(s) {
                    let k = choose|k: int| 0 <= k < v.deep_view().len() && v.deep_view()[k] == s;
                    assert(vv[k] == s);
                }
                if s == xv {
                    assert(vv[vv.len() - 1] == s);
                }
            }
        }
        assert forall|i: int, j: int| 0 <= i < r@.len() && 0 <= j < v@.len() implies r@[i]@
            != v@[j]@ by {
            assert(r@[i]@ == nr[i]);
            assert(v@[j]@ == vv[j]);
            if i < p {
                assert(nr[i] == rv[i]);
            } else if i == p {
                assert(nr[i] == xv);
                assert(xv == vv[vv.len() - 1]);
            } else {
                assert(nr[i] == rv[i - 1]);
            }
        }
    }
    assert(v.deep_view() =~= Seq::<Seq<char>>::empty());
    assert(v.deep_view().to_set() =~= Set::<Seq<char>>::empty());
    assert(r.deep_view().to_set() + Set::<Seq<char>>::empty() =~= r.deep_view().to_set());
    r
}

} // verus!
