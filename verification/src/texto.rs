//! Texto: recorte de espacios, comparación y formato de enteros con relleno.

use vstd::prelude::*;

verus! {

/// La propiedad Unicode `White_Space`: los 25 puntos de código que lista
/// `PropList.txt` (U+0009–000D, 0020, 0085, 00A0, 1680, 2000–200A, 2028, 2029,
/// 202F, 205F, 3000).
pub open spec fn espacio_unicode(c: char) -> bool {
    let n = c as u32;
    ||| 0x09 <= n <= 0x0D
    ||| n == 0x20
    ||| n == 0x85
    ||| n == 0xA0
    ||| n == 0x1680
    ||| 0x2000 <= n <= 0x200A
    ||| n == 0x2028
    ||| n == 0x2029
    ||| n == 0x202F
    ||| n == 0x205F
    ||| n == 0x3000
}

/// Lo que decide `char::is_whitespace`: si el carácter tiene la propiedad
/// Unicode `White_Space`.
pub(crate) fn es_espacio(c: char) -> (r: bool)
    ensures
        r == espacio_unicode(c),
{
    let n = c as u32;
    (0x09 <= n && n <= 0x0D) || n == 0x20 || n == 0x85 || n == 0xA0 || n == 0x1680 || (0x2000
        <= n && n <= 0x200A) || n == 0x2028 || n == 0x2029 || n == 0x202F || n == 0x205F || n
        == 0x3000
}

/// Quita los espacios iniciales.
pub open spec fn sin_espacios_al_inicio(s: Seq<char>) -> Seq<char>
    decreases s.len(),
{
    if s.len() > 0 && espacio_unicode(s[0]) {
        sin_espacios_al_inicio(s.drop_first())
    } else {
        s
    }
}

/// Quita los espacios finales.
pub open spec fn sin_espacios_al_final(s: Seq<char>) -> Seq<char>
    decreases s.len(),
{
    if s.len() > 0 && espacio_unicode(s.last()) {
        sin_espacios_al_final(s.drop_last())
    } else {
        s
    }
}

/// Lo que deja `str::trim`: el texto sin espacios al inicio ni al final.
pub open spec fn recorte(s: Seq<char>) -> Seq<char> {
    sin_espacios_al_final(sin_espacios_al_inicio(s))
}

/// Un texto está en blanco si, recortado, no queda nada.
pub open spec fn en_blanco(s: Seq<char>) -> bool {
    recorte(s).len() == 0
}

proof fn lema_sin_espacios_al_inicio(s: Seq<char>, i: int)
    requires
        0 <= i <= s.len(),
        forall|k: int| 0 <= k < i ==> espacio_unicode(#[trigger] s[k]),
        i == s.len() || !espacio_unicode(s[i]),
    ensures
        sin_espacios_al_inicio(s) == s.subrange(i, s.len() as int),
    decreases i,
{
    if i == 0 {
        assert(s.subrange(0, s.len() as int) =~= s);
    } else {
        let t = s.drop_first();
        assert forall|k: int| 0 <= k < i - 1 implies espacio_unicode(#[trigger] t[k]) by {
            assert(t[k] == s[k + 1]);
        }
        assert(i - 1 == t.len() || t[i - 1] == s[i]);
        lema_sin_espacios_al_inicio(t, i - 1);
        assert(t.subrange(i - 1, t.len() as int) =~= s.subrange(i, s.len() as int));
    }
}

proof fn lema_sin_espacios_al_final(s: Seq<char>, j: int)
    requires
        0 <= j <= s.len(),
        forall|k: int| j <= k < s.len() ==> espacio_unicode(#[trigger] s[k]),
        j == 0 || !espacio_unicode(s[j - 1]),
    ensures
        sin_espacios_al_final(s) == s.subrange(0, j),
    decreases s.len() - j,
{
    if j == s.len() {
        assert(s.subrange(0, j) =~= s);
    } else {
        let t = s.drop_last();
        assert forall|k: int| j <= k < t.len() implies espacio_unicode(#[trigger] t[k]) by {
            assert(t[k] == s[k]);
        }
        assert(espacio_unicode(s[s.len() - 1]));
        assert(j == 0 || t[j - 1] == s[j - 1]);
        lema_sin_espacios_al_final(t, j);
        assert(t.subrange(0, j) =~= s.subrange(0, j));
    }
}

proof fn lema_inicio_sin_espacio(s: Seq<char>)
    ensures
        sin_espacios_al_inicio(s).len() == 0 || !espacio_unicode(sin_espacios_al_inicio(s)[0]),
    decreases s.len(),
{
    if s.len() > 0 && espacio_unicode(s[0]) {
        lema_inicio_sin_espacio(s.drop_first());
    }
}

proof fn lema_final_conserva_inicio(s: Seq<char>)
    ensures
        sin_espacios_al_final(s).len() <= s.len(),
        sin_espacios_al_final(s).len() > 0 ==> sin_espacios_al_final(s)[0] == s[0],
        sin_espacios_al_final(s).len() == 0 || !espacio_unicode(sin_espacios_al_final(s).last()),
    decreases s.len(),
{
    if s.len() > 0 && espacio_unicode(s.last()) {
        lema_final_conserva_inicio(s.drop_last());
    }
}

/// Un texto que no empieza ni termina con un espacio queda igual al recortarlo;
/// en particular, uno sin ningún espacio.
pub proof fn ley_recorte_sin_espacios_en_los_extremos(s: Seq<char>)
    requires
        s.len() > 0 ==> !espacio_unicode(s[0]) && !espacio_unicode(s.last()),
    ensures
        recorte(s) == s,
{
}

/// Un texto hecho sólo de espacios queda vacío al recortarlo.
pub proof fn ley_recorte_de_espacios(s: Seq<char>)
    requires
        forall|k: int| 0 <= k < s.len() ==> espacio_unicode(#[trigger] s[k]),
    ensures
        recorte(s).len() == 0,
{
    lema_sin_espacios_al_inicio(s, s.len() as int);
    assert(s.subrange(s.len() as int, s.len() as int).len() == 0);
}

proof fn lema_inicio_no_vacio(s: Seq<char>, k: int)
    requires
        0 <= k < s.len(),
        !espacio_unicode(s[k]),
    ensures
        sin_espacios_al_inicio(s).len() > 0,
    decreases s.len(),
{
    if espacio_unicode(s[0]) {
        assert(s.drop_first()[k - 1] == s[k]);
        lema_inicio_no_vacio(s.drop_first(), k - 1);
    }
}

proof fn lema_final_no_vacio(s: Seq<char>)
    requires
        s.len() > 0,
        !espacio_unicode(s[0]),
    ensures
        sin_espacios_al_final(s).len() > 0,
    decreases s.len(),
{
    if espacio_unicode(s.last()) {
        let t = s.drop_last();
        assert(t[0] == s[0]);
        lema_final_no_vacio(t);
    }
}

/// Un texto queda en blanco al recortarlo si y sólo si todos sus caracteres
/// son espacios.
pub proof fn ley_en_blanco_solo_espacios(s: Seq<char>)
    ensures
        recorte(s).len() == 0 <==> forall|k: int| 0 <= k < s.len() ==> espacio_unicode(#[trigger] s[k]),
{
    if forall|k: int| 0 <= k < s.len() ==> espacio_unicode(#[trigger] s[k]) {
        ley_recorte_de_espacios(s);
    } else {
        let k = choose|k: int| 0 <= k < s.len() && !espacio_unicode(#[trigger] s[k]);
        lema_inicio_no_vacio(s, k);
        lema_inicio_sin_espacio(s);
        lema_final_no_vacio(sin_espacios_al_inicio(s));
    }
}

/// Recortar un texto ya recortado lo deja igual.
pub proof fn ley_recorte_idempotente(s: Seq<char>)
    ensures
        recorte(recorte(s)) == recorte(s),
{
    let t = recorte(s);
    lema_inicio_sin_espacio(s);
    lema_final_conserva_inicio(sin_espacios_al_inicio(s));
    assert(sin_espacios_al_inicio(t) == t);
    assert(sin_espacios_al_final(t) == t);
}

/// Índices del recorte: `recorte(s)` es `s[i..j]`.
fn limites_del_recorte(s: &str) -> (r: (usize, usize))
    ensures
        r.0 <= r.1 <= s@.len(),
        recorte(s@) == s@.subrange(r.0 as int, r.1 as int),
{
    let n = s.unicode_len();
    let mut i: usize = 0;
    while i < n && es_espacio(s.get_char(i))
        invariant
            n == s@.len(),
            i <= n,
            forall|k: int| 0 <= k < i ==> espacio_unicode(#[trigger] s@[k]),
        decreases n - i,
    {
        i = i + 1;
    }
    proof {
        lema_sin_espacios_al_inicio(s@, i as int);
    }
    let ghost t = s@.subrange(i as int, n as int);
    let mut j: usize = n;
    while j > i && es_espacio(s.get_char(j - 1))
        invariant
            n == s@.len(),
            i <= j <= n,
            t == s@.subrange(i as int, n as int),
            forall|k: int| j <= k < n ==> espacio_unicode(#[trigger] s@[k]),
        decreases j - i,
    {
        j = j - 1;
    }
    proof {
        assert forall|k: int| j - i <= k < t.len() implies espacio_unicode(#[trigger] t[k]) by {
            assert(t[k] == s@[k + i]);
        }
        assert(j == i || t[j - i - 1] == s@[j - 1]);
        lema_sin_espacios_al_final(t, (j - i) as int);
        assert(t.subrange(0, (j - i) as int) =~= s@.subrange(i as int, j as int));
    }
    (i, j)
}

/// `s.trim().to_string()`.
pub fn recortar(s: &str) -> (r: String)
    ensures
        r@ == recorte(s@),
{
    let (i, j) = limites_del_recorte(s);
    String::from_str(s.substring_char(i, j))
}

/// `s.trim().is_empty()`.
pub fn esta_en_blanco(s: &str) -> (r: bool)
    ensures
        r == en_blanco(s@),
{
    let (i, j) = limites_del_recorte(s);
    i == j
}

/// Comparación exacta de dos textos.
pub fn mismo_texto(a: &str, b: &str) -> (r: bool)
    ensures
        r == (a@ == b@),
{
    let n = a.unicode_len();
    if n != b.unicode_len() {
        return false;
    }
    let mut i: usize = 0;
    while i < n
        invariant
            n == a@.len(),
            n == b@.len(),
            i <= n,
            forall|k: int| 0 <= k < i ==> a@[k] == b@[k],
        decreases n - i,
    {
        if a.get_char(i) != b.get_char(i) {
            return false;
        }
        i = i + 1;
    }
    proof {
        assert(a@ =~= b@);
    }
    true
}

/// Un texto opcional, visto como secuencia de caracteres.
pub open spec fn vista_opcional(t: Option<String>) -> Option<Seq<char>> {
    match t {
        Some(s) => Some(s@),
        None => None,
    }
}

/// Los textos de un vector, como secuencias de caracteres.
pub open spec fn vistas_textos(s: Seq<String>) -> Seq<Seq<char>> {
    s.map_values(|t: String| t@)
}

/// Primera posición de `t` entre los textos de `v`, si está.
pub fn posicion_de_texto(v: &Vec<String>, t: &str) -> (r: Option<usize>)
    ensures
        match r {
            Some(k) => k < v.len() && vistas_textos(v@)[k as int] == t@ && forall|j: int|
                0 <= j < k ==> vistas_textos(v@)[j] != t@,
            None => !vistas_textos(v@).contains(t@),
        },
{
    let ghost vs = vistas_textos(v@);
    let mut j: usize = 0;
    while j < v.len()
        invariant
            j <= v.len(),
            vs == vistas_textos(v@),
            forall|k: int| 0 <= k < j ==> vs[k] != t@,
        decreases v.len() - j,
    {
        if mismo_texto(v[j].as_str(), t) {
            return Some(j);
        }
        j = j + 1;
    }
    None
}

/// La cifra decimal `d` como carácter.
pub open spec fn cifra(d: int) -> char {
    if d == 0 { '0' }
    else if d == 1 { '1' }
    else if d == 2 { '2' }
    else if d == 3 { '3' }
    else if d == 4 { '4' }
    else if d == 5 { '5' }
    else if d == 6 { '6' }
    else if d == 7 { '7' }
    else if d == 8 { '8' }
    else { '9' }
}

/// Representación decimal de un natural, sin ceros a la izquierda.
pub open spec fn decimal(n: nat) -> Seq<char>
    decreases n,
{
    if n < 10 {
        seq![cifra(n as int)]
    } else {
        decimal(n / 10).push(cifra((n % 10) as int))
    }
}

/// `k` ceros (ninguno si `k` no es positivo).
pub open spec fn ceros(k: int) -> Seq<char> {
    Seq::new(if k > 0 { k as nat } else { 0 }, |i: int| '0')
}

/// Lo que escribe `format!("{:0w$}", v)` para un entero: el signo, ceros hasta
/// completar el ancho `w` (que incluye el signo) y las cifras.
pub open spec fn con_relleno(v: int, w: int) -> Seq<char> {
    let signo: Seq<char> = if v < 0 { seq!['-'] } else { Seq::empty() };
    let cifras = decimal((if v < 0 { -v } else { v }) as nat);
    signo + ceros(w - signo.len() - cifras.len()) + cifras
}

fn texto_de_cifra(d: u8) -> (r: &'static str)
    requires
        d < 10,
    ensures
        r@ == seq![cifra(d as int)],
{
    proof {
        reveal_strlit("0");
        reveal_strlit("1");
        reveal_strlit("2");
        reveal_strlit("3");
        reveal_strlit("4");
        reveal_strlit("5");
        reveal_strlit("6");
        reveal_strlit("7");
        reveal_strlit("8");
        reveal_strlit("9");
    }
    if d == 0 { "0" }
    else if d == 1 { "1" }
    else if d == 2 { "2" }
    else if d == 3 { "3" }
    else if d == 4 { "4" }
    else if d == 5 { "5" }
    else if d == 6 { "6" }
    else if d == 7 { "7" }
    else if d == 8 { "8" }
    else { "9" }
}

/// Cifras de `n`, de la más significativa a la menos.
fn cifras_de(n: u128) -> (r: Vec<u8>)
    ensures
        r.len() >= 1,
        forall|k: int| 0 <= k < r.len() ==> r[k] < 10,
        r@.map_values(|d: u8| cifra(d as int)) == decimal(n as nat),
    decreases n,
{
    if n < 10 {
        let v = vec![n as u8];
        proof {
            assert(v@.map_values(|d: u8| cifra(d as int)) =~= seq![cifra(n as int)]);
        }
        v
    } else {
        let mut v = cifras_de(n / 10);
        let d = (n % 10) as u8;
        let ghost antes = v@;
        v.push(d);
        proof {
            assert(v@.map_values(|d: u8| cifra(d as int)) =~= antes.map_values(
                |d: u8| cifra(d as int),
            ).push(cifra(d as int)));
        }
        v
    }
}

/// `n.to_string()` de un natural: sus cifras decimales.
pub fn en_decimal(n: u64) -> (r: String)
    ensures
        r@ == decimal(n as nat),
{
    let cifras = cifras_de(n as u128);
    let n_cifras = cifras.len();
    let mut r = String::new();
    let mut k: usize = 0;
    while k < n_cifras
        invariant
            n_cifras == cifras.len(),
            k <= n_cifras,
            forall|m: int| 0 <= m < n_cifras ==> cifras[m] < 10,
            r@ == cifras@.subrange(0, k as int).map_values(|d: u8| cifra(d as int)),
        decreases n_cifras - k,
    {
        let t = texto_de_cifra(cifras[k]);
        r.append(t);
        proof {
            assert(cifras@.subrange(0, k + 1).map_values(|d: u8| cifra(d as int)) =~= cifras@.subrange(
                0,
                k as int,
            ).map_values(|d: u8| cifra(d as int)).push(cifra(cifras[k as int] as int)));
        }
        k = k + 1;
    }
    proof {
        assert(cifras@.subrange(0, n_cifras as int) =~= cifras@);
    }
    r
}

/// `format!("{:0w$}", v)`.
pub fn con_ceros(v: i64, w: usize) -> (r: String)
    ensures
        r@ == con_relleno(v as int, w as int),
{
    let negativo = v < 0;
    let magnitud: u128 = if negativo { (0i128 - v as i128) as u128 } else { v as u128 };
    let cifras = cifras_de(magnitud);
    let ghost dec = decimal(magnitud as nat);
    let mut r = String::new();
    let mut largo: usize = 0;
    if negativo {
        proof {
            reveal_strlit("-");
        }
        r.append("-");
        largo = 1;
    }
    let ghost signo = r@;
    let n = cifras.len();
    let mut relleno: usize = 0;
    let faltan: usize = if w > n && w - n > largo { w - n - largo } else { 0 };
    proof {
        reveal_strlit("0");
    }
    while relleno < faltan
        invariant
            relleno <= faltan,
            r@ == signo + ceros(relleno as int),
        decreases faltan - relleno,
    {
        proof {
            reveal_strlit("0");
        }
        r.append("0");
        relleno = relleno + 1;
        assert(ceros(relleno as int) =~= ceros(relleno - 1).push('0'));
        assert(r@ =~= signo + ceros(relleno as int));
    }
    let ghost prefijo = r@;
    let mut k: usize = 0;
    while k < n
        invariant
            n == cifras.len(),
            k <= n,
            forall|m: int| 0 <= m < n ==> cifras[m] < 10,
            r@ == prefijo + cifras@.subrange(0, k as int).map_values(|d: u8| cifra(d as int)),
        decreases n - k,
    {
        let t = texto_de_cifra(cifras[k]);
        r.append(t);
        proof {
            assert(cifras@.subrange(0, k + 1).map_values(|d: u8| cifra(d as int)) =~= cifras@.subrange(
                0,
                k as int,
            ).map_values(|d: u8| cifra(d as int)).push(cifra(cifras[k as int] as int)));
        }
        k = k + 1;
    }
    proof {
        assert(cifras@.subrange(0, n as int) =~= cifras@);
        assert(dec.len() == n);
        assert(signo.len() == largo);
        assert(ceros(faltan as int) =~= ceros(w - signo.len() - dec.len()));
    }
    r
}

} // verus!
