//! Fechas ISO (`YYYY-MM-DD`) del reglamento: meses calendario, mes de compra,
//! vencimientos mensuales.
//!
//! Las fechas se leen por bytes, como las lee `str::get` con rangos de bytes, y
//! cada campo numérico con las reglas de `i64::from_str`.

use vstd::prelude::*;
use vstd::string::StringSliceAdditionalSpecFns;
use vstd::utf8::*;

use crate::error::ErrorNegocio;
use crate::texto::{ceros, cifra, con_ceros, con_relleno, decimal, recortar, recorte};

verus! {

broadcast use vstd::utf8::encode_utf8_valid_utf8;

/// Byte de una cifra ASCII.
pub open spec fn es_cifra(b: u8) -> bool {
    48 <= b <= 57
}

pub open spec fn solo_cifras(s: Seq<u8>) -> bool {
    forall|i: int| 0 <= i < s.len() ==> es_cifra(#[trigger] s[i])
}

/// Valor decimal de una secuencia de cifras.
pub open spec fn valor_cifras(s: Seq<u8>) -> int
    decreases s.len(),
{
    if s.len() == 0 {
        0
    } else {
        valor_cifras(s.drop_last()) * 10 + (s.last() - 48)
    }
}

/// Lo que acepta `i64::from_str` en un texto de pocas cifras: un signo `+` o
/// `-` opcional seguido de al menos una cifra.
pub open spec fn entero(s: Seq<u8>) -> Option<int> {
    if s.len() > 0 && (s[0] == 43u8 || s[0] == 45u8) {
        let resto = s.drop_first();
        if resto.len() > 0 && solo_cifras(resto) {
            Some(if s[0] == 45u8 { -valor_cifras(resto) } else { valor_cifras(resto) })
        } else {
            None
        }
    } else if s.len() > 0 && solo_cifras(s) {
        Some(valor_cifras(s))
    } else {
        None
    }
}

/// `str::get(i..j)` visto en bytes: existe si el rango cabe y sus dos extremos
/// caen en fronteras de carácter.
pub open spec fn trozo(b: Seq<u8>, i: int, j: int) -> Option<Seq<u8>> {
    if 0 <= i <= j && j <= b.len() && is_char_boundary(b, i) && is_char_boundary(b, j) {
        Some(b.subrange(i, j))
    } else {
        None
    }
}

/// `s.get(i..j)?.parse::<i64>().ok()`.
pub open spec fn campo(b: Seq<u8>, i: int, j: int) -> Option<int> {
    match trozo(b, i, j) {
        Some(t) => entero(t),
        None => None,
    }
}

/// `campo(..).unwrap_or(1)`.
pub open spec fn campo_o_uno(b: Seq<u8>, i: int, j: int) -> int {
    match campo(b, i, j) {
        Some(v) => v,
        None => 1,
    }
}

proof fn lema_valor_cifras_paso(s: Seq<u8>, k: int)
    requires
        0 <= k < s.len(),
    ensures
        valor_cifras(s.subrange(0, k + 1)) == valor_cifras(s.subrange(0, k)) * 10 + (s[k] - 48),
{
    assert(s.subrange(0, k + 1).drop_last() =~= s.subrange(0, k));
}

/// Lee `s.get(i..j)?.parse::<i64>().ok()` de un campo de a lo sumo 4 bytes.
fn leer_campo(s: &str, i: usize, j: usize) -> (r: Option<i64>)
    requires
        i <= j,
        j - i <= 4,
    ensures
        match r {
            Some(v) => campo(s.spec_bytes(), i as int, j as int) == Some(v as int),
            None => campo(s.spec_bytes(), i as int, j as int).is_none(),
        },
        r matches Some(v) ==> -999 <= v <= 9999,
{
    proof {
        vstd::utf8::encode_utf8_valid_utf8(s@);
    }
    let b = s.as_bytes();
    if j > b.len() || !s.is_char_boundary(i) || !s.is_char_boundary(j) {
        return None;
    }
    let ghost t = b@.subrange(i as int, j as int);
    assert(trozo(s.spec_bytes(), i as int, j as int) == Some(t));
    if i == j {
        return None;
    }
    let mut k = i;
    let negativo = b[i] == 45u8;
    if b[i] == 43u8 || b[i] == 45u8 {
        k = i + 1;
        if k == j {
            return None;
        }
    }
    let inicio = k;
    let ghost u = b@.subrange(inicio as int, j as int);
    let mut v: i64 = 0;
    while k < j
        invariant
            i < inicio <= k <= j || i == inicio <= k <= j,
            b@ == s.spec_bytes(),
            trozo(s.spec_bytes(), i as int, j as int) == Some(t),
            t == b@.subrange(i as int, j as int),
            inicio == i ==> !(b@[i as int] == 43u8 || b@[i as int] == 45u8),
            inicio > i ==> inicio == i + 1 && (b@[i as int] == 43u8 || b@[i as int] == 45u8),
            j <= b@.len(),
            j - inicio <= 4,
            u == b@.subrange(inicio as int, j as int),
            forall|m: int| inicio <= m < k ==> es_cifra(#[trigger] b@[m]),
            v == valor_cifras(u.subrange(0, k - inicio)),
            k - inicio == 0 ==> v == 0,
            k - inicio <= 1 ==> v < 10,
            k - inicio <= 2 ==> v < 100,
            k - inicio <= 3 ==> v < 1000,
            0 <= v < 10000,
        decreases j - k,
    {
        let c = b[k];
        if c < 48u8 || c > 57u8 {
            proof {
                assert(!es_cifra(u[k - inicio]));
                if inicio > i {
                    assert(t.drop_first() =~= u);
                } else {
                    assert(t =~= u);
                }
            }
            return None;
        }
        proof {
            lema_valor_cifras_paso(u, k - inicio);
        }
        v = v * 10 + (c - 48u8) as i64;
        k = k + 1;
    }
    proof {
        assert(u.subrange(0, u.len() as int) =~= u);
        assert(solo_cifras(u)) by {
            assert forall|m: int| 0 <= m < u.len() implies es_cifra(#[trigger] u[m]) by {
                assert(u[m] == b@[m + inicio]);
            }
        }
        if inicio > i {
            assert(t.drop_first() =~= u);
        } else {
            assert(t =~= u);
        }
        lema_valor_acotado(u);
    }
    if negativo {
        Some(-v)
    } else {
        Some(v)
    }
}

/// Índice absoluto del mes de una fecha: `año × 12 + mes`, si el año y el mes
/// se leen y el mes está entre 1 y 12.
pub open spec fn indice_mes(b: Seq<u8>) -> Option<int> {
    match (campo(b, 0, 4), campo(b, 5, 7)) {
        (Some(anio), Some(mes)) => if 1 <= mes <= 12 {
            Some(anio * 12 + mes)
        } else {
            None
        },
        _ => None,
    }
}

/// Meses calendario entre dos fechas: `indice(hasta) − indice(desde)`.
pub open spec fn meses_entre_spec(desde: Seq<u8>, hasta: Seq<u8>) -> Option<int> {
    match (indice_mes(hasta), indice_mes(desde)) {
        (Some(h), Some(d)) => Some(h - d),
        _ => None,
    }
}

fn indice_de(iso: &str) -> (r: Option<i64>)
    ensures
        match r {
            Some(v) => indice_mes(iso.spec_bytes()) == Some(v as int),
            None => indice_mes(iso.spec_bytes()).is_none(),
        },
        r matches Some(v) ==> -999 * 12 < v <= 9999 * 12 + 12,
{
    let anio = match leer_campo(iso, 0, 4) {
        Some(a) => a,
        None => return None,
    };
    let mes = match leer_campo(iso, 5, 7) {
        Some(m) => m,
        None => return None,
    };
    if mes < 1 || mes > 12 {
        return None;
    }
    Some(anio * 12 + mes)
}

/// Meses calendario transcurridos entre dos fechas ISO (`YYYY-MM-...`): cuenta
/// meses, no días.
pub fn meses_entre(desde: &str, hasta: &str) -> (r: Option<i64>)
    ensures
        match r {
            Some(v) => meses_entre_spec(desde.spec_bytes(), hasta.spec_bytes()) == Some(v as int),
            None => meses_entre_spec(desde.spec_bytes(), hasta.spec_bytes()).is_none(),
        },
{
    let h = match indice_de(hasta) {
        Some(h) => h,
        None => return None,
    };
    let d = match indice_de(desde) {
        Some(d) => d,
        None => return None,
    };
    Some(h - d)
}

/// El año y el mes de una fecha se leen, y el mes está entre 1 y 12.
pub open spec fn anio_y_mes_legibles(b: Seq<u8>) -> bool {
    campo(b, 0, 4) is Some && campo(b, 5, 7) is Some && 1 <= campo(b, 5, 7).unwrap() <= 12
}

/// Los meses entre dos fechas legibles son los años de diferencia por doce más
/// la diferencia de meses; si el año o el mes de alguna no se lee, o el mes no
/// está entre 1 y 12, no se cuentan.
pub proof fn ley_meses_entre(desde: Seq<u8>, hasta: Seq<u8>)
    ensures
        anio_y_mes_legibles(desde) && anio_y_mes_legibles(hasta) ==> meses_entre_spec(desde, hasta)
            == Some(
            (campo(hasta, 0, 4).unwrap() - campo(desde, 0, 4).unwrap()) * 12 + (campo(hasta, 5, 7).unwrap()
                - campo(desde, 5, 7).unwrap()),
        ),
        !(anio_y_mes_legibles(desde) && anio_y_mes_legibles(hasta)) ==> meses_entre_spec(desde, hasta) is None,
{
    let a1 = campo(desde, 0, 4);
    let a2 = campo(hasta, 0, 4);
    if a1 is Some && a2 is Some {
        assert((a2.unwrap() - a1.unwrap()) * 12 == a2.unwrap() * 12 - a1.unwrap() * 12) by (nonlinear_arith);
    }
}

/// Los meses entre dos fechas dependen sólo de su año y su mes, no del día: dos
/// fechas con el mismo año y el mismo mes dan la misma cuenta.
pub proof fn ley_meses_no_dependen_del_dia(a: Seq<u8>, a2: Seq<u8>, b: Seq<u8>)
    requires
        campo(a, 0, 4) == campo(a2, 0, 4),
        campo(a, 5, 7) == campo(a2, 5, 7),
    ensures
        meses_entre_spec(a, b) == meses_entre_spec(a2, b),
        meses_entre_spec(b, a) == meses_entre_spec(b, a2),
{
}

/// Contar de `hasta` a `desde` da los mismos meses con el signo cambiado.
pub proof fn ley_meses_antisimetrica(a: Seq<u8>, b: Seq<u8>)
    ensures
        meses_entre_spec(a, b) matches Some(m) ==> meses_entre_spec(b, a) == Some(-m),
        meses_entre_spec(a, b) is None ==> meses_entre_spec(b, a) is None,
{
}

/// `mes_de` existe cuando los primeros 7 bytes forman un trozo y el quinto es `-`.
pub open spec fn tiene_mes(b: Seq<u8>) -> bool {
    trozo(b, 0, 7).is_some() && b[4] == 45u8
}

/// Primer día del mes de una fecha: sus primeros 7 bytes (`YYYY-MM`) y `-01`.
pub open spec fn primer_dia(b: Seq<u8>) -> Seq<char> {
    decode_utf8(b.subrange(0, 7)) + seq!['-', '0', '1']
}

/// Primer día del mes de una fecha ISO: los primeros 7 bytes seguidos de `-01`.
pub fn mes_de(fecha_iso: &str) -> (r: Option<String>)
    ensures
        match r {
            Some(m) => tiene_mes(fecha_iso.spec_bytes()) && m@ == primer_dia(fecha_iso.spec_bytes()),
            None => !tiene_mes(fecha_iso.spec_bytes()),
        },
{
    proof {
        vstd::utf8::encode_utf8_valid_utf8(fecha_iso@);
    }
    let b = fecha_iso.as_bytes();
    if b.len() < 7 || !fecha_iso.is_char_boundary(7) {
        return None;
    }
    if b[4] != 45u8 {
        return None;
    }
    let (mes, _) = fecha_iso.split_at(7);
    let mut r = String::from_str(mes);
    proof {
        reveal_strlit("-01");
        vstd::utf8::encode_utf8_decode_utf8(mes@);
    }
    r.append("-01");
    Some(r)
}

/// Días de un mes del calendario gregoriano; un mes fuera de 1..=12 cuenta 30.
pub open spec fn dias_del_mes_spec(anio: int, mes: int) -> int {
    if mes == 1 || mes == 3 || mes == 5 || mes == 7 || mes == 8 || mes == 10 || mes == 12 {
        31
    } else if mes == 4 || mes == 6 || mes == 9 || mes == 11 {
        30
    } else if mes == 2 {
        if (anio % 4 == 0 && anio % 100 != 0) || anio % 400 == 0 {
            29
        } else {
            28
        }
    } else {
        30
    }
}

/// Año bisiesto del calendario gregoriano: divisible entre 4, salvo los
/// seculares que no lo son entre 400.
pub open spec fn es_bisiesto(anio: int) -> bool {
    anio % 4 == 0 && (anio % 100 != 0 || anio % 400 == 0)
}

/// Los meses del calendario gregoriano: abril, junio, septiembre y noviembre
/// tienen 30 días; febrero, 28 o 29 en los bisiestos; los demás, 31. Fuera de
/// febrero los meses alternan 31 y 30 hasta julio y de nuevo desde agosto:
/// `30 + (mes + mes / 8) % 2`.
pub proof fn ley_dias_del_mes(anio: int, mes: int)
    requires
        1 <= mes <= 12,
    ensures
        mes != 2 ==> dias_del_mes_spec(anio, mes) == 30 + (mes + mes / 8) % 2,
        mes == 2 ==> dias_del_mes_spec(anio, mes) == if es_bisiesto(anio) {
            29int
        } else {
            28int
        },
        (mes == 4 || mes == 6 || mes == 9 || mes == 11) <==> dias_del_mes_spec(anio, mes) == 30,
        28 <= dias_del_mes_spec(anio, mes) <= 31,
{
    if mes == 1 {
    } else if mes == 2 {
    } else if mes == 3 {
    } else if mes == 4 {
    } else if mes == 5 {
    } else if mes == 6 {
    } else if mes == 7 {
    } else if mes == 8 {
    } else if mes == 9 {
    } else if mes == 10 {
    } else if mes == 11 {
    } else {
    }
}

/// Los doce meses de un año suman 365 días, o 366 en un bisiesto.
pub proof fn ley_dias_del_anio(anio: int)
    ensures
        dias_del_mes_spec(anio, 1) + dias_del_mes_spec(anio, 2) + dias_del_mes_spec(anio, 3)
            + dias_del_mes_spec(anio, 4) + dias_del_mes_spec(anio, 5) + dias_del_mes_spec(anio, 6)
            + dias_del_mes_spec(anio, 7) + dias_del_mes_spec(anio, 8) + dias_del_mes_spec(anio, 9)
            + dias_del_mes_spec(anio, 10) + dias_del_mes_spec(anio, 11) + dias_del_mes_spec(anio, 12)
            == if es_bisiesto(anio) {
            366int
        } else {
            365int
        },
{
}

#[verifier::spinoff_prover]
#[verifier::rlimit(40)]
pub fn dias_del_mes(anio: i64, mes: i64) -> (r: i64)
    ensures
        r == dias_del_mes_spec(anio as int, mes as int),
{
    if mes == 1 || mes == 3 || mes == 5 || mes == 7 || mes == 8 || mes == 10 || mes == 12 {
        31
    } else if mes == 4 || mes == 6 || mes == 9 || mes == 11 {
        30
    } else if mes == 2 {
        if (anio % 4 == 0 && anio % 100 != 0) || anio % 400 == 0 {
            29
        } else {
            28
        }
    } else {
        30
    }
}

/// `YYYY-MM-DD` con el relleno de `format!("{:04}-{:02}-{:02}", ..)`.
pub open spec fn fecha_texto(anio: int, mes: int, dia: int) -> Seq<char> {
    con_relleno(anio, 4) + seq!['-'] + con_relleno(mes, 2) + seq!['-'] + con_relleno(dia, 2)
}

fn escribir_fecha(anio: i64, mes: i64, dia: i64) -> (r: String)
    ensures
        r@ == fecha_texto(anio as int, mes as int, dia as int),
{
    let mut r = con_ceros(anio, 4);
    proof {
        reveal_strlit("-");
    }
    r.append("-");
    let m = con_ceros(mes, 2);
    r.append(m.as_str());
    r.append("-");
    let d = con_ceros(dia, 2);
    r.append(d.as_str());
    r
}

/// Meses totales de la fecha desplazada `n` meses: `año × 12 + (mes − 1) + n`.
pub open spec fn meses_desplazados(b: Seq<u8>, n: int) -> int {
    campo_o_uno(b, 0, 4) * 12 + (campo_o_uno(b, 5, 7) - 1) + n
}

/// Suma `n` meses a una fecha: el año, el mes y el día que no se puedan leer
/// valen 1, y el día se recorta al último del mes destino.
pub open spec fn sumar_meses_spec(b: Seq<u8>, n: int) -> Seq<char> {
    let total = meses_desplazados(b, n);
    let anio = total / 12;
    let mes = total % 12 + 1;
    let maximo = dias_del_mes_spec(anio, mes);
    let dia = campo_o_uno(b, 8, 10);
    fecha_texto(anio, mes, if dia < maximo { dia } else { maximo })
}

/// Sumar `n` meses a una fecha da la fecha `YYYY-MM-DD` del mes que está `n`
/// meses después del de la fecha (contando meses como `año × 12 + mes − 1`),
/// con el mismo día si ese mes lo tiene y, si no, el último día del mes.
pub proof fn ley_sumar_meses(b: Seq<u8>, n: int)
    ensures
        exists|anio: int, mes: int|
            #![trigger fecha_texto(anio, mes, campo_o_uno(b, 8, 10))]
            #![trigger fecha_texto(anio, mes, dias_del_mes_spec(anio, mes))]
            {
                &&& 1 <= mes <= 12
                &&& anio * 12 + (mes - 1) == campo_o_uno(b, 0, 4) * 12 + (campo_o_uno(b, 5, 7) - 1) + n
                &&& campo_o_uno(b, 8, 10) <= dias_del_mes_spec(anio, mes) ==> sumar_meses_spec(b, n)
                    == fecha_texto(anio, mes, campo_o_uno(b, 8, 10))
                &&& campo_o_uno(b, 8, 10) > dias_del_mes_spec(anio, mes) ==> sumar_meses_spec(b, n)
                    == fecha_texto(anio, mes, dias_del_mes_spec(anio, mes))
            },
{
    let total = meses_desplazados(b, n);
    let anio = total / 12;
    let mes = total % 12 + 1;
    assert(anio * 12 + (mes - 1) == total) by (nonlinear_arith)
        requires
            anio == total / 12,
            mes == total % 12 + 1,
    ;
    assert(fecha_texto(anio, mes, campo_o_uno(b, 8, 10)) == fecha_texto(anio, mes, campo_o_uno(b, 8, 10)));
    assert(fecha_texto(anio, mes, dias_del_mes_spec(anio, mes)) == fecha_texto(
        anio,
        mes,
        dias_del_mes_spec(anio, mes),
    ));
}

/// Cada vencimiento cae un mes calendario después del anterior: el índice de mes
/// (`año × 12 + mes`) de la fecha desplazada `n + 1` meses es el de la desplazada
/// `n` meses más uno.
pub proof fn ley_vencimientos_consecutivos(b: Seq<u8>, n: int)
    ensures
        ({
            let t = meses_desplazados(b, n);
            let u = meses_desplazados(b, n + 1);
            (u / 12) * 12 + (u % 12 + 1) == (t / 12) * 12 + (t % 12 + 1) + 1
        }),
{
    let t = meses_desplazados(b, n);
    assert(meses_desplazados(b, n + 1) == t + 1);
    assert((t / 12) * 12 + t % 12 == t) by (nonlinear_arith);
    assert(((t + 1) / 12) * 12 + (t + 1) % 12 == t + 1) by (nonlinear_arith);
}

/// El vencimiento desplazado cae en un mes de 1 a 12, en un día que no pasa del
/// último de ese mes.
pub proof fn ley_vencimiento_en_el_mes(b: Seq<u8>, n: int)
    ensures
        ({
            let total = meses_desplazados(b, n);
            let mes = total % 12 + 1;
            let dia = campo_o_uno(b, 8, 10);
            let maximo = dias_del_mes_spec(total / 12, mes);
            &&& 1 <= mes <= 12
            &&& (if dia < maximo { dia } else { maximo }) <= maximo
            &&& 28 <= maximo <= 31
        }),
{
}

fn campo_o_uno_de(s: &str, i: usize, j: usize) -> (r: i64)
    requires
        i <= j,
        j - i <= 4,
    ensures
        r == campo_o_uno(s.spec_bytes(), i as int, j as int),
        -999 <= r <= 9999,
{
    match leer_campo(s, i, j) {
        Some(v) => {
            proof {
                lema_campo_acotado(s.spec_bytes(), i as int, j as int);
            }
            v
        },
        None => 1,
    }
}

proof fn lema_valor_acotado(s: Seq<u8>)
    requires
        solo_cifras(s),
    ensures
        0 <= valor_cifras(s),
        s.len() <= 4 ==> valor_cifras(s) <= 9999,
        s.len() <= 3 ==> valor_cifras(s) <= 999,
        s.len() <= 2 ==> valor_cifras(s) <= 99,
        s.len() <= 1 ==> valor_cifras(s) <= 9,
    decreases s.len(),
{
    if s.len() > 0 {
        let t = s.drop_last();
        assert(solo_cifras(t)) by {
            assert forall|i: int| 0 <= i < t.len() implies es_cifra(#[trigger] t[i]) by {
                assert(t[i] == s[i]);
            }
        }
        assert(es_cifra(s[s.len() - 1]));
        lema_valor_acotado(t);
    }
}

proof fn lema_campo_acotado(b: Seq<u8>, i: int, j: int)
    requires
        0 <= j - i <= 4,
        campo(b, i, j).is_some(),
    ensures
        -999 <= campo(b, i, j).unwrap() <= 9999,
{
    let t = trozo(b, i, j).unwrap();
    if t[0] == 43u8 || t[0] == 45u8 {
        lema_valor_acotado(t.drop_first());
    } else {
        lema_valor_acotado(t);
    }
}

/// Suma `n` meses a una fecha ISO, recortando el día al máximo del mes destino.
pub fn sumar_meses(fecha: &str, n: i64) -> (r: String)
    requires
        i64::MIN <= meses_desplazados(fecha.spec_bytes(), n as int) <= i64::MAX,
    ensures
        r@ == sumar_meses_spec(fecha.spec_bytes(), n as int),
{
    let anio = campo_o_uno_de(fecha, 0, 4);
    let mes = campo_o_uno_de(fecha, 5, 7);
    let dia = campo_o_uno_de(fecha, 8, 10);
    let total = anio * 12 + (mes - 1) + n;
    let nuevo_anio = match total.checked_div_euclid(12) {
        Some(q) => q,
        None => 0,
    };
    let nuevo_mes = match total.checked_rem_euclid(12) {
        Some(m) => m + 1,
        None => 1,
    };
    let max_dia = dias_del_mes(nuevo_anio, nuevo_mes);
    let nuevo_dia = if dia < max_dia { dia } else { max_dia };
    escribir_fecha(nuevo_anio, nuevo_mes, nuevo_dia)
}

/// Suma un mes a una fecha ISO conservando el día, recortado al último del mes
/// destino: es la suma de `n` meses con `n = 1`.
pub open spec fn sumar_un_mes_spec(b: Seq<u8>) -> Seq<char> {
    sumar_meses_spec(b, 1)
}

pub fn sumar_un_mes(fecha: &str) -> (r: String)
    ensures
        r@ == sumar_un_mes_spec(fecha.spec_bytes()),
{
    proof {
        let b = fecha.spec_bytes();
        if campo(b, 0, 4).is_some() {
            lema_campo_acotado(b, 0, 4);
        }
        if campo(b, 5, 7).is_some() {
            lema_campo_acotado(b, 5, 7);
        }
    }
    sumar_meses(fecha, 1)
}

/// Valor decimal de una secuencia de caracteres cifra.
pub open spec fn valor_de_caracteres(s: Seq<char>) -> int
    decreases s.len(),
{
    if s.len() == 0 {
        0
    } else {
        valor_de_caracteres(s.drop_last()) * 10 + (s.last() as int - 48)
    }
}

pub open spec fn caracter_cifra(c: char) -> bool {
    '0' <= c <= '9'
}

proof fn lema_cifra(d: int)
    requires
        0 <= d <= 9,
    ensures
        cifra(d) as int == d + 48,
        caracter_cifra(cifra(d)),
{
    if d == 0 {
    } else if d == 1 {
    } else if d == 2 {
    } else if d == 3 {
    } else if d == 4 {
    } else if d == 5 {
    } else if d == 6 {
    } else if d == 7 {
    } else if d == 8 {
    } else {
    }
}

proof fn lema_decimal(n: nat)
    ensures
        decimal(n).len() >= 1,
        forall|k: int| 0 <= k < decimal(n).len() ==> caracter_cifra(#[trigger] decimal(n)[k]),
        valor_de_caracteres(decimal(n)) == n,
        n > 0 ==> decimal(n)[0] != '0',
    decreases n,
{
    if n < 10 {
        let t = decimal(n);
        lema_cifra(n as int);
        assert(t.drop_last() =~= Seq::<char>::empty());
        assert(valor_de_caracteres(t.drop_last()) == 0);
        assert(t.last() == cifra(n as int));
        assert(valor_de_caracteres(t) == valor_de_caracteres(t.drop_last()) * 10 + (t.last() as int - 48));
    } else {
        let q = (n / 10) as nat;
        lema_cifra((n % 10) as int);
        lema_decimal(q);
        let t = decimal(n);
        assert(t.drop_last() =~= decimal(q));
        assert(t.last() == cifra((n % 10) as int));
        assert(valor_de_caracteres(t) == valor_de_caracteres(decimal(q)) * 10 + (t.last() as int - 48));
        assert(t[0] == decimal(q)[0]);
        assert forall|k: int| 0 <= k < t.len() implies caracter_cifra(#[trigger] t[k]) by {
            if k < t.len() - 1 {
                assert(t[k] == decimal(q)[k]);
            }
        }
        assert(q * 10 + n % 10 == n) by (nonlinear_arith)
            requires
                q == n / 10,
        ;
    }
}

proof fn lema_ceros_delante(z: Seq<char>, s: Seq<char>)
    requires
        forall|k: int| 0 <= k < z.len() ==> #[trigger] z[k] == '0',
    ensures
        valor_de_caracteres(z + s) == valor_de_caracteres(s),
    decreases z.len() + s.len(),
{
    if s.len() > 0 {
        lema_ceros_delante(z, s.drop_last());
        assert((z + s).drop_last() =~= z + s.drop_last());
    } else if z.len() > 0 {
        lema_ceros_delante(z.drop_last(), s);
        assert(z + s =~= z);
        assert(z.drop_last() + s =~= z.drop_last());
    } else {
        assert(z + s =~= s);
    }
}

/// Un entero no negativo escrito con relleno a `w` posiciones se lee de vuelta:
/// son sólo cifras, al menos `w` y al menos una, cuyo valor decimal es el
/// entero; sólo hay ceros a la izquierda cuando hacen falta para llegar a `w`.
pub proof fn ley_relleno_se_lee(v: int, w: int)
    requires
        0 <= v,
    ensures
        ({
            let t = con_relleno(v, w);
            &&& t.len() >= w && t.len() >= 1
            &&& forall|k: int| 0 <= k < t.len() ==> caracter_cifra(#[trigger] t[k])
            &&& valor_de_caracteres(t) == v
            &&& t.len() > w && v > 0 ==> t[0] != '0'
        }),
{
    let d = decimal(v as nat);
    lema_decimal(v as nat);
    let z = ceros(w - d.len());
    let t = con_relleno(v, w);
    assert(t =~= z + d);
    lema_ceros_delante(z, d);
    assert forall|k: int| 0 <= k < t.len() implies caracter_cifra(#[trigger] t[k]) by {
        if k < z.len() {
            assert(t[k] == z[k]);
        } else {
            assert(t[k] == d[k - z.len()]);
        }
    }
    if t.len() > w {
        assert(z.len() == 0);
        assert(t[0] == d[0]);
    }
}

/// Lo que escribe `format("%Y-%m-%d")` de un día a partir de 1970: el año con
/// al menos cuatro cifras (desde 10000 precedido de `+`), un guion, el mes en
/// dos cifras de 01 a 12, un guion y el día en dos cifras, que existe en ese
/// mes de ese año.
pub open spec fn fecha_de_reloj(s: Seq<char>) -> bool {
    let n = s.len() as int;
    let cifras_del_anio = if n > 0 && s[0] == '+' { s.subrange(1, n - 6) } else { s.subrange(0, n - 6) };
    let anio = valor_de_caracteres(cifras_del_anio);
    let mes = valor_de_caracteres(s.subrange(n - 5, n - 3));
    let dia = valor_de_caracteres(s.subrange(n - 2, n));
    &&& n >= 10
    &&& s[n - 6] == '-' && s[n - 3] == '-'
    &&& cifras_del_anio.len() >= 4
    &&& forall|i: int| 0 <= i < cifras_del_anio.len() ==> caracter_cifra(#[trigger] cifras_del_anio[i])
    &&& caracter_cifra(s[n - 5]) && caracter_cifra(s[n - 4])
    &&& caracter_cifra(s[n - 2]) && caracter_cifra(s[n - 1])
    &&& anio >= 1970
    &&& 1 <= mes <= 12
    &&& 1 <= dia <= dias_del_mes_spec(anio, mes)
}

/// Envoltorio de `SystemTime::now().duration_since(UNIX_EPOCH)` (std): los
/// segundos y nanosegundos transcurridos desde la época Unix según el reloj del
/// sistema, o `None` si el reloj marca una hora anterior a la época. Qué
/// instante es depende del reloj; el contrato solo afirma lo que la
/// documentación de `Duration::subsec_nanos` promete: la parte fraccionaria es
/// menor que mil millones.
#[verifier::external_body]
fn instante_actual() -> (r: Option<(u64, u32)>)
    ensures
        r matches Some((_, n)) ==> n < 1_000_000_000,
{
    match std::time::SystemTime::now().duration_since(std::time::UNIX_EPOCH) {
        Ok(d) => Some((d.as_secs(), d.subsec_nanos())),
        Err(_) => None,
    }
}

/// La fecha que `chrono` da a un instante Unix con `format("%Y-%m-%d")`.
pub uninterp spec fn fecha_del_instante(segundos: int, nanos: int) -> Option<Seq<char>>;

/// Envoltorio de `chrono::DateTime::from_timestamp` seguido de
/// `format("%Y-%m-%d")`: la fecha UTC de un instante Unix, o `None` si el
/// instante cae fuera del rango de `chrono` o los nanosegundos no son válidos.
/// El resultado se nombra con [`fecha_del_instante`]. De la fuente de chrono
/// 0.4.45 se afirma además: hasta el último segundo del año 9999, con
/// nanosegundos menores que mil millones, hay fecha; y para un instante desde
/// 1970 la fecha tiene la forma de [`fecha_de_reloj`] (`%Y` escribe cuatro
/// cifras hasta 9999 y un `+` delante desde 10000; `%m` y `%d`, dos cifras).
#[verifier::external_body]
fn fecha_de_instante(segundos: i64, nanos: u32) -> (r: Option<String>)
    ensures
        match r {
            Some(s) => fecha_del_instante(segundos as int, nanos as int) == Some(s@),
            None => fecha_del_instante(segundos as int, nanos as int) is None,
        },
        0 <= segundos <= 253_402_300_799 && nanos < 1_000_000_000 ==> r is Some,
        segundos >= 0 ==> (r matches Some(s) ==> fecha_de_reloj(s@)),
{
    match chrono::DateTime::from_timestamp(segundos, nanos) {
        Some(d) => Some(d.format("%Y-%m-%d").to_string()),
        None => None,
    }
}

/// La fecha UTC (`YYYY-MM-DD`) de un instante dado en segundos y nanosegundos
/// desde la época Unix, o `None` si `chrono` no le da fecha.
pub fn fecha_utc(segundos: u64, nanos: u32) -> (r: Option<String>)
    ensures
        match r {
            Some(s) => segundos <= i64::MAX && fecha_del_instante(segundos as int, nanos as int) == Some(
                s@,
            ) && fecha_de_reloj(s@),
            None => segundos > i64::MAX || fecha_del_instante(segundos as int, nanos as int) is None,
        },
        segundos <= 253_402_300_799 && nanos < 1_000_000_000 ==> r is Some,
{
    if segundos <= 9_223_372_036_854_775_807u64 {
        fecha_de_instante(segundos as i64, nanos)
    } else {
        None
    }
}

/// La fecha UTC de hoy según el reloj del sistema, o `None` si el reloj no da
/// una fecha (anterior a la época Unix o fuera del rango de fechas).
fn hoy() -> (r: Option<String>)
    ensures
        r matches Some(s) ==> fecha_de_reloj(s@),
{
    match instante_actual() {
        Some((segundos, nanos)) => fecha_utc(segundos, nanos),
        None => None,
    }
}

/// Una fecha ISO válida: 10 bytes `YYYY-MM-DD`, cifras fuera de los dos
/// guiones, un mes de 01 a 12 y un día que existe en ese mes de ese año.
pub open spec fn fecha_iso_valida(b: Seq<u8>) -> bool {
    let anio = valor_cifras(b.subrange(0, 4));
    let mes = valor_cifras(b.subrange(5, 7));
    let dia = valor_cifras(b.subrange(8, 10));
    &&& b.len() == 10
    &&& b[4] == 45u8 && b[7] == 45u8
    &&& solo_cifras(b.subrange(0, 4))
    &&& solo_cifras(b.subrange(5, 7))
    &&& solo_cifras(b.subrange(8, 10))
    &&& 1 <= mes <= 12
    &&& 1 <= dia <= dias_del_mes_spec(anio, mes)
}

/// Lee las cifras de `b[i..j]`, si todas lo son.
fn leer_cifras(b: &[u8], i: usize, j: usize) -> (r: Option<i64>)
    requires
        i <= j <= b@.len(),
        j - i <= 4,
    ensures
        r.is_some() == solo_cifras(b@.subrange(i as int, j as int)),
        r matches Some(v) ==> v == valor_cifras(b@.subrange(i as int, j as int)),
{
    let ghost u = b@.subrange(i as int, j as int);
    let mut k = i;
    let mut v: i64 = 0;
    while k < j
        invariant
            i <= k <= j <= b@.len(),
            j - i <= 4,
            u == b@.subrange(i as int, j as int),
            forall|m: int| i <= m < k ==> es_cifra(#[trigger] b@[m]),
            v == valor_cifras(u.subrange(0, k - i)),
            k - i == 0 ==> v == 0,
            k - i <= 1 ==> v < 10,
            k - i <= 2 ==> v < 100,
            k - i <= 3 ==> v < 1000,
            0 <= v < 10000,
        decreases j - k,
    {
        let c = b[k];
        if c < 48u8 || c > 57u8 {
            proof {
                assert(!es_cifra(u[k - i]));
            }
            return None;
        }
        proof {
            lema_valor_cifras_paso(u, k - i);
        }
        v = v * 10 + (c - 48u8) as i64;
        k = k + 1;
    }
    proof {
        assert(u.subrange(0, u.len() as int) =~= u);
        assert forall|m: int| 0 <= m < u.len() implies es_cifra(#[trigger] u[m]) by {
            assert(u[m] == b@[m + i]);
        }
    }
    Some(v)
}

/// Decide si unos bytes forman una fecha ISO válida.
pub fn es_fecha_iso(b: &[u8]) -> (r: bool)
    ensures
        r == fecha_iso_valida(b@),
{
    if b.len() != 10 || b[4] != 45u8 || b[7] != 45u8 {
        return false;
    }
    let anio = leer_cifras(b, 0, 4);
    let mes = leer_cifras(b, 5, 7);
    let dia = leer_cifras(b, 8, 10);
    match (anio, mes, dia) {
        (Some(a), Some(m), Some(d)) => 1 <= m && m <= 12 && 1 <= d && d <= dias_del_mes(a, m),
        _ => false,
    }
}

/// Mensaje de una fecha rechazada.
pub open spec fn mensaje_fecha_invalida(f: Seq<char>) -> Seq<char> {
    "La fecha «"@ + f + "» no es válida: use YYYY-MM-DD"@
}

/// Mensaje cuando el reloj del sistema no da la fecha de hoy.
pub open spec fn mensaje_sin_reloj() -> Seq<char> {
    "No se pudo leer la fecha de hoy del reloj del sistema"@
}

/// Fecha de un desembolso: la dada (recortada) o, si no se dio, la de hoy.
/// Exige una fecha ISO `YYYY-MM-DD` válida.
pub fn fecha_o_hoy(fecha: Option<&str>) -> (r: Result<String, ErrorNegocio>)
    ensures
        ({
            let dada: Seq<char> = match fecha {
                Some(f) => f@,
                None => Seq::empty(),
            };
            let f = recorte(dada);
            if f.len() == 0 {
                ||| r matches Ok(s) && fecha_de_reloj(s@)
                ||| r matches Err(ErrorNegocio::OperacionNoPermitida(m)) && m@ == mensaje_sin_reloj()
            } else if fecha_iso_valida(encode_utf8(f)) {
                r matches Ok(s) && s@ == f
            } else {
                r matches Err(ErrorNegocio::OperacionNoPermitida(m)) && m@ == mensaje_fecha_invalida(f)
            }
        }),
{
    let f = match fecha {
        Some(t) => recortar(t),
        None => {
            proof {
                reveal_strlit("");
            }
            recortar("")
        },
    };
    if f.as_str().is_empty() {
        return match hoy() {
            Some(h) => Ok(h),
            None => {
                proof {
                    reveal_strlit("No se pudo leer la fecha de hoy del reloj del sistema");
                }
                Err(
                    ErrorNegocio::OperacionNoPermitida(
                        String::from_str("No se pudo leer la fecha de hoy del reloj del sistema"),
                    ),
                )
            },
        };
    }
    let b = f.as_str().as_bytes();
    if es_fecha_iso(b) {
        Ok(f)
    } else {
        proof {
            reveal_strlit("La fecha «");
            reveal_strlit("» no es válida: use YYYY-MM-DD");
        }
        let mut m = String::from_str("La fecha «");
        m.append(f.as_str());
        m.append("» no es válida: use YYYY-MM-DD");
        Err(ErrorNegocio::OperacionNoPermitida(m))
    }
}

} // verus!
