//! Acciones: control mes a mes de las acciones de un socio (RF-105), mes de
//! compra de un lote (RN-10) y período de gracia del tope de participación
//! (RN-02).

use vstd::prelude::*;
use vstd::string::StringSliceAdditionalSpecFns;
use vstd::utf8::encode_utf8;

use crate::error::ErrorNegocio;
use crate::fechas::{mes_de, meses_entre, meses_entre_spec, primer_dia, tiene_mes};
use crate::texto::{posicion_de_texto, recortar, recorte, vistas_textos};

verus! {

/// RN-02: el tope de participación aplica a partir del tercer mes de operaciones.
pub const MESES_GRACIA_TOPE_PARTICIPACION: i64 = 3;

/// Meses cerrados que promedia el PPCFC (RN-09).
pub const MESES_PPCFC: usize = 3;

/// Una fila del Control de Acciones por Socio, mes a mes (RF-105).
#[derive(Debug, Clone, PartialEq)]
pub struct ResumenMesAcciones {
    pub mes: String,
    pub compradas: i64,
    pub liquidadas: i64,
    /// Acciones acumuladas del socio al cierre de ese mes.
    pub saldo: i64,
}

/// Acciones vigentes de un socio, para el listado de socios.
#[derive(Debug, Clone, PartialEq)]
pub struct AccionesDeSocioDto {
    pub socio_id: String,
    pub acciones: i64,
}

/// Un lote visto por el historial: su mes de compra, su cantidad y si ya se
/// liquidó.
pub type VistaLote = (Seq<char>, int, bool);

pub open spec fn vistas_lotes(s: Seq<(String, i64, bool)>) -> Seq<VistaLote> {
    s.map_values(|l: (String, i64, bool)| (l.0@, l.1 as int, l.2))
}

/// Meses de compra de los lotes, sin repetir, en el orden en que aparecen.
pub open spec fn meses(l: Seq<VistaLote>) -> Seq<Seq<char>>
    decreases l.len(),
{
    if l.len() == 0 {
        Seq::empty()
    } else {
        let previos = meses(l.drop_last());
        if previos.contains(l.last().0) {
            previos
        } else {
            previos.push(l.last().0)
        }
    }
}

/// Acciones del lote.
pub open spec fn compradas() -> spec_fn(VistaLote) -> int {
    |x: VistaLote| x.1
}

/// Acciones del lote si se liquidó.
pub open spec fn liquidadas() -> spec_fn(VistaLote) -> int {
    |x: VistaLote| if x.2 { x.1 } else { 0 }
}

/// Acciones del lote que siguen vigentes.
pub open spec fn vigentes() -> spec_fn(VistaLote) -> int {
    |x: VistaLote| if x.2 { 0 } else { x.1 }
}

/// Suma de `g` sobre los lotes comprados en el mes `m`.
pub open spec fn suma_del_mes(l: Seq<VistaLote>, m: Seq<char>, g: spec_fn(VistaLote) -> int) -> int
    decreases l.len(),
{
    if l.len() == 0 {
        0
    } else {
        suma_del_mes(l.drop_last(), m, g) + if l.last().0 == m {
            g(l.last())
        } else {
            0
        }
    }
}

/// Suma de `g` sobre todos los lotes.
pub open spec fn total(l: Seq<VistaLote>, g: spec_fn(VistaLote) -> int) -> int
    decreases l.len(),
{
    if l.len() == 0 {
        0
    } else {
        total(l.drop_last(), g) + g(l.last())
    }
}

/// Suma de `g` sobre los lotes cuyo mes está en `ms`.
pub open spec fn total_en(l: Seq<VistaLote>, ms: Seq<Seq<char>>, g: spec_fn(VistaLote) -> int) -> int
    decreases l.len(),
{
    if l.len() == 0 {
        0
    } else {
        total_en(l.drop_last(), ms, g) + if ms.contains(l.last().0) {
            g(l.last())
        } else {
            0
        }
    }
}

/// Suma, mes a mes sobre `ms`, de `g` en los lotes de cada mes.
pub open spec fn por_meses(l: Seq<VistaLote>, ms: Seq<Seq<char>>, g: spec_fn(VistaLote) -> int) -> int
    decreases ms.len(),
{
    if ms.len() == 0 {
        0
    } else {
        por_meses(l, ms.drop_last(), g) + suma_del_mes(l, ms.last(), g)
    }
}

/// Saldo al cierre del `k`-ésimo mes del historial (contando desde 0): las
/// acciones vigentes de los meses hasta él.
pub open spec fn saldo_al_mes(l: Seq<VistaLote>, k: int) -> int {
    por_meses(l, meses(l).take(k + 1), vigentes())
}

proof fn lema_por_meses_agrega_lote(l: Seq<VistaLote>, x: VistaLote, ms: Seq<Seq<char>>, g: spec_fn(VistaLote) -> int)
    requires
        ms.no_duplicates(),
    ensures
        por_meses(l.push(x), ms, g) == por_meses(l, ms, g) + if ms.contains(x.0) {
            g(x)
        } else {
            0
        },
    decreases ms.len(),
{
    assert(l.push(x).drop_last() =~= l);
    if ms.len() > 0 {
        let previos = ms.drop_last();
        assert(previos.no_duplicates());
        lema_por_meses_agrega_lote(l, x, previos, g);
        if ms.contains(x.0) {
            let j = choose|j: int| 0 <= j < ms.len() && ms[j] == x.0;
            if j < ms.len() - 1 {
                assert(previos[j] == x.0);
                assert(ms.last() != x.0);
            } else {
                assert(!previos.contains(x.0)) by {
                    if previos.contains(x.0) {
                        let k = choose|k: int| 0 <= k < previos.len() && previos[k] == x.0;
                        assert(ms[k] == ms[ms.len() - 1]);
                    }
                }
            }
        } else {
            assert(!previos.contains(x.0)) by {
                if previos.contains(x.0) {
                    let k = choose|k: int| 0 <= k < previos.len() && previos[k] == x.0;
                    assert(ms[k] == x.0);
                }
            }
            assert(ms.last() != x.0) by {
                if ms.last() == x.0 {
                    assert(ms[ms.len() - 1] == x.0);
                }
            }
        }
    }
}

proof fn lema_por_meses_sin_lotes(ms: Seq<Seq<char>>, g: spec_fn(VistaLote) -> int)
    ensures
        por_meses(Seq::empty(), ms, g) == 0,
    decreases ms.len(),
{
    if ms.len() > 0 {
        lema_por_meses_sin_lotes(ms.drop_last(), g);
    }
}

/// Sumar mes a mes sobre meses distintos es sumar sobre los lotes de esos meses.
proof fn lema_particion(l: Seq<VistaLote>, ms: Seq<Seq<char>>, g: spec_fn(VistaLote) -> int)
    requires
        ms.no_duplicates(),
    ensures
        por_meses(l, ms, g) == total_en(l, ms, g),
    decreases l.len(),
{
    if l.len() == 0 {
        lema_por_meses_sin_lotes(ms, g);
        assert(l =~= Seq::<VistaLote>::empty());
    } else {
        let previos = l.drop_last();
        lema_particion(previos, ms, g);
        lema_por_meses_agrega_lote(previos, l.last(), ms, g);
        assert(previos.push(l.last()) =~= l);
    }
}

/// El historial agrupa por mes: sus meses no se repiten, el mes de compra de
/// cada lote está entre ellos y cada uno es el mes de algún lote.
pub proof fn ley_meses_del_historial(l: Seq<VistaLote>)
    ensures
        meses(l).no_duplicates(),
        forall|i: int| 0 <= i < l.len() ==> meses(l).contains(#[trigger] l[i].0),
        forall|m: Seq<char>| meses(l).contains(m) ==> exists|i: int| 0 <= i < l.len() && #[trigger] l[i].0 == m,
    decreases l.len(),
{
    if l.len() > 0 {
        let previos = l.drop_last();
        ley_meses_del_historial(previos);
        assert forall|i: int| 0 <= i < l.len() implies meses(l).contains(#[trigger] l[i].0) by {
            if i < l.len() - 1 {
                assert(previos[i] == l[i]);
                assert(meses(previos).contains(previos[i].0));
                let k = choose|k: int| 0 <= k < meses(previos).len() && meses(previos)[k] == previos[i].0;
                if !meses(previos).contains(l.last().0) {
                    assert(meses(l)[k] == meses(previos)[k]);
                }
            } else {
                if !meses(previos).contains(l.last().0) {
                    assert(meses(l)[meses(l).len() - 1] == l.last().0);
                }
            }
        }
        assert forall|m: Seq<char>| meses(l).contains(m) implies exists|i: int| 0 <= i < l.len() && #[trigger] l[i].0 == m by {
            let k = choose|k: int| 0 <= k < meses(l).len() && meses(l)[k] == m;
            if k < meses(previos).len() {
                assert(meses(previos)[k] == m);
                assert(meses(previos).contains(m));
                let i = choose|i: int| 0 <= i < previos.len() && #[trigger] previos[i].0 == m;
                assert(l[i] == previos[i]);
            } else {
                assert(l[l.len() - 1].0 == m);
            }
        }
    }
}

/// Si todos los meses de los lotes están en `ms`, sumar sobre esos meses es sumar
/// sobre todos los lotes.
proof fn lema_total_en_todos(l: Seq<VistaLote>, ms: Seq<Seq<char>>, g: spec_fn(VistaLote) -> int)
    requires
        forall|i: int| 0 <= i < l.len() ==> ms.contains(#[trigger] l[i].0),
    ensures
        total_en(l, ms, g) == total(l, g),
    decreases l.len(),
{
    if l.len() > 0 {
        let previos = l.drop_last();
        assert forall|i: int| 0 <= i < previos.len() implies ms.contains(#[trigger] previos[i].0) by {
            assert(previos[i] == l[i]);
        }
        lema_total_en_todos(previos, ms, g);
        assert(ms.contains(l[l.len() - 1].0));
    }
}

/// Un mes que no es de ningún lote no suma nada.
proof fn lema_mes_ausente(l: Seq<VistaLote>, m: Seq<char>, g: spec_fn(VistaLote) -> int)
    requires
        forall|i: int| 0 <= i < l.len() ==> #[trigger] l[i].0 != m,
    ensures
        suma_del_mes(l, m, g) == 0,
    decreases l.len(),
{
    if l.len() > 0 {
        let previos = l.drop_last();
        assert forall|i: int| 0 <= i < previos.len() implies #[trigger] previos[i].0 != m by {
            assert(previos[i] == l[i]);
        }
        lema_mes_ausente(previos, m, g);
        assert(l[l.len() - 1].0 != m);
    }
}

/// Lo vigente de un mes es lo comprado menos lo liquidado en él.
proof fn lema_vigentes_del_mes(l: Seq<VistaLote>, m: Seq<char>)
    ensures
        suma_del_mes(l, m, compradas()) - suma_del_mes(l, m, liquidadas()) == suma_del_mes(
            l,
            m,
            vigentes(),
        ),
    decreases l.len(),
{
    if l.len() > 0 {
        lema_vigentes_del_mes(l.drop_last(), m);
    }
}

/// El saldo del último mes del historial son las acciones vigentes del socio: lo
/// comprado menos lo liquidado en todos sus lotes.
pub proof fn ley_saldo_final_son_las_vigentes(l: Seq<VistaLote>)
    requires
        meses(l).len() > 0,
    ensures
        saldo_al_mes(l, meses(l).len() - 1) == total(l, vigentes()),
{
    ley_meses_del_historial(l);
    assert(meses(l).take(meses(l).len() as int) =~= meses(l));
    lema_particion(l, meses(l), vigentes());
    lema_total_en_todos(l, meses(l), vigentes());
}

/// El saldo de cada mes es el del mes anterior más lo comprado y menos lo
/// liquidado en ese mes.
pub proof fn ley_saldo_acumulado(l: Seq<VistaLote>, k: int)
    requires
        0 < k < meses(l).len(),
    ensures
        saldo_al_mes(l, k) == saldo_al_mes(l, k - 1) + suma_del_mes(l, meses(l)[k], compradas())
            - suma_del_mes(l, meses(l)[k], liquidadas()),
{
    assert(meses(l).take(k + 1).drop_last() =~= meses(l).take(k));
    lema_vigentes_del_mes(l, meses(l)[k]);
}

/// Que un entero quepa en `i64`.
pub open spec fn cabe_en_i64(x: int) -> bool {
    i64::MIN <= x <= i64::MAX
}

/// Al sumar el lote `i` a su mes, lo comprado (y, si se liquidó, lo liquidado)
/// en ese mes hasta ese lote cabe en `i64`.
pub open spec fn paso_sin_desborde(l: Seq<VistaLote>, i: int) -> bool {
    &&& cabe_en_i64(suma_del_mes(l.take(i + 1), l[i].0, compradas()))
    &&& l[i].2 ==> cabe_en_i64(suma_del_mes(l.take(i + 1), l[i].0, liquidadas()))
}

/// Lo comprado menos lo liquidado en el mes `k` del historial, y el saldo al
/// cierre de ese mes, caben en `i64`.
pub open spec fn mes_sin_desborde(l: Seq<VistaLote>, k: int) -> bool {
    &&& cabe_en_i64(suma_del_mes(l, meses(l)[k], vigentes()))
    &&& cabe_en_i64(saldo_al_mes(l, k))
}

/// Ninguna de las sumas del historial se sale de `i64`: ni lo acumulado en
/// cada mes lote a lote, ni lo comprado menos lo liquidado de cada mes, ni el
/// saldo al cierre de cada mes.
pub open spec fn historial_cabe(l: Seq<VistaLote>) -> bool {
    &&& forall|i: int| 0 <= i < l.len() ==> #[trigger] paso_sin_desborde(l, i)
    &&& forall|k: int| 0 <= k < meses(l).len() ==> #[trigger] mes_sin_desborde(l, k)
}

/// `r` es el Control de Acciones de los lotes `l`: una fila por mes, en el orden
/// en que aparecen, con lo comprado, lo liquidado y el saldo al cierre.
pub open spec fn es_historial_de(r: Seq<ResumenMesAcciones>, l: Seq<VistaLote>) -> bool {
    &&& r.len() == meses(l).len()
    &&& forall|k: int|
        #![trigger r[k]]
        0 <= k < r.len() ==> {
            let m = meses(l)[k];
            &&& r[k].mes@ == m
            &&& r[k].compradas == suma_del_mes(l, m, compradas())
            &&& r[k].liquidadas == suma_del_mes(l, m, liquidadas())
            &&& r[k].saldo == saldo_al_mes(l, k)
        }
}

/// RF-105: Control de Acciones del socio, mes a mes. Cada lote es su mes de
/// compra, su cantidad y si se liquidó; vienen en orden cronológico. Los meses
/// salen en el orden en que aparecen, con lo comprado, lo liquidado y el saldo
/// acumulado al cierre de cada uno.
pub fn historial(lotes: &Vec<(String, i64, bool)>) -> (r: Vec<ResumenMesAcciones>)
    requires
        historial_cabe(vistas_lotes(lotes@)),
    ensures
        es_historial_de(r@, vistas_lotes(lotes@)),
{
    match historial_comprobado(lotes) {
        Some(r) => r,
        None => Vec::new(),
    }
}

/// El Control de Acciones de [`historial`], o `None` si alguna de sus sumas se
/// saldría de `i64`.
pub fn historial_comprobado(lotes: &Vec<(String, i64, bool)>) -> (r: Option<Vec<ResumenMesAcciones>>)
    ensures
        r is Some <==> historial_cabe(vistas_lotes(lotes@)),
        r matches Some(v) ==> es_historial_de(v@, vistas_lotes(lotes@)),
{
    let ghost l = vistas_lotes(lotes@);
    let mut meses_v: Vec<String> = Vec::new();
    let mut compradas_v: Vec<i64> = Vec::new();
    let mut liquidadas_v: Vec<i64> = Vec::new();
    let mut i: usize = 0;
    while i < lotes.len()
        invariant
            i <= lotes.len(),
            l == vistas_lotes(lotes@),
            vistas_textos(meses_v@) == meses(l.take(i as int)),
            compradas_v.len() == meses_v.len(),
            liquidadas_v.len() == meses_v.len(),
            forall|j: int| 0 <= j < i ==> #[trigger] paso_sin_desborde(l, j),
            forall|k: int|
                0 <= k < meses_v.len() ==> #[trigger] compradas_v[k] == suma_del_mes(
                    l.take(i as int),
                    meses(l.take(i as int))[k],
                    compradas(),
                ),
            forall|k: int|
                0 <= k < meses_v.len() ==> #[trigger] liquidadas_v[k] == suma_del_mes(
                    l.take(i as int),
                    meses(l.take(i as int))[k],
                    liquidadas(),
                ),
        decreases lotes.len() - i,
    {
        let ghost antes = l.take(i as int);
        let ghost despues = l.take(i + 1);
        let ghost x = l[i as int];
        proof {
            assert(despues.drop_last() =~= antes);
            assert(despues.last() == x);
            assert(x == (lotes@[i as int].0@, lotes@[i as int].1 as int, lotes@[i as int].2));
            ley_meses_del_historial(antes);
        }
        let (mes, cantidad, liquidada) = &lotes[i];
        let cantidad: i64 = *cantidad;
        match posicion_de_texto(&meses_v, mes.as_str()) {
            Some(k) => {
                proof {
                    assert(meses(despues) == meses(antes));
                }
                let c = match compradas_v[k].checked_add(cantidad) {
                    Some(c) => c,
                    None => {
                        proof {
                            assert(!paso_sin_desborde(l, i as int));
                        }
                        return None;
                    },
                };
                compradas_v.set(k, c);
                if *liquidada {
                    let q = match liquidadas_v[k].checked_add(cantidad) {
                        Some(q) => q,
                        None => {
                            proof {
                                assert(!paso_sin_desborde(l, i as int));
                            }
                            return None;
                        },
                    };
                    liquidadas_v.set(k, q);
                }
                proof {
                    assert forall|j: int| 0 <= j < meses_v.len() && j != k implies meses(antes)[j] != x.0 by {
                        assert(meses(antes)[j] != meses(antes)[k as int]);
                    }
                    assert(paso_sin_desborde(l, i as int));
                }
            },
            None => {
                proof {
                    assert forall|j: int| 0 <= j < antes.len() implies #[trigger] antes[j].0 != x.0 by {
                        assert(meses(antes).contains(antes[j].0));
                    }
                    lema_mes_ausente(antes, x.0, compradas());
                    lema_mes_ausente(antes, x.0, liquidadas());
                    assert(meses(despues) == meses(antes).push(x.0));
                    assert(paso_sin_desborde(l, i as int));
                }
                let copia = String::from_str(mes.as_str());
                meses_v.push(copia);
                compradas_v.push(cantidad);
                if *liquidada {
                    liquidadas_v.push(cantidad);
                } else {
                    liquidadas_v.push(0);
                }
                proof {
                    assert(vistas_textos(meses_v@) =~= meses(despues));
                }
            },
        }
        i = i + 1;
    }
    proof {
        assert(l.take(lotes.len() as int) =~= l);
        ley_meses_del_historial(l);
    }
    let ghost ms = meses(l);
    let mut r: Vec<ResumenMesAcciones> = Vec::new();
    let mut acumulado: i64 = 0;
    let mut k: usize = 0;
    while k < meses_v.len()
        invariant
            k <= meses_v.len(),
            l == vistas_lotes(lotes@),
            ms == meses(l),
            ms.no_duplicates(),
            forall|j: int| 0 <= j < l.len() ==> #[trigger] paso_sin_desborde(l, j),
            forall|j: int| 0 <= j < k ==> #[trigger] mes_sin_desborde(l, j),
            vistas_textos(meses_v@) == ms,
            compradas_v.len() == meses_v.len(),
            liquidadas_v.len() == meses_v.len(),
            forall|j: int|
                0 <= j < meses_v.len() ==> #[trigger] compradas_v[j] == suma_del_mes(l, ms[j], compradas()),
            forall|j: int|
                0 <= j < meses_v.len() ==> #[trigger] liquidadas_v[j] == suma_del_mes(l, ms[j], liquidadas()),
            r.len() == k,
            acumulado == por_meses(l, ms.take(k as int), vigentes()),
            forall|j: int|
                #![trigger r[j]]
                0 <= j < k ==> {
                    &&& r[j].mes@ == ms[j]
                    &&& r[j].compradas == suma_del_mes(l, ms[j], compradas())
                    &&& r[j].liquidadas == suma_del_mes(l, ms[j], liquidadas())
                    &&& r[j].saldo == saldo_al_mes(l, j)
                },
        decreases meses_v.len() - k,
    {
        proof {
            let siguiente = ms.take(k + 1);
            assert(siguiente.drop_last() =~= ms.take(k as int));
            assert(siguiente.last() == ms[k as int]);
            lema_vigentes_del_mes(l, ms[k as int]);
        }
        let d = match compradas_v[k].checked_sub(liquidadas_v[k]) {
            Some(d) => d,
            None => {
                proof {
                    assert(!mes_sin_desborde(l, k as int));
                }
                return None;
            },
        };
        acumulado = match acumulado.checked_add(d) {
            Some(a) => a,
            None => {
                proof {
                    assert(!mes_sin_desborde(l, k as int));
                }
                return None;
            },
        };
        proof {
            assert(mes_sin_desborde(l, k as int));
        }
        let fila = ResumenMesAcciones {
            mes: String::from_str(meses_v[k].as_str()),
            compradas: compradas_v[k],
            liquidadas: liquidadas_v[k],
            saldo: acumulado,
        };
        r.push(fila);
        k = k + 1;
    }
    proof {
        assert(es_historial_de(r@, l));
    }
    Some(r)
}

/// Las acciones vigentes por socio, como filas del listado, en el mismo orden.
pub fn acciones_por_socio(v: &Vec<(String, i64)>) -> (r: Vec<AccionesDeSocioDto>)
    ensures
        r.len() == v.len(),
        forall|k: int|
            #![trigger r[k]]
            0 <= k < r.len() ==> r[k].socio_id@ == v[k].0@ && r[k].acciones == v[k].1,
{
    let mut r: Vec<AccionesDeSocioDto> = Vec::new();
    let mut k: usize = 0;
    while k < v.len()
        invariant
            k <= v.len(),
            r.len() == k,
            forall|j: int|
                #![trigger r[j]]
                0 <= j < k ==> r[j].socio_id@ == v[j].0@ && r[j].acciones == v[j].1,
        decreases v.len() - k,
    {
        let (socio_id, acciones) = &v[k];
        r.push(AccionesDeSocioDto { socio_id: String::from_str(socio_id.as_str()), acciones: *acciones });
        k = k + 1;
    }
    r
}

/// RN-02 está en período de gracia mientras no hayan pasado tres meses desde la
/// creación del Bankomunal; si alguna de las dos fechas no se puede leer, se
/// cuentan cero meses.
pub open spec fn en_gracia_spec(fecha_creacion: Seq<u8>, fecha: Seq<u8>) -> bool {
    match meses_entre_spec(fecha_creacion, fecha) {
        Some(m) => m < MESES_GRACIA_TOPE_PARTICIPACION,
        None => 0 < MESES_GRACIA_TOPE_PARTICIPACION,
    }
}

/// RN-02: el tope de participación no aplica durante los tres primeros meses
/// calendario de operación (meses 0, 1 y 2 desde la creación) y aplica desde el
/// tercero; si no se pueden contar los meses, no aplica.
pub proof fn ley_periodo_de_gracia(fecha_creacion: Seq<u8>, fecha: Seq<u8>)
    ensures
        meses_entre_spec(fecha_creacion, fecha) matches Some(m) ==> (en_gracia_spec(fecha_creacion, fecha)
            <==> m < 3),
        meses_entre_spec(fecha_creacion, fecha) is None ==> en_gracia_spec(fecha_creacion, fecha),
{
}

/// Si el tope de participación de RN-02 todavía no aplica en `fecha`.
pub fn en_periodo_de_gracia(fecha_creacion: &str, fecha: &str) -> (r: bool)
    ensures
        r == en_gracia_spec(fecha_creacion.spec_bytes(), fecha.spec_bytes()),
{
    let meses_operando = match meses_entre(fecha_creacion, fecha) {
        Some(m) => m,
        None => 0,
    };
    meses_operando < MESES_GRACIA_TOPE_PARTICIPACION
}

/// Mensaje de una fecha de la que no se puede sacar el mes.
pub open spec fn mensaje_fecha_no_valida(fecha: Seq<char>) -> Seq<char> {
    "La fecha «"@ + fecha + "» no es válida"@
}

/// Mes de una fecha (`YYYY-MM-01`, RN-10) o el rechazo de la fecha.
pub fn mes_valido(fecha: &str) -> (r: Result<String, ErrorNegocio>)
    ensures
        tiene_mes(fecha.spec_bytes()) ==> (r matches Ok(m) && m@ == primer_dia(fecha.spec_bytes())),
        !tiene_mes(fecha.spec_bytes()) ==> (r matches Err(ErrorNegocio::OperacionNoPermitida(t)) && t@
            == mensaje_fecha_no_valida(fecha@)),
{
    match mes_de(fecha) {
        Some(m) => Ok(m),
        None => {
            let mut t = String::from_str("La fecha «");
            t.append(fecha);
            t.append("» no es válida");
            Err(ErrorNegocio::OperacionNoPermitida(t))
        },
    }
}

/// Fecha y mes de una compra de acciones (RF-22, RN-10): la fecha dada,
/// recortada, es obligatoria y debe tener mes.
pub fn fecha_de_compra(fecha: &str) -> (r: Result<(String, String), ErrorNegocio>)
    ensures
        recorte(fecha@).len() == 0 ==> (r matches Err(ErrorNegocio::OperacionNoPermitida(t)) && t@
            == "Debe indicar la fecha de la compra"@),
        recorte(fecha@).len() > 0 ==> match r {
            Ok((f, m)) => f@ == recorte(fecha@) && tiene_mes(encode_utf8(f@)) && m@ == primer_dia(
                encode_utf8(f@),
            ),
            Err(ErrorNegocio::OperacionNoPermitida(t)) => t@ == mensaje_fecha_no_valida(
                recorte(fecha@),
            ) && !tiene_mes(encode_utf8(recorte(fecha@))),
            Err(_) => false,
        },
{
    let f = recortar(fecha);
    if f.as_str().is_empty() {
        return Err(ErrorNegocio::OperacionNoPermitida(String::from_str("Debe indicar la fecha de la compra")));
    }
    match mes_valido(f.as_str()) {
        Ok(m) => Ok((f, m)),
        Err(e) => Err(e),
    }
}

} // verus!
