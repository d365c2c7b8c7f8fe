use bankomunal::acciones::{acciones_por_socio, historial, historial_comprobado, MESES_GRACIA_TOPE_PARTICIPACION, MESES_PPCFC};

fn lote(mes: &str, cantidad: i64, liquidada: bool) -> (String, i64, bool) {
    (mes.to_string(), cantidad, liquidada)
}

#[test]
fn el_historial_agrupa_por_mes_con_saldo_acumulado() {
    let h = historial(&vec![
        lote("2026-05-01", 3, false),
        lote("2026-06-01", 1, false),
        lote("2026-07-01", 1, false),
        lote("2026-07-01", 1, false),
    ]);
    assert_eq!(h.len(), 3, "un renglón por mes, no por compra");
    assert_eq!(h[0].mes, "2026-05-01");
    assert_eq!(h[0].compradas, 3);
    assert_eq!(h[0].saldo, 3);
    assert_eq!(h[1].saldo, 4);
    assert_eq!(h[2].compradas, 2, "las dos compras de julio se suman");
    assert_eq!(h[2].saldo, 6);
}

#[test]
fn lo_liquidado_descuenta_del_saldo_en_su_mes() {
    let h = historial(&vec![
        lote("2026-01-01", 5, true),
        lote("2026-02-01", 2, false),
        lote("2026-01-01", 4, false),
    ]);
    assert_eq!(h.len(), 2);
    assert_eq!((h[0].mes.as_str(), h[0].compradas, h[0].liquidadas, h[0].saldo), ("2026-01-01", 9, 5, 4));
    assert_eq!((h[1].mes.as_str(), h[1].compradas, h[1].liquidadas, h[1].saldo), ("2026-02-01", 2, 0, 6));
    // El saldo final son las acciones vigentes: 4 + 2.
}

#[test]
fn sin_lotes_no_hay_historial() {
    assert!(historial(&vec![]).is_empty());
}

#[test]
fn las_acciones_por_socio_conservan_el_orden() {
    let filas = acciones_por_socio(&vec![("s1".to_string(), 5), ("s2".to_string(), 1)]);
    assert_eq!(filas.len(), 2);
    assert_eq!((filas[0].socio_id.as_str(), filas[0].acciones), ("s1", 5));
    assert_eq!((filas[1].socio_id.as_str(), filas[1].acciones), ("s2", 1));
    assert_eq!((MESES_GRACIA_TOPE_PARTICIPACION, MESES_PPCFC), (3, 3));
}

#[test]
fn el_historial_llega_hasta_el_limite_de_i64() {
    let h = historial(&vec![lote("2026-05-01", i64::MAX, true), lote("2026-06-01", i64::MAX, false)]);
    assert_eq!(h.len(), 2);
    assert_eq!((h[0].compradas, h[0].liquidadas, h[0].saldo), (i64::MAX, i64::MAX, 0));
    assert_eq!((h[1].compradas, h[1].liquidadas, h[1].saldo), (i64::MAX, 0, i64::MAX));
}

#[test]
fn el_historial_comprobado_rechaza_lo_que_desborda() {
    let normal = vec![lote("2026-05-01", 3, false), lote("2026-06-01", 1, true)];
    assert_eq!(historial_comprobado(&normal), Some(historial(&normal)));
    // Dos compras del mismo mes cuya suma no cabe.
    assert!(historial_comprobado(&vec![lote("2026-05-01", i64::MAX, false), lote("2026-05-01", 1, false)]).is_none());
    // Cada mes cabe, pero el saldo acumulado no.
    assert!(historial_comprobado(&vec![lote("2026-05-01", i64::MAX, false), lote("2026-06-01", 1, false)]).is_none());
    // Lo comprado menos lo liquidado de un mes no cabe.
    assert!(historial_comprobado(&vec![
        lote("2026-05-01", -1, true),
        lote("2026-05-01", i64::MAX, false),
        lote("2026-05-01", 1, false),
    ])
    .is_none());
}
