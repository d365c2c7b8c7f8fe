use bankomunal::acciones::{en_periodo_de_gracia, mes_valido};
use bankomunal::error::ErrorNegocio;
use bankomunal::fechas::{dias_del_mes, fecha_o_hoy, fecha_utc, mes_de, meses_entre, sumar_meses, sumar_un_mes};

#[test]
fn cuenta_meses_calendario_no_dias() {
    assert_eq!(meses_entre("2026-01-15", "2026-01-02"), Some(0));
    assert_eq!(meses_entre("2026-01-31", "2026-02-01"), Some(1));
    assert_eq!(meses_entre("2026-01-01", "2027-01-01"), Some(12));
    assert_eq!(meses_entre("2026-11-05", "2027-02-20"), Some(3));
}

#[test]
fn meses_entre_admite_fecha_con_hora() {
    assert_eq!(meses_entre("2026-01-10T12:30:00", "2026-04-01"), Some(3));
}

#[test]
fn meses_entre_rechaza_fechas_invalidas() {
    assert_eq!(meses_entre("", "2026-01-01"), None);
    assert_eq!(meses_entre("2026-13-01", "2026-01-01"), None);
    assert_eq!(meses_entre("no-es-fecha", "2026-01-01"), None);
}

#[test]
fn mes_de_devuelve_el_primer_dia() {
    assert_eq!(mes_de("2026-08-17"), Some("2026-08-01".into()));
    assert_eq!(mes_de("2026-08-01T09:00:00"), Some("2026-08-01".into()));
    assert_eq!(mes_de("abc"), None);
}

#[test]
fn meses_entre_puede_ser_negativo_y_acepta_signo() {
    assert_eq!(meses_entre("2027-03-01", "2026-01-01"), Some(-14));
    assert_eq!(meses_entre("+026-01-01", "0026-02-01"), Some(1));
    assert_eq!(meses_entre("2026-00-01", "2026-01-01"), None);
    assert_eq!(meses_entre("2026-1-01", "2026-01-01"), None);
}

#[test]
fn mes_de_exige_el_guion_del_mes() {
    assert_eq!(mes_de("2026/08/17"), None);
    assert_eq!(mes_de("2026-0"), None);
    assert_eq!(mes_de("añoo-08-01"), None);
}

#[test]
fn los_vencimientos_avanzan_de_mes_en_mes() {
    assert_eq!(sumar_meses("2026-09-15", 0), "2026-09-15");
    assert_eq!(sumar_meses("2026-09-15", 1), "2026-10-15");
    assert_eq!(sumar_meses("2026-09-15", 2), "2026-11-15");
    assert_eq!(sumar_meses("2026-11-30", 3), "2027-02-28");
    assert_eq!(sumar_meses("2027-11-30", 3), "2028-02-29");
    assert_eq!(sumar_meses("2026-01-31", -2), "2025-11-30");
}

#[test]
fn sumar_meses_lee_con_uno_lo_que_no_entiende() {
    // Año, mes y día ilegibles valen 1.
    assert_eq!(sumar_meses("xxxx-xx-xx", 0), "0001-01-01");
    assert_eq!(sumar_meses("2026-05", 1), "2026-06-01");
}

#[test]
fn sumar_un_mes_conserva_el_dia_recortado() {
    assert_eq!(sumar_un_mes("2026-03-10"), "2026-04-10");
    assert_eq!(sumar_un_mes("2026-02-01"), "2026-03-01");
    // Diciembre pasa a enero del año siguiente con el mismo día.
    assert_eq!(sumar_un_mes("2026-12-15"), "2027-01-15");
    // El día se recorta al último del mes destino.
    assert_eq!(sumar_un_mes("2026-01-31"), "2026-02-28");
    assert_eq!(sumar_un_mes("2024-01-31"), "2024-02-29");
    assert_eq!(sumar_un_mes("2026-03-31"), "2026-04-30");
}

#[test]
fn dias_del_mes_sigue_el_calendario_gregoriano() {
    assert_eq!(dias_del_mes(2024, 2), 29);
    assert_eq!(dias_del_mes(1900, 2), 28);
    assert_eq!(dias_del_mes(2000, 2), 29);
    assert_eq!(dias_del_mes(2026, 4), 30);
    assert_eq!(dias_del_mes(2026, 12), 31);
    assert_eq!(dias_del_mes(2026, 13), 30);
}

#[test]
fn la_fecha_del_desembolso_se_valida() {
    assert_eq!(fecha_o_hoy(Some(" 2026-09-01 ")).unwrap(), "2026-09-01");
    assert_eq!(fecha_o_hoy(None).unwrap().len(), 10);
    assert_eq!(fecha_o_hoy(Some("   ")).unwrap().len(), 10);
    match fecha_o_hoy(Some("01/09/2026")) {
        Err(ErrorNegocio::OperacionNoPermitida(m)) => {
            assert_eq!(m, "La fecha «01/09/2026» no es válida: use YYYY-MM-DD")
        }
        otro => panic!("se esperaba un rechazo: {otro:?}"),
    }
}

#[test]
fn la_fecha_del_desembolso_debe_existir() {
    assert_eq!(fecha_o_hoy(Some(" 2026-02-01 ")).unwrap(), "2026-02-01");
    assert_eq!(fecha_o_hoy(Some("2024-02-29")).unwrap(), "2024-02-29");
    for mala in ["abcd-ef-gh", "2026-02-30", "2026-13-01", "2026-00-10", "2026-04-31", "2025-02-29", "01/02/2026"] {
        match fecha_o_hoy(Some(mala)) {
            Err(ErrorNegocio::OperacionNoPermitida(m)) => {
                assert_eq!(m, format!("La fecha «{mala}» no es válida: use YYYY-MM-DD"))
            }
            otro => panic!("se esperaba un rechazo de {mala}: {otro:?}"),
        }
    }
}

#[test]
fn hoy_tiene_forma_de_fecha_iso() {
    let h = fecha_o_hoy(None).unwrap();
    let b = h.as_bytes();
    assert_eq!(b.len(), 10);
    assert_eq!(b[4], b'-');
    assert_eq!(b[7], b'-');
    let mes: u32 = h[5..7].parse().unwrap();
    let dia: u32 = h[8..10].parse().unwrap();
    assert!((1..=12).contains(&mes));
    assert!((1..=31).contains(&dia));
    assert_eq!(fecha_o_hoy(Some(h.as_str())).unwrap(), h);
}

#[test]
fn el_tope_de_participacion_tiene_tres_meses_de_gracia() {
    assert!(en_periodo_de_gracia("2026-01-01", "2026-03-31"));
    assert!(!en_periodo_de_gracia("2026-01-01", "2026-04-01"));
    // Una fecha ilegible cuenta como cero meses de operación.
    assert!(en_periodo_de_gracia("sin fecha", "2030-01-01"));
}

#[test]
fn el_mes_de_compra_sale_de_la_fecha() {
    assert_eq!(mes_valido("2026-08-17").unwrap(), "2026-08-01");
    match mes_valido("17/08/2026") {
        Err(ErrorNegocio::OperacionNoPermitida(m)) => {
            assert_eq!(m, "La fecha «17/08/2026» no es válida")
        }
        otro => panic!("se esperaba un rechazo: {otro:?}"),
    }
}

#[test]
fn el_dia_no_cambia_la_cuenta_de_meses() {
    assert_eq!(meses_entre("2026-01-01", "2026-03-31"), meses_entre("2026-01-31", "2026-03-01"));
    assert_eq!(meses_entre("2026-03-01", "2026-01-31"), Some(-2));
}

#[test]
fn la_fecha_utc_de_un_instante() {
    assert_eq!(fecha_utc(0, 0).unwrap(), "1970-01-01");
    assert_eq!(fecha_utc(1431648000, 0).unwrap(), "2015-05-15");
    assert_eq!(fecha_utc(951782400, 999_999_999).unwrap(), "2000-02-29");
    assert_eq!(fecha_utc(253_402_300_799, 0).unwrap(), "9999-12-31");
    assert_eq!(fecha_utc(253_402_300_800, 0).unwrap(), "+10000-01-01");
    assert!(fecha_utc(u64::MAX, 0).is_none());
    assert!(fecha_utc(0, 2_000_000_000).is_none());
}
