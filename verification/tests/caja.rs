use bankomunal::caja::{
    descripcion_de_bien, descripcion_o_por_defecto, detalle_donacion, revisar_asiento_de_modulo,
    revisar_fecha_operacion, revisar_registrable, trazabilidad_de_correccion, CodigoOperacion,
    FiltroLibro, TipoBien,
};
use bankomunal::error::ErrorNegocio;

fn mensaje<T: std::fmt::Debug>(r: Result<T, ErrorNegocio>) -> String {
    match r {
        Err(ErrorNegocio::OperacionNoPermitida(m)) => m,
        otro => panic!("se esperaba un rechazo: {otro:?}"),
    }
}

#[test]
fn los_codigos_van_y_vuelven_a_texto() {
    for c in [
        CodigoOperacion::OtroIngreso,
        CodigoOperacion::OtroEgreso,
        CodigoOperacion::IngresoFondoGastos,
        CodigoOperacion::GastoBankomunal,
        CodigoOperacion::VentaAcciones,
        CodigoOperacion::DesembolsoCredito,
        CodigoOperacion::Refinanciamiento,
    ] {
        assert_eq!(CodigoOperacion::desde_str(c.as_str()), Some(c));
    }
    assert_eq!(CodigoOperacion::desde_str("XXX"), None);
}

#[test]
fn solo_las_cuatro_operaciones_de_caja_se_registran_a_mano() {
    assert!(CodigoOperacion::OtroIngreso.registrable_en_caja());
    assert!(CodigoOperacion::GastoBankomunal.registrable_en_caja());
    // Éstas son consecuencia de otro módulo, no se teclean en Caja.
    assert!(!CodigoOperacion::VentaAcciones.registrable_en_caja());
    assert!(!CodigoOperacion::PagoCuota.registrable_en_caja());
}

#[test]
fn solo_ifg_y_gbk_mueven_el_fondo_de_gastos() {
    assert_eq!(CodigoOperacion::IngresoFondoGastos.efecto_en_fondo_gastos() as f64, 1.0);
    assert_eq!(CodigoOperacion::GastoBankomunal.efecto_en_fondo_gastos() as f64, -1.0);
    assert_eq!(CodigoOperacion::OtroIngreso.efecto_en_fondo_gastos() as f64, 0.0);
    assert_eq!(CodigoOperacion::OtroEgreso.efecto_en_fondo_gastos() as f64, 0.0);
}

#[test]
fn el_codigo_decide_de_que_lado_del_libro_va_el_monto() {
    assert!(CodigoOperacion::OtroIngreso.es_ingreso());
    assert!(CodigoOperacion::PagoCuota.es_ingreso());
    assert!(!CodigoOperacion::OtroEgreso.es_ingreso());
    assert!(!CodigoOperacion::GastoBankomunal.es_ingreso());
    assert!(!CodigoOperacion::DesembolsoCredito.es_ingreso());
}

#[test]
fn todos_los_codigos_del_catalogo_van_y_vuelven() {
    let todos = [
        (CodigoOperacion::OtroIngreso, "OI"),
        (CodigoOperacion::OtroEgreso, "EG"),
        (CodigoOperacion::IngresoFondoGastos, "IFG"),
        (CodigoOperacion::GastoBankomunal, "GBK"),
        (CodigoOperacion::VentaAcciones, "VC"),
        (CodigoOperacion::LiquidacionAcciones, "LC"),
        (CodigoOperacion::GananciaRepartida, "UR"),
        (CodigoOperacion::DesembolsoCredito, "CON"),
        (CodigoOperacion::InteresOrdinario, "OR"),
        (CodigoOperacion::PagoCuota, "PC"),
        (CodigoOperacion::InteresMora, "MO"),
        (CodigoOperacion::PagoDeudaPendiente, "PDP"),
        (CodigoOperacion::Refinanciamiento, "COR"),
    ];
    for (c, texto) in todos {
        assert_eq!(c.as_str(), texto);
        assert_eq!(CodigoOperacion::desde_str(texto), Some(c));
    }
    assert_eq!(CodigoOperacion::desde_str("oi"), None);
    assert_eq!(CodigoOperacion::desde_str(" OI"), None);
}

#[test]
fn los_tipos_de_bien_van_y_vuelven() {
    assert_eq!(TipoBien::desde_str(TipoBien::Propio.as_str()), TipoBien::Propio);
    assert_eq!(TipoBien::desde_str(TipoBien::Comodato.as_str()), TipoBien::Comodato);
    assert_eq!(TipoBien::desde_str("OTRO"), TipoBien::Propio);
}

#[test]
fn el_filtro_por_defecto_no_filtra() {
    let f = FiltroLibro::default();
    assert!(f.desde.is_none() && f.hasta.is_none());
}

#[test]
fn la_descripcion_vacia_toma_el_nombre_de_la_operacion() {
    assert_eq!(descripcion_o_por_defecto(CodigoOperacion::OtroIngreso, "  "), "Otro ingreso");
    assert_eq!(descripcion_o_por_defecto(CodigoOperacion::OtroEgreso, ""), "Otro egreso");
    assert_eq!(
        descripcion_o_por_defecto(CodigoOperacion::IngresoFondoGastos, ""),
        "Ingreso al Fondo para Gastos"
    );
    assert_eq!(descripcion_o_por_defecto(CodigoOperacion::GastoBankomunal, ""), "Gasto del Bankomunal");
    assert_eq!(descripcion_o_por_defecto(CodigoOperacion::PagoCuota, ""), "PC");
    assert_eq!(descripcion_o_por_defecto(CodigoOperacion::OtroIngreso, " Rifa "), "Rifa");
}

#[test]
fn caja_no_registra_a_mano_operaciones_de_otros_modulos() {
    assert!(revisar_registrable(CodigoOperacion::OtroEgreso).is_ok());
    assert_eq!(
        mensaje(revisar_registrable(CodigoOperacion::VentaAcciones)),
        "La operación VC la genera otro módulo y no se registra a mano desde Caja"
    );
    assert!(revisar_asiento_de_modulo(CodigoOperacion::DesembolsoCredito).is_ok());
    assert_eq!(
        mensaje(revisar_asiento_de_modulo(CodigoOperacion::GastoBankomunal)),
        "La operación GBK se registra desde la pantalla de Caja, no desde otro módulo"
    );
}

#[test]
fn la_operacion_exige_fecha() {
    assert!(revisar_fecha_operacion("2026-01-10").is_ok());
    assert_eq!(mensaje(revisar_fecha_operacion("  ")), "Debe indicar la fecha de la operación");
}

#[test]
fn la_donacion_lleva_su_detalle() {
    assert_eq!(detalle_donacion("  "), "Donación");
    assert_eq!(detalle_donacion(" Alcaldía "), "Donación — Alcaldía");
}

#[test]
fn el_bien_exige_descripcion() {
    assert_eq!(descripcion_de_bien("  Nevera ").unwrap(), "Nevera");
    assert_eq!(mensaje(descripcion_de_bien("   ")), "Debe describir el bien adquirido");
}

#[test]
fn corregir_antes_del_cierre_no_pide_trazabilidad() {
    let (q, m) = trazabilidad_de_correccion(false, &None, &None).unwrap();
    assert!(q.is_none() && m.is_none());
    // Aunque se den, antes del cierre no se registran.
    let (q, m) = trazabilidad_de_correccion(false, &Some("Ana".into()), &Some("x".into())).unwrap();
    assert!(q.is_none() && m.is_none());
}

#[test]
fn corregir_tras_el_cierre_exige_nombre_y_motivo() {
    let esperado = "El mes de esta operación ya está cerrado: para corregirla debe indicar su \
                    nombre y el motivo del cambio (RF-90)";
    assert_eq!(mensaje(trazabilidad_de_correccion(true, &None, &Some("error".into()))), esperado);
    assert_eq!(mensaje(trazabilidad_de_correccion(true, &Some("Ana".into()), &None)), esperado);
    assert_eq!(
        mensaje(trazabilidad_de_correccion(true, &Some("  ".into()), &Some("error".into()))),
        esperado
    );
    let (q, m) =
        trazabilidad_de_correccion(true, &Some(" Ana ".into()), &Some(" se digitó mal ".into()))
            .unwrap();
    assert_eq!(q.as_deref(), Some("Ana"));
    assert_eq!(m.as_deref(), Some("se digitó mal"));
}
