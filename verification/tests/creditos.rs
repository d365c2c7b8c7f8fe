use bankomunal::creditos::{
    descripcion_desembolso, monto_aprobado, numero_de_credito, resolver_fiadores,
    revisar_cantidad_de_fiadores, revisar_decidible, revisar_decision, revisar_desembolsable,
    revisar_fiadores_cruzados, revisar_plazo_maximo, revisar_plazo_minimo, DestinoCredito,
    EstadoCredito, EstadoSolicitud, RolGarantia, FRECUENCIA_PAGO_MENSUAL, MAX_FIADORES,
    MIN_FIADORES,
};
use bankomunal::error::ErrorNegocio;

fn mensaje<T: std::fmt::Debug>(r: Result<T, ErrorNegocio>) -> String {
    match r {
        Err(ErrorNegocio::OperacionNoPermitida(m)) => m,
        otro => panic!("se esperaba un rechazo: {otro:?}"),
    }
}

#[test]
fn los_enums_van_y_vuelven_a_texto() {
    for destino in [
        DestinoCredito::ArticulosHogar,
        DestinoCredito::EquiposTrabajo,
        DestinoCredito::Vivienda,
        DestinoCredito::CompraVenta,
        DestinoCredito::Educacion,
        DestinoCredito::GastosPersonales,
        DestinoCredito::Otros,
        DestinoCredito::Productivo,
        DestinoCredito::Salud,
        DestinoCredito::ServiciosPublicos,
    ] {
        assert_eq!(DestinoCredito::desde_str(destino.as_str()), Some(destino));
    }
    assert_eq!(DestinoCredito::desde_str("XXX"), None);
    assert_eq!(EstadoSolicitud::desde_str(EstadoSolicitud::Diferida.as_str()), EstadoSolicitud::Diferida);
    assert_eq!(EstadoCredito::desde_str(EstadoCredito::Pagado.as_str()), EstadoCredito::Pagado);
    assert_eq!(RolGarantia::desde_str(RolGarantia::Fiador.as_str()), RolGarantia::Fiador);
}

#[test]
fn el_destino_debe_ser_del_catalogo() {
    assert!(DestinoCredito::desde_str("CRV").is_none(), "CRV era una errata de CVR (D-15)");
    assert!(DestinoCredito::desde_str("SP").is_some());
}

#[test]
fn todos_los_estados_van_y_vuelven() {
    for e in [
        EstadoSolicitud::Pendiente,
        EstadoSolicitud::Aprobada,
        EstadoSolicitud::Modificada,
        EstadoSolicitud::Negada,
        EstadoSolicitud::Diferida,
    ] {
        assert_eq!(EstadoSolicitud::desde_str(e.as_str()), e);
    }
    assert_eq!(EstadoSolicitud::desde_str("RARO"), EstadoSolicitud::Pendiente);
    for e in [EstadoCredito::Vigente, EstadoCredito::Pagado, EstadoCredito::Refinanciado] {
        assert_eq!(EstadoCredito::desde_str(e.as_str()), e);
    }
    assert_eq!(EstadoCredito::desde_str(""), EstadoCredito::Vigente);
    assert_eq!(RolGarantia::desde_str(RolGarantia::Titular.as_str()), RolGarantia::Titular);
    assert_eq!(RolGarantia::desde_str("OTRO"), RolGarantia::Titular);
    assert_eq!(FRECUENCIA_PAGO_MENSUAL, "MENSUAL");
    assert_eq!((MIN_FIADORES, MAX_FIADORES), (1, 2));
}

#[test]
fn solo_una_solicitud_pendiente_se_decide() {
    assert!(revisar_decidible(EstadoSolicitud::Pendiente, false).is_ok());
    assert_eq!(
        mensaje(revisar_decidible(EstadoSolicitud::Aprobada, false)),
        "La solicitud ya fue decidida: quedó APROBADA"
    );
    assert_eq!(
        mensaje(revisar_decidible(EstadoSolicitud::Pendiente, true)),
        "La solicitud ya tiene un crédito desembolsado"
    );
}

#[test]
fn la_diferida_exige_observacion() {
    let esperado = "Una solicitud Diferida debe registrar la observación (RF-51)";
    assert_eq!(mensaje(revisar_decision(EstadoSolicitud::Diferida, &None, false)), esperado);
    assert_eq!(mensaje(revisar_decision(EstadoSolicitud::Diferida, &Some("  ".into()), false)), esperado);
    assert!(revisar_decision(EstadoSolicitud::Diferida, &Some("Falta soporte".into()), false).is_ok());
}

#[test]
fn la_modificada_exige_monto_y_la_negada_no_lo_admite() {
    assert_eq!(
        mensaje(revisar_decision(EstadoSolicitud::Modificada, &None, false)),
        "Una solicitud Modificada debe indicar el monto aprobado (RF-51)"
    );
    assert!(revisar_decision(EstadoSolicitud::Modificada, &None, true).is_ok());
    assert_eq!(
        mensaje(revisar_decision(EstadoSolicitud::Negada, &None, true)),
        "Una solicitud Negada no lleva monto aprobado"
    );
    assert!(revisar_decision(EstadoSolicitud::Negada, &None, false).is_ok());
    assert_eq!(
        mensaje(revisar_decision(EstadoSolicitud::Pendiente, &None, false)),
        "La decisión debe ser Aprobada, Modificada, Negada o Diferida"
    );
    assert!(revisar_decision(EstadoSolicitud::Aprobada, &None, true).is_ok());
}

#[test]
fn el_monto_aprobado_depende_de_la_decision() {
    assert_eq!(monto_aprobado(EstadoSolicitud::Aprobada, None, 500.0), Some(500.0));
    assert_eq!(monto_aprobado(EstadoSolicitud::Aprobada, Some(400.0), 500.0), Some(400.0));
    assert_eq!(monto_aprobado(EstadoSolicitud::Modificada, Some(300.0), 500.0), Some(300.0));
    assert_eq!(monto_aprobado(EstadoSolicitud::Negada, None, 500.0), None);
    assert_eq!(monto_aprobado(EstadoSolicitud::Diferida, Some(1.0), 500.0), None);
}

#[test]
fn solo_una_aprobada_sin_credito_se_desembolsa() {
    assert!(revisar_desembolsable(EstadoSolicitud::Aprobada, false).is_ok());
    assert_eq!(
        mensaje(revisar_desembolsable(EstadoSolicitud::Negada, false)),
        "Sólo las solicitudes Aprobadas pueden desembolsarse; esta quedó NEGADA"
    );
    assert_eq!(
        mensaje(revisar_desembolsable(EstadoSolicitud::Aprobada, true)),
        "La solicitud ya fue desembolsada"
    );
}

#[test]
fn el_plazo_va_de_una_cuota_al_maximo() {
    assert!(revisar_plazo_minimo(1).is_ok());
    assert_eq!(mensaje(revisar_plazo_minimo(0)), "El plazo debe ser de al menos 1 cuota");
    assert!(revisar_plazo_maximo(36, 36).is_ok());
    assert_eq!(
        mensaje(revisar_plazo_maximo(48, 36)),
        "El plazo (48 cuotas) supera el máximo del Bankomunal (36 cuotas)"
    );
}

#[test]
fn la_solicitud_lleva_uno_o_dos_fiadores() {
    assert_eq!(
        mensaje(revisar_cantidad_de_fiadores(0, true)),
        "Todo crédito debe tener al menos un fiador (RN-14)"
    );
    assert!(revisar_cantidad_de_fiadores(2, true).is_ok());
    assert_eq!(
        mensaje(revisar_cantidad_de_fiadores(3, true)),
        "Se registran hasta 2 fiadores por solicitud (RF-48)"
    );
    assert_eq!(mensaje(revisar_cantidad_de_fiadores(3, false)), "Se registran hasta 2 fiadores (RF-48)");
}

#[test]
fn cada_fiador_debe_ser_un_socio_distinto_del_titular() {
    let f = |c: &str, s: Option<&str>| (c.to_string(), s.map(|x| x.to_string()));
    let ids = resolver_fiadores("t1", &vec![f("111", Some("s1")), f("222", Some("s2"))], true).unwrap();
    assert_eq!(ids, vec!["s1".to_string(), "s2".to_string()]);
    assert_eq!(
        mensaje(resolver_fiadores("t1", &vec![f("111", Some("s1")), f("999", None)], true)),
        "El fiador con cédula «999» no es socio del Bankomunal"
    );
    assert_eq!(
        mensaje(resolver_fiadores("t1", &vec![f("111", Some("t1"))], true)),
        "El fiador no puede ser el mismo socio titular"
    );
    assert_eq!(
        mensaje(resolver_fiadores("t1", &vec![f("111", Some("s1")), f("111", Some("s1"))], true)),
        "Un mismo socio no puede repetirse como fiador"
    );
    // En el desembolso directo la repetición no se revisa.
    let ids = resolver_fiadores("t1", &vec![f("111", Some("s1")), f("111", Some("s1"))], false).unwrap();
    assert_eq!(ids.len(), 2);
}

#[test]
fn no_se_admiten_fiadores_cruzados() {
    let pares = vec![("A".to_string(), "B".to_string())];
    assert_eq!(
        mensaje(revisar_fiadores_cruzados(&pares, "B", &vec!["A".to_string()])),
        "Fiadores cruzados con un crédito vigente (RN-05)"
    );
    assert_eq!(
        mensaje(revisar_fiadores_cruzados(&pares, "A", &vec!["B".to_string()])),
        "Fiadores cruzados con un crédito vigente (RN-05)"
    );
    assert!(revisar_fiadores_cruzados(&pares, "C", &vec!["A".to_string()]).is_ok());
    assert!(revisar_fiadores_cruzados(&vec![], "A", &vec!["B".to_string()]).is_ok());
}

#[test]
fn el_numero_de_credito_es_el_siguiente_con_tres_cifras() {
    assert_eq!(numero_de_credito(0), "001");
    assert_eq!(numero_de_credito(41), "042");
    assert_eq!(numero_de_credito(999), "1000");
}

#[test]
fn el_desembolso_se_describe_en_el_libro() {
    assert_eq!(descripcion_desembolso("007", 12), "Desembolso crédito Nº 007 a 12 cuotas");
}
