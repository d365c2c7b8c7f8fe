use bankomunal::error::ErrorNegocio;
use bankomunal::socios::{
    cupo, nombre_completo, normalizar, parece_correo, revisar_cupo, solo_digitos, validar,
    Beneficiario, CupoSociosDto, DatosSocio, EstatusSocio, Protegido, SocioResumenDto, MAX_SOCIOS,
    MIN_SOCIOS,
};

fn datos(cedula: &str, nombres: &str) -> DatosSocio {
    DatosSocio {
        cedula: cedula.into(),
        nombres: nombres.into(),
        apellidos: "Ríos".into(),
        profesion: "Docente".into(),
        direccion: "Calle 1".into(),
        telefono: "7460000".into(),
        celular: "3000000000".into(),
        correo: "ana@ejemplo.com".into(),
        beneficiario: None,
        protegidos: vec![],
    }
}

fn revisar(d: DatosSocio) -> Result<(), ErrorNegocio> {
    validar(&normalizar(d))
}

fn mensaje(r: Result<(), ErrorNegocio>) -> String {
    match r {
        Err(ErrorNegocio::OperacionNoPermitida(m)) => m,
        otro => panic!("se esperaba un rechazo: {otro:?}"),
    }
}

#[test]
fn estatus_ida_y_vuelta_a_texto() {
    for estatus in [
        EstatusSocio::Activo,
        EstatusSocio::RetiradoVoluntario,
        EstatusSocio::RetiradoConDeuda,
        EstatusSocio::RetiradoDeudaSaldada,
    ] {
        assert_eq!(EstatusSocio::desde_str(estatus.as_str()), estatus);
    }
}

#[test]
fn estatus_desconocido_no_revienta_y_cae_en_activo() {
    assert_eq!(EstatusSocio::desde_str("BASURA"), EstatusSocio::Activo);
    assert_eq!(EstatusSocio::desde_str(""), EstatusSocio::Activo);
}

#[test]
fn solo_activo_cuenta_como_no_retirado() {
    assert!(!EstatusSocio::Activo.esta_retirado());
    assert!(EstatusSocio::RetiradoVoluntario.esta_retirado());
    assert!(EstatusSocio::RetiradoConDeuda.esta_retirado());
    assert!(EstatusSocio::RetiradoDeudaSaldada.esta_retirado());
}

#[test]
fn la_planilla_completa_pasa() {
    assert!(revisar(datos("123", "Ana")).is_ok());
}

#[test]
fn la_planilla_exige_cedula_nombres_y_apellidos() {
    assert_eq!(mensaje(revisar(datos("", "Ana"))), "Debe indicar la cédula del socio");
    assert_eq!(mensaje(revisar(datos("1", ""))), "Debe indicar los nombres del socio");
    let mut d = datos("2", "Ana");
    d.apellidos = "   ".into();
    assert_eq!(mensaje(revisar(d)), "Debe indicar los apellidos del socio");
}

#[test]
fn los_datos_de_contacto_son_opcionales_en_la_planilla() {
    let mut d = datos("123", "Ana");
    d.profesion = String::new();
    d.direccion = String::new();
    d.telefono = String::new();
    d.celular = String::new();
    d.correo = String::new();
    assert!(revisar(d).is_ok());
}

#[test]
fn los_correos_mal_formados_se_rechazan() {
    for malo in [
        "sin-arroba.com",
        "@sindominio.com",
        "ana@sinpunto",
        "ana@@doble.com",
        "con espacio@dominio.com",
        "ana@.com",
        "ana@dominio.",
    ] {
        assert!(!parece_correo(malo), "el correo «{malo}» debería rechazarse");
        let mut d = datos("123", "Ana");
        d.correo = malo.into();
        assert_eq!(
            mensaje(revisar(d)),
            "El correo electrónico debe tener el formato nombre@dominio.com"
        );
    }
}

#[test]
fn los_correos_bien_formados_y_el_vacio_se_aceptan() {
    for (i, bueno) in ["ana@ejemplo.com", "a.b+c@sub.dominio.co", ""].iter().enumerate() {
        let mut d = datos(&format!("{i}"), "Ana");
        d.correo = (*bueno).into();
        assert!(revisar(d).is_ok(), "«{bueno}» debería aceptarse");
    }
    assert!(parece_correo("x@y.z"));
}

#[test]
fn los_campos_numericos_no_admiten_texto() {
    assert_eq!(mensaje(revisar(datos("abc123", "Ana"))), "La cédula sólo admite números");
    let mut d = datos("123", "Ana");
    d.telefono = "746-0000".into();
    assert_eq!(mensaje(revisar(d)), "El teléfono sólo admite números");
    let mut d = datos("123", "Ana");
    d.celular = "300 111 2222".into();
    assert_eq!(mensaje(revisar(d)), "El celular sólo admite números");
    assert!(solo_digitos("0123456789"));
    assert!(!solo_digitos(""));
    assert!(!solo_digitos("١٢٣"));
}

#[test]
fn los_allegados_tienen_cedula_numerica() {
    let mut d = datos("123", "Ana");
    d.beneficiario = Some(Beneficiario { nombre: "Luis".into(), cedula: "A-999".into(), parentesco: None });
    assert_eq!(mensaje(revisar(d)), "La cédula del beneficiario sólo admite números");

    let mut d = datos("124", "Ana");
    d.protegidos = vec![Protegido {
        nombre: "Sara".into(),
        cedula: "111".into(),
        parentesco: "Hija".into(),
        telefono: "no-tengo".into(),
    }];
    assert_eq!(
        mensaje(revisar(d)),
        "La cédula y el teléfono de los protegidos sólo admiten números"
    );
}

#[test]
fn a_lo_sumo_dos_protegidos() {
    let mut d = datos("123", "Ana");
    d.protegidos = (0..3)
        .map(|i| Protegido {
            nombre: format!("P{i}"),
            cedula: format!("c{i}"),
            parentesco: "Hijo".into(),
            telefono: String::new(),
        })
        .collect();
    assert_eq!(
        mensaje(revisar(d)),
        "Sólo se pueden registrar hasta 2 protegidos por socio (RF-21)"
    );
}

#[test]
fn el_protegido_necesita_nombre_y_cedula() {
    let mut d = datos("123", "Ana");
    d.protegidos = vec![Protegido {
        nombre: "Sara".into(),
        cedula: "  ".into(),
        parentesco: String::new(),
        telefono: String::new(),
    }];
    assert_eq!(mensaje(revisar(d)), "Cada protegido debe tener al menos nombre y cédula");
}

#[test]
fn el_beneficiario_en_blanco_no_se_registra() {
    let mut d = datos("123", "Ana");
    d.beneficiario = Some(Beneficiario { nombre: "  ".into(), cedula: String::new(), parentesco: None });
    let n = normalizar(d);
    assert_eq!(n.beneficiario, None);
    assert!(validar(&n).is_ok());
}

#[test]
fn el_beneficiario_a_medias_se_rechaza() {
    let mut d = datos("123", "Ana");
    d.beneficiario = Some(Beneficiario { nombre: "Luis".into(), cedula: String::new(), parentesco: None });
    assert_eq!(
        mensaje(revisar(d)),
        "El beneficiario en caso de muerte debe tener nombre y cédula (RF-20)"
    );
}

#[test]
fn la_normalizacion_recorta_y_descarta_filas_vacias() {
    let mut d = datos("  123  ", " Ana ");
    d.beneficiario = Some(Beneficiario {
        nombre: " Luis ".into(),
        cedula: " 999 ".into(),
        parentesco: Some("   ".into()),
    });
    d.protegidos = vec![
        Protegido { nombre: "  ".into(), cedula: "".into(), parentesco: "x".into(), telefono: "1".into() },
        Protegido { nombre: " Sara ".into(), cedula: " 111 ".into(), parentesco: " Hija ".into(), telefono: " 3 ".into() },
    ];
    let n = normalizar(d);
    assert_eq!(n.cedula, "123");
    assert_eq!(n.nombres, "Ana");
    assert_eq!(
        n.beneficiario,
        Some(Beneficiario { nombre: "Luis".into(), cedula: "999".into(), parentesco: None })
    );
    assert_eq!(
        n.protegidos,
        vec![Protegido { nombre: "Sara".into(), cedula: "111".into(), parentesco: "Hija".into(), telefono: "3".into() }]
    );
}

#[test]
fn el_nombre_completo_une_nombres_y_apellidos() {
    assert_eq!(nombre_completo(" Ana ", " Ríos "), "Ana Ríos");
    assert_eq!(nombre_completo("Ana", "  "), "Ana");
    assert_eq!(nombre_completo("", "Ríos"), "Ríos");
    let fila = SocioResumenDto::desde_socio(
        "id".into(),
        "123".into(),
        "Ana",
        "Ríos",
        "300".into(),
        EstatusSocio::RetiradoConDeuda,
        "2026-01-01".into(),
    );
    assert_eq!(fila.nombre_completo, "Ana Ríos");
    assert_eq!(fila.estatus, "RETIRADO_CON_DEUDA");
}

#[test]
fn el_cupo_respeta_el_maximo_de_socios() {
    assert_eq!(cupo(0), (0, 19));
    assert_eq!(cupo(MAX_SOCIOS), (19, 0));
    assert_eq!(cupo(25), (25, 0));
    assert!(revisar_cupo(18).is_ok());
    assert_eq!(
        mensaje(revisar_cupo(19)),
        "El Bankomunal ya tiene 19 socios activos y el máximo permitido es 19 (RN-01)"
    );
    let dto = CupoSociosDto::de_activos(5);
    assert_eq!((dto.activos, dto.disponibles, dto.minimo, dto.maximo), (5, 14, MIN_SOCIOS, MAX_SOCIOS));
}
