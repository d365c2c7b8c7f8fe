use bankomunal::auth::{
    hash_a_sembrar, login, revisar_duplicado, revisar_nombre, unico_bankomunal, BancoDto,
    Bankomunal, BcryptHasher, NuevoBankomunal, DEFAULT_CLAVE_CONFIGURACION,
    DEFAULT_PASSWORD_GENERICA, SETTING_CLAVE_CONFIG_HASH, SETTING_PASSWORD_HASH,
};
use bankomunal::error::ErrorNegocio;

fn banco(id: &str, nombre: &str) -> Bankomunal {
    Bankomunal {
        id: id.into(),
        nombre: nombre.into(),
        ubicacion: "Pijao, Quindío".into(),
        moneda: "COP".into(),
        fecha_creacion: "2026-01-01T00:00:00".into(),
        db_path: "/datos/x.db".into(),
    }
}

#[test]
fn la_clave_sembrada_abre_la_sesion() {
    let hasher = BcryptHasher;
    let sembrado = hash_a_sembrar(&hasher, &None, DEFAULT_PASSWORD_GENERICA).unwrap();
    let hash = sembrado.expect("sin hash previo se siembra uno");
    assert!(hash.starts_with("$2b$12$"));
    assert!(login(&hasher, &Some(hash.clone()), DEFAULT_PASSWORD_GENERICA).unwrap());
    assert!(!login(&hasher, &Some(hash), "clave-mal").unwrap());
}

#[test]
fn la_siembra_no_sobrescribe() {
    let hasher = BcryptHasher;
    let previo = Some("$2b$12$ya-existe".to_string());
    assert!(hash_a_sembrar(&hasher, &previo, DEFAULT_CLAVE_CONFIGURACION).unwrap().is_none());
}

#[test]
fn sin_siembra_el_login_no_esta_inicializado() {
    assert!(matches!(login(&BcryptHasher, &None, "x"), Err(ErrorNegocio::NotInitialized)));
}

#[test]
fn un_hash_mal_formado_es_error_de_hash() {
    assert!(matches!(login(&BcryptHasher, &Some("no-es-hash".into()), "x"), Err(ErrorNegocio::Hash(_))));
    assert!(matches!(BcryptHasher.verify("x", "corto"), Err(ErrorNegocio::Hash(_))));
}

#[test]
fn las_claves_del_app_db() {
    assert_eq!(SETTING_PASSWORD_HASH, "password_hash");
    assert_eq!(SETTING_CLAVE_CONFIG_HASH, "clave_config_hash");
    assert_eq!(DEFAULT_CLAVE_CONFIGURACION, "admin2026");
}

#[test]
fn el_nombre_es_obligatorio_y_unico() {
    let nuevo = |nombre: &str| NuevoBankomunal { nombre: nombre.into(), ubicacion: "".into(), moneda: "COP".into() };
    assert!(matches!(revisar_nombre(&nuevo("   ")), Err(ErrorNegocio::DatosIncompletos)));
    assert!(matches!(revisar_nombre(&nuevo("")), Err(ErrorNegocio::DatosIncompletos)));
    assert!(revisar_nombre(&nuevo("Pijao")).is_ok());
    assert!(matches!(revisar_duplicado(true), Err(ErrorNegocio::NombreDuplicado)));
    assert!(revisar_duplicado(false).is_ok());
}

#[test]
fn con_un_solo_bankomunal_se_entra_directo() {
    assert!(unico_bankomunal(vec![]).is_none());
    let unico = unico_bankomunal(vec![banco("b1", "Único")]).unwrap();
    assert_eq!(unico.id, "b1");
    assert!(unico_bankomunal(vec![banco("b1", "A"), banco("b2", "B")]).is_none());
}

#[test]
fn el_dto_no_expone_la_ruta() {
    let dto = BancoDto::from(banco("b1", "Pijao"));
    assert_eq!(dto.id, "b1");
    assert_eq!(dto.nombre, "Pijao");
    assert_eq!(dto.moneda, "COP");
    assert_eq!(dto.fecha_creacion, "2026-01-01T00:00:00");
}

#[test]
fn sin_banco_seleccionado_no_hay_sesion() {
    assert!(matches!(bankomunal::auth::banco_actual(None), Err(ErrorNegocio::SinBancoSeleccionado)));
    assert_eq!(bankomunal::auth::banco_actual(Some("b1".into())).unwrap(), "b1");
}
