//! Acceso: contraseña genérica y clave de configuración con bcrypt, y el
//! catálogo de Bankomunales.

use vstd::prelude::*;

use crate::error::ErrorNegocio;
use crate::texto::{en_blanco, esta_en_blanco, vista_opcional};

verus! {

/// Un Bankomunal del catálogo.
#[derive(Debug, Clone, PartialEq)]
pub struct Bankomunal {
    pub id: String,
    pub nombre: String,
    pub ubicacion: String,
    pub moneda: String,
    pub fecha_creacion: String,
    pub db_path: String,
}

/// Datos requeridos para crear un nuevo Bankomunal (RF-03).
#[derive(Debug, Clone)]
pub struct NuevoBankomunal {
    pub nombre: String,
    pub ubicacion: String,
    pub moneda: String,
}

/// Lo que la pantalla de selección muestra de un Bankomunal: todo menos la ruta
/// de su archivo.
#[derive(Debug, Clone)]
pub struct BancoDto {
    pub id: String,
    pub nombre: String,
    pub ubicacion: String,
    pub moneda: String,
    pub fecha_creacion: String,
}

impl From<Bankomunal> for BancoDto {
    fn from(b: Bankomunal) -> (r: BancoDto) {
        BancoDto {
            id: b.id,
            nombre: b.nombre,
            ubicacion: b.ubicacion,
            moneda: b.moneda,
            fecha_creacion: b.fecha_creacion,
        }
    }
}

impl vstd::std_specs::convert::FromSpecImpl<Bankomunal> for BancoDto {
    open spec fn obeys_from_spec() -> bool {
        true
    }

    open spec fn from_spec(b: Bankomunal) -> BancoDto {
        BancoDto {
            id: b.id,
            nombre: b.nombre,
            ubicacion: b.ubicacion,
            moneda: b.moneda,
            fecha_creacion: b.fecha_creacion,
        }
    }
}

/// Clave de configuración inicial, documentada en el manual del usuario.
pub const DEFAULT_CLAVE_CONFIGURACION: &'static str = "admin2026";

/// Contraseña genérica de acceso inicial.
pub const DEFAULT_PASSWORD_GENERICA: &'static str = "admin2026";

/// Clave del hash de la contraseña genérica en el app.db.
pub const SETTING_PASSWORD_HASH: &'static str = "password_hash";

/// Clave del hash de la clave de configuración en el app.db.
pub const SETTING_CLAVE_CONFIG_HASH: &'static str = "clave_config_hash";

/// Nombre del resultado de `bcrypt::verify(texto, hash)`: `Some(b)` cuando la
/// verificación responde `Ok(b)`, `None` cuando responde con error (un hash mal
/// formado).
pub uninterp spec fn bcrypt_verifica(texto: Seq<char>, hash: Seq<char>) -> Option<bool>;

/// Envoltorio de `bcrypt::hash(texto, bcrypt::DEFAULT_COST)`. La sal es
/// aleatoria, así que del hash devuelto sólo se afirma que `bcrypt::verify`
/// reconoce con él el mismo texto; un error (del generador de aleatorios) no se
/// describe.
#[verifier::external_body]
fn bcrypt_hash(texto: &str) -> (r: Result<String, bcrypt::BcryptError>)
    ensures
        r matches Ok(h) ==> bcrypt_verifica(texto@, h@) == Some(true),
{
    bcrypt::hash(texto, bcrypt::DEFAULT_COST)
}

/// Envoltorio de `bcrypt::verify(texto, hash)`: su resultado es
/// [`bcrypt_verifica`] de los mismos textos.
#[verifier::external_body]
fn bcrypt_verify(texto: &str, hash: &str) -> (r: Result<bool, bcrypt::BcryptError>)
    ensures
        match bcrypt_verifica(texto@, hash@) {
            Some(b) => r matches Ok(v) && v == b,
            None => r is Err,
        },
{
    bcrypt::verify(texto, hash)
}

/// Hash y verificación de contraseñas y claves con bcrypt.
pub struct BcryptHasher;

impl BcryptHasher {
    /// Hash bcrypt de `texto` con el costo por defecto; con él, la verificación del
    /// mismo texto responde `true`.
    pub fn hash(&self, texto: &str) -> (r: Result<String, ErrorNegocio>)
        ensures
            r matches Ok(h) ==> bcrypt_verifica(texto@, h@) == Some(true),
            r is Err ==> r matches Err(ErrorNegocio::Hash(_)),
    {
        match bcrypt_hash(texto) {
            Ok(h) => Ok(h),
            Err(e) => Err(ErrorNegocio::Hash(e)),
        }
    }

    /// Si `texto` corresponde a `hash`.
    pub fn verify(&self, texto: &str, hash: &str) -> (r: Result<bool, ErrorNegocio>)
        ensures
            match bcrypt_verifica(texto@, hash@) {
                Some(b) => r matches Ok(v) && v == b,
                None => r matches Err(ErrorNegocio::Hash(_)),
            },
    {
        match bcrypt_verify(texto, hash) {
            Ok(b) => Ok(b),
            Err(e) => Err(ErrorNegocio::Hash(e)),
        }
    }
}

/// Respuesta del login (RF-01) con el hash guardado: `None` si la contraseña
/// todavía no fue sembrada; si no, lo que responde bcrypt.
pub open spec fn login_spec(guardado: Option<Seq<char>>, password: Seq<char>) -> Option<Option<bool>> {
    match guardado {
        None => None,
        Some(h) => Some(bcrypt_verifica(password, h)),
    }
}

/// RF-01 / RF-02: valida la contraseña genérica contra el hash guardado.
pub fn login(hasher: &BcryptHasher, guardado: &Option<String>, password: &str) -> (r: Result<bool, ErrorNegocio>)
    ensures
        match login_spec(vista_opcional(*guardado), password@) {
            None => r matches Err(ErrorNegocio::NotInitialized),
            Some(Some(b)) => r matches Ok(v) && v == b,
            Some(None) => r matches Err(ErrorNegocio::Hash(_)),
        },
{
    match guardado {
        None => Err(ErrorNegocio::NotInitialized),
        Some(h) => hasher.verify(password, h.as_str()),
    }
}

/// Siembra de primer uso: si la clave no tiene hash guardado, el hash nuevo que
/// hay que guardar; si ya lo tiene, nada (no se sobrescribe).
pub fn hash_a_sembrar(
    hasher: &BcryptHasher,
    guardado: &Option<String>,
    clave: &str,
) -> (r: Result<Option<String>, ErrorNegocio>)
    ensures
        guardado is Some ==> r matches Ok(None),
        guardado is None ==> match r {
            Ok(Some(h)) => bcrypt_verifica(clave@, h@) == Some(true),
            Ok(None) => false,
            Err(e) => e is Hash,
        },
{
    match guardado {
        Some(_) => Ok(None),
        None => match hasher.hash(clave) {
            Ok(h) => Ok(Some(h)),
            Err(e) => Err(e),
        },
    }
}

/// Tras sembrar la contraseña genérica, el login con ella responde `true`.
pub proof fn ley_login_tras_siembra(hash: Seq<char>)
    requires
        bcrypt_verifica(DEFAULT_PASSWORD_GENERICA@, hash) == Some(true),
    ensures
        login_spec(Some(hash), DEFAULT_PASSWORD_GENERICA@) == Some(Some(true)),
{
}

/// RF-04: un Bankomunal no se crea sin nombre.
pub fn revisar_nombre(nuevo: &NuevoBankomunal) -> (r: Result<(), ErrorNegocio>)
    ensures
        !en_blanco(nuevo.nombre@) ==> r is Ok,
        en_blanco(nuevo.nombre@) ==> r matches Err(ErrorNegocio::DatosIncompletos),
{
    if esta_en_blanco(nuevo.nombre.as_str()) {
        Err(ErrorNegocio::DatosIncompletos)
    } else {
        Ok(())
    }
}

/// RF-04: el nombre no puede repetirse entre Bankomunales.
pub fn revisar_duplicado(ya_existe: bool) -> (r: Result<(), ErrorNegocio>)
    ensures
        !ya_existe ==> r is Ok,
        ya_existe ==> r matches Err(ErrorNegocio::NombreDuplicado),
{
    if ya_existe {
        Err(ErrorNegocio::NombreDuplicado)
    } else {
        Ok(())
    }
}

/// El Bankomunal de la sesión, o el error de no haber seleccionado ninguno.
pub fn banco_actual(seleccionado: Option<String>) -> (r: Result<String, ErrorNegocio>)
    ensures
        match seleccionado {
            Some(id) => r matches Ok(v) && v == id,
            None => r matches Err(ErrorNegocio::SinBancoSeleccionado),
        },
{
    match seleccionado {
        Some(id) => Ok(id),
        None => Err(ErrorNegocio::SinBancoSeleccionado),
    }
}

/// RF-06: con un solo Bankomunal en el catálogo se entra directo a él; con
/// ninguno o con varios, no.
pub fn unico_bankomunal(lista: Vec<Bankomunal>) -> (r: Option<Bankomunal>)
    ensures
        lista@.len() == 1 ==> r == Some(lista@[0]),
        lista@.len() != 1 ==> r is None,
{
    let mut lista = lista;
    if lista.len() == 1 {
        lista.pop()
    } else {
        None
    }
}

} // verus!
