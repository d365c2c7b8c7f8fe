//! Adaptadores de persistencia: cada uno guarda el gestor de archivos del
//! Bankomunal con que abre su base. Sus consultas SQL son E/S y las implementa la
//! aplicación sobre estos tipos.

use vstd::prelude::*;

use crate::db::DbManager;

verus! {

/// Lotes de acciones (RF-22, RF-27).
pub struct SqliteLotesAcciones {
    pub db: DbManager,
}

impl SqliteLotesAcciones {
    pub fn new(db: DbManager) -> (r: SqliteLotesAcciones)
        ensures
            r.db == db,
    {
        SqliteLotesAcciones { db }
    }
}

/// Colocaciones de los cierres mensuales, insumo del PPCFC (RN-09).
pub struct SqliteCierres {
    pub db: DbManager,
}

impl SqliteCierres {
    pub fn new(db: DbManager) -> (r: SqliteCierres)
        ensures
            r.db == db,
    {
        SqliteCierres { db }
    }
}

/// Bitácora de Auditoría (RNF-08).
pub struct SqliteAuditoria {
    pub db: DbManager,
}

impl SqliteAuditoria {
    pub fn new(db: DbManager) -> (r: SqliteAuditoria)
        ensures
            r.db == db,
    {
        SqliteAuditoria { db }
    }
}

/// Parejas clave/valor del app.db: hashes de la contraseña y de la clave de configuración.
pub struct SqliteAppSettings {
    pub db: DbManager,
}

impl SqliteAppSettings {
    pub fn new(db: DbManager) -> (r: SqliteAppSettings)
        ensures
            r.db == db,
    {
        SqliteAppSettings { db }
    }
}

/// Catálogo de Bankomunales del app.db (RF-03, RF-04, RF-08).
pub struct SqliteBancoCatalogo {
    pub db: DbManager,
}

impl SqliteBancoCatalogo {
    pub fn new(db: DbManager) -> (r: SqliteBancoCatalogo)
        ensures
            r.db == db,
    {
        SqliteBancoCatalogo { db }
    }
}

/// Libro de Ingresos y Egresos (RF-83 a RF-90).
pub struct SqliteLibro {
    pub db: DbManager,
}

impl SqliteLibro {
    pub fn new(db: DbManager) -> (r: SqliteLibro)
        ensures
            r.db == db,
    {
        SqliteLibro { db }
    }
}

/// Bienes adquiridos (RF-88).
pub struct SqliteBienes {
    pub db: DbManager,
}

impl SqliteBienes {
    pub fn new(db: DbManager) -> (r: SqliteBienes)
        ensures
            r.db == db,
    {
        SqliteBienes { db }
    }
}

/// Parámetros del Bankomunal (RF-09 a RF-13).
pub struct SqliteConfiguracion {
    pub db: DbManager,
}

impl SqliteConfiguracion {
    pub fn new(db: DbManager) -> (r: SqliteConfiguracion)
        ensures
            r.db == db,
    {
        SqliteConfiguracion { db }
    }
}

/// Solicitudes de crédito y sus garantías (RF-43 a RF-52).
pub struct SqliteSolicitudes {
    pub db: DbManager,
}

impl SqliteSolicitudes {
    pub fn new(db: DbManager) -> (r: SqliteSolicitudes)
        ensures
            r.db == db,
    {
        SqliteSolicitudes { db }
    }
}

/// Créditos desembolsados, sus cuotas y garantías (RF-53 a RF-62).
pub struct SqliteCreditos {
    pub db: DbManager,
}

impl SqliteCreditos {
    pub fn new(db: DbManager) -> (r: SqliteCreditos)
        ensures
            r.db == db,
    {
        SqliteCreditos { db }
    }
}

/// Acciones vigentes de un socio, para RN-03 y RN-04.
pub struct AccionesParaCreditoAdapter {
    pub db: DbManager,
}

impl AccionesParaCreditoAdapter {
    pub fn new(db: DbManager) -> (r: AccionesParaCreditoAdapter)
        ensures
            r.db == db,
    {
        AccionesParaCreditoAdapter { db }
    }
}

/// Socios por cédula, para validar fiadores (RF-49, RN-14).
pub struct SociosParaCreditoAdapter {
    pub db: DbManager,
}

impl SociosParaCreditoAdapter {
    pub fn new(db: DbManager) -> (r: SociosParaCreditoAdapter)
        ensures
            r.db == db,
    {
        SociosParaCreditoAdapter { db }
    }
}

/// Socios con su beneficiario y sus protegidos (RF-15 a RF-21).
pub struct SqliteSocios {
    pub db: DbManager,
}

impl SqliteSocios {
    pub fn new(db: DbManager) -> (r: SqliteSocios)
        ensures
            r.db == db,
    {
        SqliteSocios { db }
    }
}

/// Parámetros del Bankomunal que usa el módulo de Acciones.
pub struct SqliteParametrosAcciones {
    pub db: DbManager,
    /// La configuración del Bankomunal, a través de su propio adaptador.
    pub config: SqliteConfiguracion,
}

impl SqliteParametrosAcciones {
    pub fn new(db: DbManager) -> (r: SqliteParametrosAcciones)
        ensures
            r.db == db,
    {
        SqliteParametrosAcciones { config: SqliteConfiguracion::new(db.clone()), db }
    }
}

/// Saldo del Fondo para Gastos, guardado en la configuración (RF-85, RF-86).
pub struct SqliteFondoGastos {
    pub db: DbManager,
    /// La configuración del Bankomunal, a través de su propio adaptador.
    pub config: SqliteConfiguracion,
}

impl SqliteFondoGastos {
    pub fn new(db: DbManager) -> (r: SqliteFondoGastos)
        ensures
            r.db == db,
    {
        SqliteFondoGastos { config: SqliteConfiguracion::new(db.clone()), db }
    }
}

/// Parámetros del Bankomunal que usa el módulo de Créditos (RF-55, RN-03/04).
pub struct ParametrosCreditoAdapter {
    pub config: SqliteConfiguracion,
}

impl ParametrosCreditoAdapter {
    pub fn new(db: DbManager) -> (r: ParametrosCreditoAdapter)
        ensures
            r.config.db == db,
    {
        ParametrosCreditoAdapter { config: SqliteConfiguracion::new(db) }
    }
}

} // verus!
