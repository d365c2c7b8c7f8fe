//! Reglas de negocio de un Bankomunal (banco comunal): catálogos de operaciones,
//! fechas del reglamento, validación de socios, decisiones sobre créditos y la
//! trazabilidad de la caja, verificadas con Verus.

pub mod acciones;
pub mod adaptadores;
pub mod auditoria;
pub mod auth;
pub mod caja;
pub mod creditos;
pub mod db;
pub mod error;
pub mod fechas;
pub mod socios;
pub mod texto;
