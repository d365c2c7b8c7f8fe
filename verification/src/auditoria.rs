//! Bitácora de Auditoría (RNF-08): quién hizo qué, y por qué.

use vstd::prelude::*;

pub mod tipo_accion;

verus! {

/// Entrada de la bitácora de Auditoría (RF-112, RF-113, RF-114).
#[derive(Debug, Clone, PartialEq)]
pub struct EntradaAuditoria {
    pub id: String,
    pub fecha: String,
    /// El nombre lo escribe la persona antes de confirmar; es sólo trazabilidad.
    pub nombre_quien_realiza: String,
    pub entidad_afectada: String,
    pub campo_modificado: Option<String>,
    pub valor_anterior: Option<String>,
    pub valor_nuevo: Option<String>,
    pub motivo: Option<String>,
    pub tipo_accion: String,
}

} // verus!
