//! Tipos de acción que quedan registrados en la bitácora.

use vstd::prelude::*;

verus! {

/// Cambio de un parámetro de Configuración (RF-112).
pub const MODIFICACION: &'static str = "MODIFICACION";

/// Corrección de una operación del Libro tras el Cierre de Mes (RF-90, RF-97).
pub const CORRECCION_OPERACION: &'static str = "CORRECCION_OPERACION";

/// Restauración de un archivo de respaldo (RF-113).
pub const RESTAURACION_RESPALDO: &'static str = "RESTAURACION_RESPALDO";

/// Borrado de un Bankomunal (RF-113).
pub const BORRADO_BANKOMUNAL: &'static str = "BORRADO_BANKOMUNAL";

} // verus!
