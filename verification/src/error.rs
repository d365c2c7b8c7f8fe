//! Errores de las reglas de negocio.

use vstd::prelude::*;

verus! {

/// Declaración del tipo de error de `bcrypt`, que viaja opaco dentro de
/// [`ErrorNegocio::Hash`].
#[verifier::external_type_specification]
#[verifier::external_body]
pub struct ExBcryptError(bcrypt::BcryptError);

/// Por qué una regla de negocio rechaza una operación.
#[derive(Debug)]
pub enum ErrorNegocio {
    /// Falla del cálculo o la verificación de un hash bcrypt.
    Hash(bcrypt::BcryptError),
    /// La contraseña genérica todavía no fue sembrada.
    NotInitialized,
    /// No existe un Bankomunal con ese nombre o id.
    BancoNoEncontrado,
    /// La clave de configuración es incorrecta.
    ClaveIncorrecta,
    /// Ya existe un Bankomunal con ese nombre.
    NombreDuplicado,
    /// El nombre del Bankomunal está vacío.
    DatosIncompletos,
    /// No hay un Bankomunal seleccionado en la sesión.
    SinBancoSeleccionado,
    /// El Bankomunal no tiene fila de configuración.
    ConfiguracionNoEncontrada,
    /// Ya existe un socio con esa cédula.
    CedulaDuplicada(String),
    /// No existe el socio pedido.
    SocioNoEncontrado,
    /// No existe la operación pedida en el Libro.
    MovimientoNoEncontrado,
    /// La operación viola una regla; el texto explica cuál.
    OperacionNoPermitida(String),
}

} // verus!
