//! Créditos: catálogos, decisiones de la Junta sobre solicitudes, fiadores y
//! numeración de los créditos desembolsados.

use vstd::prelude::*;

use crate::error::ErrorNegocio;
use crate::texto::{
    con_ceros, con_relleno, espacio_unicode, esta_en_blanco, ley_en_blanco_solo_espacios, mismo_texto,
    posicion_de_texto, recorte, vista_opcional, vistas_textos,
};

verus! {

/// RN-14: todo crédito debe tener al menos un fiador que sea socio.
pub const MIN_FIADORES: usize = 1;

/// RF-48: se registran hasta 2 fiadores por solicitud.
pub const MAX_FIADORES: usize = 2;

/// Frecuencia de pago de los créditos (RF-60): mensual.
pub const FRECUENCIA_PAGO_MENSUAL: &'static str = "MENSUAL";

/// Catálogo de clases de crédito (RN-11).
#[derive(Debug, Clone, Copy, PartialEq, Eq, Structural)]
pub enum DestinoCredito {
    ArticulosHogar,
    EquiposTrabajo,
    Vivienda,
    CompraVenta,
    Educacion,
    GastosPersonales,
    Otros,
    Productivo,
    Salud,
    ServiciosPublicos,
}

pub open spec fn texto_destino(d: DestinoCredito) -> Seq<char> {
    match d {
        DestinoCredito::ArticulosHogar => "AH"@,
        DestinoCredito::EquiposTrabajo => "ARE"@,
        DestinoCredito::Vivienda => "CVR"@,
        DestinoCredito::CompraVenta => "CV"@,
        DestinoCredito::Educacion => "ED"@,
        DestinoCredito::GastosPersonales => "GP"@,
        DestinoCredito::Otros => "OT"@,
        DestinoCredito::Productivo => "PR"@,
        DestinoCredito::Salud => "SL"@,
        DestinoCredito::ServiciosPublicos => "SP"@,
    }
}

/// El destino que nombra un texto, si es uno del catálogo.
pub open spec fn destino_desde_texto(s: Seq<char>) -> Option<DestinoCredito> {
    if s == "AH"@ {
        Some(DestinoCredito::ArticulosHogar)
    } else if s == "ARE"@ {
        Some(DestinoCredito::EquiposTrabajo)
    } else if s == "CVR"@ {
        Some(DestinoCredito::Vivienda)
    } else if s == "CV"@ {
        Some(DestinoCredito::CompraVenta)
    } else if s == "ED"@ {
        Some(DestinoCredito::Educacion)
    } else if s == "GP"@ {
        Some(DestinoCredito::GastosPersonales)
    } else if s == "OT"@ {
        Some(DestinoCredito::Otros)
    } else if s == "PR"@ {
        Some(DestinoCredito::Productivo)
    } else if s == "SL"@ {
        Some(DestinoCredito::Salud)
    } else if s == "SP"@ {
        Some(DestinoCredito::ServiciosPublicos)
    } else {
        None
    }
}

impl DestinoCredito {
    pub fn as_str(&self) -> (r: &'static str)
        ensures
            r@ == texto_destino(*self),
    {
        match self {
            DestinoCredito::ArticulosHogar => "AH",
            DestinoCredito::EquiposTrabajo => "ARE",
            DestinoCredito::Vivienda => "CVR",
            DestinoCredito::CompraVenta => "CV",
            DestinoCredito::Educacion => "ED",
            DestinoCredito::GastosPersonales => "GP",
            DestinoCredito::Otros => "OT",
            DestinoCredito::Productivo => "PR",
            DestinoCredito::Salud => "SL",
            DestinoCredito::ServiciosPublicos => "SP",
        }
    }

    /// El destino que nombra `valor`; `None` si no es del catálogo (RF-47).
    pub fn desde_str(valor: &str) -> (r: Option<DestinoCredito>)
        ensures
            r == destino_desde_texto(valor@),
    {
        if mismo_texto(valor, "AH") {
            Some(DestinoCredito::ArticulosHogar)
        } else if mismo_texto(valor, "ARE") {
            Some(DestinoCredito::EquiposTrabajo)
        } else if mismo_texto(valor, "CVR") {
            Some(DestinoCredito::Vivienda)
        } else if mismo_texto(valor, "CV") {
            Some(DestinoCredito::CompraVenta)
        } else if mismo_texto(valor, "ED") {
            Some(DestinoCredito::Educacion)
        } else if mismo_texto(valor, "GP") {
            Some(DestinoCredito::GastosPersonales)
        } else if mismo_texto(valor, "OT") {
            Some(DestinoCredito::Otros)
        } else if mismo_texto(valor, "PR") {
            Some(DestinoCredito::Productivo)
        } else if mismo_texto(valor, "SL") {
            Some(DestinoCredito::Salud)
        } else if mismo_texto(valor, "SP") {
            Some(DestinoCredito::ServiciosPublicos)
        } else {
            None
        }
    }
}

proof fn lema_textos_de_destinos()
    ensures
        "AH"@.len() == 2 && "AH"@[0] == 'A' && "AH"@[1] == 'H',
        "ARE"@.len() == 3 && "ARE"@[0] == 'A' && "ARE"@[1] == 'R' && "ARE"@[2] == 'E',
        "CVR"@.len() == 3 && "CVR"@[0] == 'C' && "CVR"@[1] == 'V' && "CVR"@[2] == 'R',
        "CV"@.len() == 2 && "CV"@[0] == 'C' && "CV"@[1] == 'V',
        "ED"@.len() == 2 && "ED"@[0] == 'E' && "ED"@[1] == 'D',
        "GP"@.len() == 2 && "GP"@[0] == 'G' && "GP"@[1] == 'P',
        "OT"@.len() == 2 && "OT"@[0] == 'O' && "OT"@[1] == 'T',
        "PR"@.len() == 2 && "PR"@[0] == 'P' && "PR"@[1] == 'R',
        "SL"@.len() == 2 && "SL"@[0] == 'S' && "SL"@[1] == 'L',
        "SP"@.len() == 2 && "SP"@[0] == 'S' && "SP"@[1] == 'P',
{
    reveal_strlit("AH");
    reveal_strlit("ARE");
    reveal_strlit("CVR");
    reveal_strlit("CV");
    reveal_strlit("ED");
    reveal_strlit("GP");
    reveal_strlit("OT");
    reveal_strlit("PR");
    reveal_strlit("SL");
    reveal_strlit("SP");
}

/// Cada destino se escribe y se vuelve a leer como el mismo destino.
pub proof fn ley_destino_ida_y_vuelta(d: DestinoCredito)
    ensures
        destino_desde_texto(texto_destino(d)) == Some(d),
{
    lema_textos_de_destinos();
}

/// Decisión de la Junta sobre una solicitud (RF-50).
#[derive(Debug, Clone, Copy, PartialEq, Eq, Structural)]
pub enum EstadoSolicitud {
    Pendiente,
    Aprobada,
    Modificada,
    Negada,
    Diferida,
}

pub open spec fn texto_estado_solicitud(e: EstadoSolicitud) -> Seq<char> {
    match e {
        EstadoSolicitud::Pendiente => "PENDIENTE"@,
        EstadoSolicitud::Aprobada => "APROBADA"@,
        EstadoSolicitud::Modificada => "MODIFICADA"@,
        EstadoSolicitud::Negada => "NEGADA"@,
        EstadoSolicitud::Diferida => "DIFERIDA"@,
    }
}

/// Estado leído de un texto; uno desconocido cae en `Pendiente`.
pub open spec fn estado_solicitud_desde_texto(s: Seq<char>) -> EstadoSolicitud {
    if s == "APROBADA"@ {
        EstadoSolicitud::Aprobada
    } else if s == "MODIFICADA"@ {
        EstadoSolicitud::Modificada
    } else if s == "NEGADA"@ {
        EstadoSolicitud::Negada
    } else if s == "DIFERIDA"@ {
        EstadoSolicitud::Diferida
    } else {
        EstadoSolicitud::Pendiente
    }
}

impl EstadoSolicitud {
    pub fn as_str(&self) -> (r: &'static str)
        ensures
            r@ == texto_estado_solicitud(*self),
    {
        match self {
            EstadoSolicitud::Pendiente => "PENDIENTE",
            EstadoSolicitud::Aprobada => "APROBADA",
            EstadoSolicitud::Modificada => "MODIFICADA",
            EstadoSolicitud::Negada => "NEGADA",
            EstadoSolicitud::Diferida => "DIFERIDA",
        }
    }

    pub fn desde_str(valor: &str) -> (r: EstadoSolicitud)
        ensures
            r == estado_solicitud_desde_texto(valor@),
    {
        if mismo_texto(valor, "APROBADA") {
            EstadoSolicitud::Aprobada
        } else if mismo_texto(valor, "MODIFICADA") {
            EstadoSolicitud::Modificada
        } else if mismo_texto(valor, "NEGADA") {
            EstadoSolicitud::Negada
        } else if mismo_texto(valor, "DIFERIDA") {
            EstadoSolicitud::Diferida
        } else {
            EstadoSolicitud::Pendiente
        }
    }
}

/// El texto de un estado de solicitud se lee de vuelta como el mismo estado.
pub proof fn ley_estado_solicitud_ida_y_vuelta(e: EstadoSolicitud)
    ensures
        estado_solicitud_desde_texto(texto_estado_solicitud(e)) == e,
{
    reveal_strlit("PENDIENTE");
    reveal_strlit("APROBADA");
    reveal_strlit("MODIFICADA");
    reveal_strlit("NEGADA");
    reveal_strlit("DIFERIDA");
    assert("PENDIENTE"@.len() == 9);
    assert("APROBADA"@.len() == 8 && "APROBADA"@[0] == 'A');
    assert("MODIFICADA"@.len() == 10);
    assert("NEGADA"@.len() == 6);
    assert("DIFERIDA"@.len() == 8 && "DIFERIDA"@[0] == 'D');
}

/// Ciclo de vida de un crédito ya desembolsado.
#[derive(Debug, Clone, Copy, PartialEq, Eq, Structural)]
pub enum EstadoCredito {
    Vigente,
    Pagado,
    Refinanciado,
}

pub open spec fn texto_estado_credito(e: EstadoCredito) -> Seq<char> {
    match e {
        EstadoCredito::Vigente => "VIGENTE"@,
        EstadoCredito::Pagado => "PAGADO"@,
        EstadoCredito::Refinanciado => "REFINANCIADO"@,
    }
}

/// Estado leído de un texto; uno desconocido cae en `Vigente`.
pub open spec fn estado_credito_desde_texto(s: Seq<char>) -> EstadoCredito {
    if s == "PAGADO"@ {
        EstadoCredito::Pagado
    } else if s == "REFINANCIADO"@ {
        EstadoCredito::Refinanciado
    } else {
        EstadoCredito::Vigente
    }
}

impl EstadoCredito {
    pub fn as_str(&self) -> (r: &'static str)
        ensures
            r@ == texto_estado_credito(*self),
    {
        match self {
            EstadoCredito::Vigente => "VIGENTE",
            EstadoCredito::Pagado => "PAGADO",
            EstadoCredito::Refinanciado => "REFINANCIADO",
        }
    }

    pub fn desde_str(valor: &str) -> (r: EstadoCredito)
        ensures
            r == estado_credito_desde_texto(valor@),
    {
        if mismo_texto(valor, "PAGADO") {
            EstadoCredito::Pagado
        } else if mismo_texto(valor, "REFINANCIADO") {
            EstadoCredito::Refinanciado
        } else {
            EstadoCredito::Vigente
        }
    }
}

/// El texto de un estado de crédito se lee de vuelta como el mismo estado.
pub proof fn ley_estado_credito_ida_y_vuelta(e: EstadoCredito)
    ensures
        estado_credito_desde_texto(texto_estado_credito(e)) == e,
{
    reveal_strlit("VIGENTE");
    reveal_strlit("PAGADO");
    reveal_strlit("REFINANCIADO");
    assert("VIGENTE"@.len() == 7);
    assert("PAGADO"@.len() == 6);
    assert("REFINANCIADO"@.len() == 12);
}

/// Rol de un socio dentro de la garantía de un crédito (RF-48, RN-04).
#[derive(Debug, Clone, Copy, PartialEq, Eq, Structural)]
pub enum RolGarantia {
    Titular,
    Fiador,
}

pub open spec fn texto_rol(r: RolGarantia) -> Seq<char> {
    match r {
        RolGarantia::Titular => "TITULAR"@,
        RolGarantia::Fiador => "FIADOR"@,
    }
}

/// `FIADOR` se lee como fiador; cualquier otro texto, como titular.
pub open spec fn rol_desde_texto(s: Seq<char>) -> RolGarantia {
    if s == "FIADOR"@ {
        RolGarantia::Fiador
    } else {
        RolGarantia::Titular
    }
}

impl RolGarantia {
    pub fn as_str(&self) -> (r: &'static str)
        ensures
            r@ == texto_rol(*self),
    {
        match self {
            RolGarantia::Titular => "TITULAR",
            RolGarantia::Fiador => "FIADOR",
        }
    }

    pub fn desde_str(valor: &str) -> (r: RolGarantia)
        ensures
            r == rol_desde_texto(valor@),
    {
        if mismo_texto(valor, "FIADOR") {
            RolGarantia::Fiador
        } else {
            RolGarantia::Titular
        }
    }
}

/// El texto de un rol se lee de vuelta como el mismo rol.
pub proof fn ley_rol_ida_y_vuelta(r: RolGarantia)
    ensures
        rol_desde_texto(texto_rol(r)) == r,
{
    reveal_strlit("TITULAR");
    reveal_strlit("FIADOR");
    assert("TITULAR"@.len() == 7);
    assert("FIADOR"@.len() == 6);
}

fn rechazo<T>(m: &str) -> (r: Result<T, ErrorNegocio>)
    ensures
        r matches Err(ErrorNegocio::OperacionNoPermitida(t)) && t@ == m@,
{
    Err(ErrorNegocio::OperacionNoPermitida(String::from_str(m)))
}

/// Por qué una solicitud no admite decisión: ya tiene crédito, o ya fue decidida.
pub open spec fn error_de_decidible(estado: EstadoSolicitud, desembolsada: bool) -> Option<Seq<char>> {
    if desembolsada {
        Some("La solicitud ya tiene un crédito desembolsado"@)
    } else if estado != EstadoSolicitud::Pendiente {
        Some("La solicitud ya fue decidida: quedó "@ + texto_estado_solicitud(estado))
    } else {
        None
    }
}

/// Sólo una solicitud Pendiente y sin crédito desembolsado admite decisión de la
/// Junta (RF-50).
pub fn revisar_decidible(estado: EstadoSolicitud, desembolsada: bool) -> (r: Result<(), ErrorNegocio>)
    ensures
        match error_de_decidible(estado, desembolsada) {
            None => r is Ok,
            Some(m) => r matches Err(ErrorNegocio::OperacionNoPermitida(t)) && t@ == m,
        },
{
    if desembolsada {
        return rechazo("La solicitud ya tiene un crédito desembolsado");
    }
    if estado != EstadoSolicitud::Pendiente {
        let mut m = String::from_str("La solicitud ya fue decidida: quedó ");
        m.append(estado.as_str());
        return Err(ErrorNegocio::OperacionNoPermitida(m));
    }
    Ok(())
}

/// Por qué la Junta no puede tomar una decisión (RF-51): Diferida sin
/// observación, Modificada sin monto, Negada con monto, o una decisión que deja
/// la solicitud Pendiente.
pub open spec fn error_de_decision(
    decision: EstadoSolicitud,
    observacion: Option<Seq<char>>,
    trae_monto: bool,
) -> Option<Seq<char>> {
    match decision {
        EstadoSolicitud::Diferida => match observacion {
            Some(o) => if recorte(o).len() == 0 {
                Some("Una solicitud Diferida debe registrar la observación (RF-51)"@)
            } else {
                None
            },
            None => Some("Una solicitud Diferida debe registrar la observación (RF-51)"@),
        },
        EstadoSolicitud::Modificada => if trae_monto {
            None
        } else {
            Some("Una solicitud Modificada debe indicar el monto aprobado (RF-51)"@)
        },
        EstadoSolicitud::Negada => if trae_monto {
            Some("Una solicitud Negada no lleva monto aprobado"@)
        } else {
            None
        },
        EstadoSolicitud::Pendiente => Some(
            "La decisión debe ser Aprobada, Modificada, Negada o Diferida"@,
        ),
        EstadoSolicitud::Aprobada => None,
    }
}

/// Reglas de RF-51 sobre la decisión misma. El rango del monto de una Modificada
/// se revisa aparte, sobre el monto.
pub fn revisar_decision(
    decision: EstadoSolicitud,
    observacion: &Option<String>,
    trae_monto: bool,
) -> (r: Result<(), ErrorNegocio>)
    ensures
        match error_de_decision(decision, vista_opcional(*observacion), trae_monto) {
            None => r is Ok,
            Some(m) => r matches Err(ErrorNegocio::OperacionNoPermitida(t)) && t@ == m,
        },
{
    match decision {
        EstadoSolicitud::Diferida => {
            let en_blanco = match observacion {
                Some(o) => esta_en_blanco(o.as_str()),
                None => true,
            };
            if en_blanco {
                return rechazo("Una solicitud Diferida debe registrar la observación (RF-51)");
            }
            Ok(())
        },
        EstadoSolicitud::Modificada => {
            if !trae_monto {
                return rechazo("Una solicitud Modificada debe indicar el monto aprobado (RF-51)");
            }
            Ok(())
        },
        EstadoSolicitud::Negada => {
            if trae_monto {
                return rechazo("Una solicitud Negada no lleva monto aprobado");
            }
            Ok(())
        },
        EstadoSolicitud::Pendiente => rechazo(
            "La decisión debe ser Aprobada, Modificada, Negada o Diferida",
        ),
        EstadoSolicitud::Aprobada => Ok(()),
    }
}

/// Monto que queda aprobado tras la decisión: el dado o, si no se dio, el
/// solicitado, cuando se aprueba; el dado, cuando se modifica; ninguno en otro
/// caso.
pub open spec fn monto_aprobado_spec<T>(decision: EstadoSolicitud, dado: Option<T>, solicitado: T) -> Option<T> {
    match decision {
        EstadoSolicitud::Aprobada => match dado {
            Some(m) => Some(m),
            None => Some(solicitado),
        },
        EstadoSolicitud::Modificada => dado,
        _ => None,
    }
}

/// Monto aprobado con que queda la solicitud después de decidirla.
pub fn monto_aprobado<T: Copy>(decision: EstadoSolicitud, dado: Option<T>, solicitado: T) -> (r: Option<T>)
    ensures
        r == monto_aprobado_spec(decision, dado, solicitado),
{
    match decision {
        EstadoSolicitud::Aprobada => match dado {
            Some(m) => Some(m),
            None => Some(solicitado),
        },
        EstadoSolicitud::Modificada => dado,
        _ => None,
    }
}

/// Qué decisiones admite la Junta (RF-51): aprobar siempre; modificar sólo
/// indicando el monto; negar sólo sin monto; diferir sólo con una observación
/// que tenga algo más que espacios; dejarla Pendiente, nunca.
pub proof fn ley_decisiones_admitidas(
    decision: EstadoSolicitud,
    observacion: Option<Seq<char>>,
    trae_monto: bool,
)
    ensures
        error_de_decision(decision, observacion, trae_monto).is_none() <==> ({
            let con_texto = match observacion {
                Some(o) => exists|k: int| 0 <= k < o.len() && !espacio_unicode(#[trigger] o[k]),
                None => false,
            };
            ||| decision == EstadoSolicitud::Aprobada
            ||| decision == EstadoSolicitud::Modificada && trae_monto
            ||| decision == EstadoSolicitud::Negada && !trae_monto
            ||| decision == EstadoSolicitud::Diferida && con_texto
        }),
{
    if let Some(o) = observacion {
        ley_en_blanco_solo_espacios(o);
    }
}

/// Aprobar una solicitud siempre se admite, traiga o no un monto, y deja un
/// monto aprobado: el dado o, si no se dio, el solicitado.
pub proof fn ley_aprobar_se_admite<T>(observacion: Option<Seq<char>>, dado: Option<T>, solicitado: T)
    ensures
        error_de_decision(EstadoSolicitud::Aprobada, observacion, dado is Some).is_none(),
        monto_aprobado_spec(EstadoSolicitud::Aprobada, dado, solicitado) == Some(
            match dado {
                Some(m) => m,
                None => solicitado,
            },
        ),
{
}

/// La Junta decide sólo solicitudes Pendientes que todavía no tienen crédito.
pub proof fn ley_solo_se_decide_la_pendiente(estado: EstadoSolicitud, desembolsada: bool)
    ensures
        error_de_decidible(estado, desembolsada).is_none() <==> (estado == EstadoSolicitud::Pendiente
            && !desembolsada),
{
}

/// Tras la decisión queda monto aprobado si y sólo si se aprueba, o se modifica
/// indicando el monto; al modificar queda el monto indicado.
pub proof fn ley_monto_aprobado<T>(decision: EstadoSolicitud, dado: Option<T>, solicitado: T)
    ensures
        monto_aprobado_spec(decision, dado, solicitado) is Some <==> (decision == EstadoSolicitud::Aprobada
            || (decision == EstadoSolicitud::Modificada && dado is Some)),
        decision == EstadoSolicitud::Modificada ==> monto_aprobado_spec(decision, dado, solicitado) == dado,
{
}

/// Una decisión aceptada es definitiva: la solicitud queda en un estado que ya no
/// admite otra decisión.
pub proof fn ley_decision_definitiva(
    decision: EstadoSolicitud,
    observacion: Option<Seq<char>>,
    trae_monto: bool,
    desembolsada: bool,
)
    requires
        error_de_decision(decision, observacion, trae_monto).is_none(),
    ensures
        error_de_decidible(decision, desembolsada).is_some(),
{
}

/// Una solicitud que ya tiene crédito no admite decisión, sea cual sea su estado.
pub proof fn ley_desembolsada_no_se_decide(estado: EstadoSolicitud)
    ensures
        error_de_decidible(estado, true).is_some(),
        error_de_desembolso(estado, true).is_some(),
{
}

/// Por qué una solicitud no puede desembolsarse.
pub open spec fn error_de_desembolso(estado: EstadoSolicitud, desembolsada: bool) -> Option<Seq<char>> {
    if estado != EstadoSolicitud::Aprobada {
        Some("Sólo las solicitudes Aprobadas pueden desembolsarse; esta quedó "@ + texto_estado_solicitud(estado))
    } else if desembolsada {
        Some("La solicitud ya fue desembolsada"@)
    } else {
        None
    }
}

/// Sólo una solicitud Aprobada y sin crédito puede desembolsarse: una Negada,
/// una Diferida, una Modificada o una Pendiente nunca producen un crédito.
pub proof fn ley_solo_la_aprobada_se_desembolsa(estado: EstadoSolicitud, desembolsada: bool)
    ensures
        error_de_desembolso(estado, desembolsada).is_none() <==> (estado == EstadoSolicitud::Aprobada
            && !desembolsada),
{
}

/// Sólo una solicitud Aprobada y aún sin crédito se desembolsa (RF-54).
pub fn revisar_desembolsable(estado: EstadoSolicitud, desembolsada: bool) -> (r: Result<(), ErrorNegocio>)
    ensures
        match error_de_desembolso(estado, desembolsada) {
            None => r is Ok,
            Some(m) => r matches Err(ErrorNegocio::OperacionNoPermitida(t)) && t@ == m,
        },
{
    if estado != EstadoSolicitud::Aprobada {
        let mut m = String::from_str("Sólo las solicitudes Aprobadas pueden desembolsarse; esta quedó ");
        m.append(estado.as_str());
        return Err(ErrorNegocio::OperacionNoPermitida(m));
    }
    if desembolsada {
        return rechazo("La solicitud ya fue desembolsada");
    }
    Ok(())
}

/// El plazo es de al menos una cuota.
pub fn revisar_plazo_minimo(plazo: i64) -> (r: Result<(), ErrorNegocio>)
    ensures
        plazo >= 1 ==> r is Ok,
        plazo < 1 ==> (r matches Err(ErrorNegocio::OperacionNoPermitida(t)) && t@
            == "El plazo debe ser de al menos 1 cuota"@),
{
    if plazo < 1 {
        return rechazo("El plazo debe ser de al menos 1 cuota");
    }
    Ok(())
}

/// Mensaje de un plazo mayor al máximo del Bankomunal.
pub open spec fn mensaje_plazo_excedido(plazo: int, maximo: int) -> Seq<char> {
    "El plazo ("@ + con_relleno(plazo, 0) + " cuotas) supera el máximo del Bankomunal ("@
        + con_relleno(maximo, 0) + " cuotas)"@
}

/// El plazo no supera el máximo configurado (RF-11).
pub fn revisar_plazo_maximo(plazo: i64, maximo: i64) -> (r: Result<(), ErrorNegocio>)
    ensures
        plazo <= maximo ==> r is Ok,
        plazo > maximo ==> (r matches Err(ErrorNegocio::OperacionNoPermitida(t)) && t@
            == mensaje_plazo_excedido(plazo as int, maximo as int)),
{
    if plazo <= maximo {
        return Ok(());
    }
    let mut m = String::from_str("El plazo (");
    m.append(con_ceros(plazo, 0).as_str());
    m.append(" cuotas) supera el máximo del Bankomunal (");
    m.append(con_ceros(maximo, 0).as_str());
    m.append(" cuotas)");
    Err(ErrorNegocio::OperacionNoPermitida(m))
}

/// El plazo máximo que se configura para los créditos es de al menos una cuota
/// (RF-11).
pub fn revisar_plazo_configurado(plazo_maximo: i64) -> (r: Result<(), ErrorNegocio>)
    ensures
        plazo_maximo > 0 ==> r is Ok,
        plazo_maximo <= 0 ==> (r matches Err(ErrorNegocio::OperacionNoPermitida(t)) && t@
            == "El plazo máximo de un crédito debe ser de al menos 1 cuota"@),
{
    if plazo_maximo <= 0 {
        return rechazo("El plazo máximo de un crédito debe ser de al menos 1 cuota");
    }
    Ok(())
}

/// Cuántos fiadores trae una solicitud o un desembolso directo: entre uno (RN-14)
/// y dos (RF-48). El mensaje del exceso dice dónde se registran.
pub open spec fn error_de_cantidad_de_fiadores(n: nat, en_solicitud: bool) -> Option<Seq<char>> {
    if n < MIN_FIADORES {
        Some("Todo crédito debe tener al menos un fiador (RN-14)"@)
    } else if n > MAX_FIADORES {
        if en_solicitud {
            Some("Se registran hasta 2 fiadores por solicitud (RF-48)"@)
        } else {
            Some("Se registran hasta 2 fiadores (RF-48)"@)
        }
    } else {
        None
    }
}

/// Un crédito lleva entre uno (RN-14) y dos (RF-48) fiadores: la cantidad se
/// admite si y sólo si es 1 o 2, sea en una solicitud o en un desembolso
/// directo.
pub proof fn ley_cantidad_de_fiadores(n: nat, en_solicitud: bool)
    ensures
        error_de_cantidad_de_fiadores(n, en_solicitud).is_none() <==> (n == 1 || n == 2),
        error_de_cantidad_de_fiadores(n, en_solicitud).is_none() == error_de_cantidad_de_fiadores(
            n,
            !en_solicitud,
        ).is_none(),
{
}

pub fn revisar_cantidad_de_fiadores(n: usize, en_solicitud: bool) -> (r: Result<(), ErrorNegocio>)
    ensures
        match error_de_cantidad_de_fiadores(n as nat, en_solicitud) {
            None => r is Ok,
            Some(m) => r matches Err(ErrorNegocio::OperacionNoPermitida(t)) && t@ == m,
        },
{
    if n < MIN_FIADORES {
        return rechazo("Todo crédito debe tener al menos un fiador (RN-14)");
    }
    if n > MAX_FIADORES {
        if en_solicitud {
            return rechazo("Se registran hasta 2 fiadores por solicitud (RF-48)");
        }
        return rechazo("Se registran hasta 2 fiadores (RF-48)");
    }
    Ok(())
}

/// Un fiador propuesto, por su cédula, y el socio que se encontró con ella.
pub type VistaFiador = (Seq<char>, Option<Seq<char>>);

pub open spec fn vistas_fiadores(s: Seq<(String, Option<String>)>) -> Seq<VistaFiador> {
    s.map_values(|f: (String, Option<String>)| (f.0@, vista_opcional(f.1)))
}

pub open spec fn mensaje_fiador_no_socio(cedula: Seq<char>) -> Seq<char> {
    "El fiador con cédula «"@ + cedula + "» no es socio del Bankomunal"@
}

/// Socios fiadores de una solicitud (RF-49), en el orden dado, o el error del
/// primero que falle: que no sea socio, que sea el titular o, si se piden
/// distintos, que se repita.
pub open spec fn fiadores_spec(
    titular: Seq<char>,
    fiadores: Seq<VistaFiador>,
    sin_repetir: bool,
) -> Result<Seq<Seq<char>>, Seq<char>>
    decreases fiadores.len(),
{
    if fiadores.len() == 0 {
        Ok(Seq::empty())
    } else {
        match fiadores_spec(titular, fiadores.drop_last(), sin_repetir) {
            Err(m) => Err(m),
            Ok(ids) => {
                let (cedula, encontrado) = fiadores.last();
                match encontrado {
                    None => Err(mensaje_fiador_no_socio(cedula)),
                    Some(id) => if id == titular {
                        Err("El fiador no puede ser el mismo socio titular"@)
                    } else if sin_repetir && ids.contains(id) {
                        Err("Un mismo socio no puede repetirse como fiador"@)
                    } else {
                        Ok(ids.push(id))
                    },
                }
            },
        }
    }
}

proof fn lema_fiadores_error_se_conserva(
    titular: Seq<char>,
    fiadores: Seq<VistaFiador>,
    sin_repetir: bool,
    i: int,
)
    requires
        0 <= i <= fiadores.len(),
        fiadores_spec(titular, fiadores.subrange(0, i), sin_repetir) is Err,
    ensures
        fiadores_spec(titular, fiadores, sin_repetir) == fiadores_spec(
            titular,
            fiadores.subrange(0, i),
            sin_repetir,
        ),
    decreases fiadores.len() - i,
{
    if i == fiadores.len() {
        assert(fiadores.subrange(0, i) =~= fiadores);
    } else {
        let siguiente = fiadores.subrange(0, i + 1);
        assert(siguiente.drop_last() =~= fiadores.subrange(0, i));
        lema_fiadores_error_se_conserva(titular, fiadores, sin_repetir, i + 1);
    }
}

/// Los fiadores que se aceptan son tantos como los propuestos, ninguno es el
/// titular y, si se piden distintos, ninguno se repite.
pub proof fn ley_fiadores_aceptados(titular: Seq<char>, fiadores: Seq<VistaFiador>, sin_repetir: bool)
    ensures
        fiadores_spec(titular, fiadores, sin_repetir) matches Ok(ids) ==> {
            &&& ids.len() == fiadores.len()
            &&& !ids.contains(titular)
            &&& sin_repetir ==> ids.no_duplicates()
        },
    decreases fiadores.len(),
{
    if fiadores.len() > 0 {
        let previos = fiadores.drop_last();
        ley_fiadores_aceptados(titular, previos, sin_repetir);
        match fiadores_spec(titular, previos, sin_repetir) {
            Ok(ids) => {
                let (cedula, encontrado) = fiadores.last();
                match encontrado {
                    Some(id) => {
                        if id != titular && !(sin_repetir && ids.contains(id)) {
                            let nuevos = ids.push(id);
                            assert(!nuevos.contains(titular)) by {
                                if nuevos.contains(titular) {
                                    let k = choose|k: int| 0 <= k < nuevos.len() && nuevos[k] == titular;
                                    if k < ids.len() {
                                        assert(ids[k] == titular);
                                    }
                                }
                            }
                            if sin_repetir {
                                assert(nuevos.no_duplicates()) by {
                                    assert forall|a: int, c: int| 0 <= a < nuevos.len() && 0 <= c < nuevos.len() && a != c
                                        implies nuevos[a] != nuevos[c] by {
                                        if a < ids.len() && c < ids.len() {
                                            assert(nuevos[a] == ids[a] && nuevos[c] == ids[c]);
                                        } else if a < ids.len() {
                                            assert(nuevos[a] == ids[a]);
                                        } else {
                                            assert(nuevos[c] == ids[c]);
                                        }
                                    }
                                }
                            }
                        }
                    },
                    None => {},
                }
            },
            Err(_) => {},
        }
    }
}

/// Los fiadores propuestos se aceptan si y sólo si cada uno es socio y no es el
/// titular y, cuando se piden distintos, no hay dos que sean el mismo socio; los
/// aceptados son, en el orden dado, los socios encontrados con sus cédulas.
pub proof fn ley_fiadores_admitidos(titular: Seq<char>, fiadores: Seq<VistaFiador>, sin_repetir: bool)
    ensures
        fiadores_spec(titular, fiadores, sin_repetir) is Ok <==> {
            &&& forall|i: int|
                0 <= i < fiadores.len() ==> (#[trigger] fiadores[i]).1 is Some && fiadores[i].1.unwrap()
                    != titular
            &&& sin_repetir ==> forall|i: int, k: int|
                #![trigger fiadores[i], fiadores[k]]
                0 <= i < k < fiadores.len() ==> fiadores[i].1.unwrap() != fiadores[k].1.unwrap()
        },
        fiadores_spec(titular, fiadores, sin_repetir) matches Ok(ids) ==> ids.len() == fiadores.len()
            && forall|i: int| 0 <= i < fiadores.len() ==> #[trigger] ids[i] == fiadores[i].1.unwrap(),
    decreases fiadores.len(),
{
    if fiadores.len() > 0 {
        let p = fiadores.drop_last();
        let n = p.len() as int;
        ley_fiadores_admitidos(titular, p, sin_repetir);
        assert forall|i: int| 0 <= i < n implies #[trigger] p[i] == fiadores[i] by {}
        match fiadores_spec(titular, p, sin_repetir) {
            Ok(ids) => {
                let (cedula, encontrado) = fiadores.last();
                assert(fiadores.last() == fiadores[n]);
                match encontrado {
                    Some(id) => {
                        assert(fiadores[n].1.unwrap() == id);
                        if id != titular && sin_repetir && ids.contains(id) {
                            let k = choose|k: int| 0 <= k < ids.len() && ids[k] == id;
                            assert(ids[k] == p[k].1.unwrap());
                            assert(fiadores[k].1.unwrap() == fiadores[n].1.unwrap());
                        }
                        if id != titular && !(sin_repetir && ids.contains(id)) {
                            let nuevos = ids.push(id);
                            assert forall|i: int| 0 <= i < fiadores.len() implies (
                            #[trigger] fiadores[i]).1 is Some && fiadores[i].1.unwrap() != titular by {
                                if i < n {
                                    assert(p[i] == fiadores[i]);
                                }
                            }
                            assert forall|i: int| 0 <= i < fiadores.len() implies (
                            #[trigger] fiadores[i]).1 is Some && fiadores[i].1.unwrap() != titular by {
                                if i < n {
                                    assert(p[i] == fiadores[i]);
                                }
                            }
                            assert forall|i: int| 0 <= i < fiadores.len() implies #[trigger] nuevos[i]
                                == fiadores[i].1.unwrap() by {
                                if i < n {
                                    assert(ids[i] == p[i].1.unwrap());
                                }
                            }
                            if sin_repetir {
                                assert forall|i: int, k: int|
                                    #![trigger fiadores[i], fiadores[k]]
                                    0 <= i < k < fiadores.len() implies fiadores[i].1.unwrap()
                                    != fiadores[k].1.unwrap() by {
                                    if k == n {
                                        assert(ids[i] == fiadores[i].1.unwrap());
                                        if fiadores[i].1.unwrap() == id {
                                            assert(ids.contains(id));
                                        }
                                    } else {
                                        assert(p[i] == fiadores[i] && p[k] == fiadores[k]);
                                    }
                                }
                            }
                        }
                    },
                    None => {
                        assert(fiadores[n].1 is None);
                    },
                }
            },
            Err(_) => {
                if forall|i: int|
                    0 <= i < fiadores.len() ==> (#[trigger] fiadores[i]).1 is Some && fiadores[i].1.unwrap()
                        != titular {
                    if sin_repetir ==> forall|i: int, k: int|
                        #![trigger fiadores[i], fiadores[k]]
                        0 <= i < k < fiadores.len() ==> fiadores[i].1.unwrap() != fiadores[k].1.unwrap() {
                        assert forall|i: int| 0 <= i < n implies (#[trigger] p[i]).1 is Some && p[i].1.unwrap()
                            != titular by {
                            assert(p[i] == fiadores[i]);
                        }
                        if sin_repetir {
                            assert forall|i: int, k: int|
                                #![trigger p[i], p[k]]
                                0 <= i < k < n implies p[i].1.unwrap() != p[k].1.unwrap() by {
                                assert(p[i] == fiadores[i] && p[k] == fiadores[k]);
                            }
                        }
                    }
                }
            },
        }
    }
}

/// Resuelve los fiadores propuestos a socios (RF-49, RN-14): cada cédula debe ser
/// de un socio distinto del titular y, si `sin_repetir`, ningún socio puede
/// repetirse. Devuelve los ids de los socios fiadores en el orden dado.
pub fn resolver_fiadores(
    titular: &str,
    fiadores: &Vec<(String, Option<String>)>,
    sin_repetir: bool,
) -> (r: Result<Vec<String>, ErrorNegocio>)
    ensures
        match fiadores_spec(titular@, vistas_fiadores(fiadores@), sin_repetir) {
            Ok(ids) => r matches Ok(v) && vistas_textos(v@) == ids,
            Err(m) => r matches Err(ErrorNegocio::OperacionNoPermitida(t)) && t@ == m,
        },
{
    let ghost todos = vistas_fiadores(fiadores@);
    let mut ids: Vec<String> = Vec::new();
    let mut i: usize = 0;
    while i < fiadores.len()
        invariant
            i <= fiadores.len(),
            todos == vistas_fiadores(fiadores@),
            fiadores_spec(titular@, todos.subrange(0, i as int), sin_repetir) matches Ok(vs)
                && vistas_textos(ids@) == vs,
        decreases fiadores.len() - i,
    {
        let ghost previos = vistas_textos(ids@);
        proof {
            assert(todos.subrange(0, i + 1).drop_last() =~= todos.subrange(0, i as int));
            assert(todos.subrange(0, i + 1).last() == todos[i as int]);
            assert(todos[i as int] == (fiadores@[i as int].0@, vista_opcional(fiadores@[i as int].1)));
        }
        let (cedula, encontrado) = &fiadores[i];
        match encontrado {
            None => {
                let mut m = String::from_str("El fiador con cédula «");
                m.append(cedula.as_str());
                m.append("» no es socio del Bankomunal");
                proof {
                    lema_fiadores_error_se_conserva(titular@, todos, sin_repetir, i + 1);
                    assert(todos.subrange(0, todos.len() as int) =~= todos);
                }
                return Err(ErrorNegocio::OperacionNoPermitida(m));
            },
            Some(id) => {
                if mismo_texto(id.as_str(), titular) {
                    proof {
                        lema_fiadores_error_se_conserva(titular@, todos, sin_repetir, i + 1);
                        assert(todos.subrange(0, todos.len() as int) =~= todos);
                    }
                    return rechazo("El fiador no puede ser el mismo socio titular");
                }
                if sin_repetir && posicion_de_texto(&ids, id.as_str()).is_some() {
                    proof {
                        lema_fiadores_error_se_conserva(titular@, todos, sin_repetir, i + 1);
                        assert(todos.subrange(0, todos.len() as int) =~= todos);
                    }
                    return rechazo("Un mismo socio no puede repetirse como fiador");
                }
                let copia = String::from_str(id.as_str());
                ids.push(copia);
                proof {
                    assert(vistas_textos(ids@) =~= previos.push(id@));
                }
            },
        }
        i = i + 1;
    }
    proof {
        assert(todos.subrange(0, fiadores.len() as int) =~= todos);
    }
    Ok(ids)
}

/// RN-05: hay fiadores cruzados si algún fiador propuesto forma, con el titular y
/// en cualquier orden, un par (titular, fiador) de un crédito vigente.
pub open spec fn hay_cruce(
    pares: Seq<(Seq<char>, Seq<char>)>,
    titular: Seq<char>,
    fiadores: Seq<Seq<char>>,
) -> bool {
    exists|i: int, j: int|
        #![trigger fiadores[i], pares[j]]
        0 <= i < fiadores.len() && 0 <= j < pares.len() && (pares[j] == (fiadores[i], titular)
            || pares[j] == (titular, fiadores[i]))
}

pub open spec fn vistas_pares(s: Seq<(String, String)>) -> Seq<(Seq<char>, Seq<char>)> {
    s.map_values(|p: (String, String)| (p.0@, p.1@))
}

/// RN-05 (RF-58): sin fiadores cruzados con créditos vigentes. `pares` son los
/// pares (titular, fiador) de los créditos vigentes; cada fiador propuesto se
/// compara, con el titular, en ambos órdenes.
pub fn revisar_fiadores_cruzados(
    pares: &Vec<(String, String)>,
    titular: &str,
    fiadores: &Vec<String>,
) -> (r: Result<(), ErrorNegocio>)
    ensures
        !hay_cruce(vistas_pares(pares@), titular@, vistas_textos(fiadores@)) ==> r is Ok,
        hay_cruce(vistas_pares(pares@), titular@, vistas_textos(fiadores@)) ==> (r matches Err(
            ErrorNegocio::OperacionNoPermitida(t),
        ) && t@ == "Fiadores cruzados con un crédito vigente (RN-05)"@),
{
    let ghost ps = vistas_pares(pares@);
    let ghost fs = vistas_textos(fiadores@);
    let mut i: usize = 0;
    while i < fiadores.len()
        invariant
            i <= fiadores.len(),
            ps == vistas_pares(pares@),
            fs == vistas_textos(fiadores@),
            forall|a: int, b: int|
                #![trigger fs[a], ps[b]]
                0 <= a < i && 0 <= b < ps.len() ==> !(ps[b] == (fs[a], titular@) || ps[b] == (
                    titular@,
                    fs[a],
                )),
        decreases fiadores.len() - i,
    {
        let f = fiadores[i].as_str();
        let mut j: usize = 0;
        while j < pares.len()
            invariant
                i < fiadores.len(),
                j <= pares.len(),
                ps == vistas_pares(pares@),
                fs == vistas_textos(fiadores@),
                f@ == fs[i as int],
                forall|b: int|
                    #![trigger ps[b]]
                    0 <= b < j ==> !(ps[b] == (fs[i as int], titular@) || ps[b] == (
                        titular@,
                        fs[i as int],
                    )),
            decreases pares.len() - j,
        {
            let (a, b) = &pares[j];
            let directo = mismo_texto(a.as_str(), f) && mismo_texto(b.as_str(), titular);
            let inverso = mismo_texto(a.as_str(), titular) && mismo_texto(b.as_str(), f);
            proof {
                assert(ps[j as int] == (a@, b@));
            }
            if directo || inverso {
                proof {
                    assert(hay_cruce(ps, titular@, fs)) by {
                        assert(0 <= i < fs.len() && 0 <= j < ps.len());
                    }
                }
                return rechazo("Fiadores cruzados con un crédito vigente (RN-05)");
            }
            j = j + 1;
        }
        i = i + 1;
    }
    Ok(())
}

/// Número de un crédito nuevo (RF-53): el siguiente al mayor existente, con al
/// menos tres cifras (`format!("{:03}", maximo + 1)`).
pub fn numero_de_credito(maximo: i64) -> (r: String)
    requires
        maximo < i64::MAX,
    ensures
        r@ == con_relleno(maximo + 1, 3),
{
    con_ceros(maximo + 1, 3)
}

/// Descripción del asiento de un desembolso en el Libro (RF-62).
pub open spec fn descripcion_desembolso_spec(numero: Seq<char>, plazo: int) -> Seq<char> {
    "Desembolso crédito Nº "@ + numero + " a "@ + con_relleno(plazo, 0) + " cuotas"@
}

pub fn descripcion_desembolso(numero: &str, plazo: i64) -> (r: String)
    ensures
        r@ == descripcion_desembolso_spec(numero@, plazo as int),
{
    let mut r = String::from_str("Desembolso crédito Nº ");
    r.append(numero);
    r.append(" a ");
    r.append(con_ceros(plazo, 0).as_str());
    r.append(" cuotas");
    r
}

} // verus!
