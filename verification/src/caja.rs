//! Caja y contabilidad: códigos del Libro de Ingresos y Egresos, bienes,
//! filtros y las reglas de registro y corrección de asientos.

use vstd::prelude::*;

use crate::error::ErrorNegocio;
use crate::texto::{
    espacio_unicode, esta_en_blanco, ley_en_blanco_solo_espacios, mismo_texto, recortar, recorte,
    vista_opcional,
};

verus! {

/// Códigos de operación del Libro de Ingresos y Egresos.
#[derive(Debug, Clone, Copy, PartialEq, Eq, Structural)]
pub enum CodigoOperacion {
    /// Otros Ingresos (RF-83).
    OtroIngreso,
    /// Otros Egresos (RF-84).
    OtroEgreso,
    /// Ingreso al Fondo para Gastos (RF-85); también el de las donaciones.
    IngresoFondoGastos,
    /// Gastos del Bankomunal (RF-86), pagados con el Fondo para Gastos.
    GastoBankomunal,
    /// Venta de Certificados/Acciones (RF-22).
    VentaAcciones,
    /// Liquidación de Acciones (RF-28).
    LiquidacionAcciones,
    /// Ganancias Repartidas (RF-42).
    GananciaRepartida,
    /// Desembolso de Crédito (RF-62).
    DesembolsoCredito,
    /// Intereses Ordinarios (RF-65).
    InteresOrdinario,
    /// Pago de Cuota (RF-69).
    PagoCuota,
    /// Intereses de Mora (RF-72).
    InteresMora,
    /// Pago de Deuda Pendiente (RF-74).
    PagoDeudaPendiente,
    /// Refinanciamiento (RF-79).
    Refinanciamiento,
}

/// El código con que el libro en papel nombra cada operación.
pub open spec fn texto_codigo(c: CodigoOperacion) -> Seq<char> {
    match c {
        CodigoOperacion::OtroIngreso => "OI"@,
        CodigoOperacion::OtroEgreso => "EG"@,
        CodigoOperacion::IngresoFondoGastos => "IFG"@,
        CodigoOperacion::GastoBankomunal => "GBK"@,
        CodigoOperacion::VentaAcciones => "VC"@,
        CodigoOperacion::LiquidacionAcciones => "LC"@,
        CodigoOperacion::GananciaRepartida => "UR"@,
        CodigoOperacion::DesembolsoCredito => "CON"@,
        CodigoOperacion::InteresOrdinario => "OR"@,
        CodigoOperacion::PagoCuota => "PC"@,
        CodigoOperacion::InteresMora => "MO"@,
        CodigoOperacion::PagoDeudaPendiente => "PDP"@,
        CodigoOperacion::Refinanciamiento => "COR"@,
    }
}

/// El código que nombra un texto, si nombra alguno.
pub open spec fn codigo_desde_texto(s: Seq<char>) -> Option<CodigoOperacion> {
    if s == "OI"@ {
        Some(CodigoOperacion::OtroIngreso)
    } else if s == "EG"@ {
        Some(CodigoOperacion::OtroEgreso)
    } else if s == "IFG"@ {
        Some(CodigoOperacion::IngresoFondoGastos)
    } else if s == "GBK"@ {
        Some(CodigoOperacion::GastoBankomunal)
    } else if s == "VC"@ {
        Some(CodigoOperacion::VentaAcciones)
    } else if s == "LC"@ {
        Some(CodigoOperacion::LiquidacionAcciones)
    } else if s == "UR"@ {
        Some(CodigoOperacion::GananciaRepartida)
    } else if s == "CON"@ {
        Some(CodigoOperacion::DesembolsoCredito)
    } else if s == "OR"@ {
        Some(CodigoOperacion::InteresOrdinario)
    } else if s == "PC"@ {
        Some(CodigoOperacion::PagoCuota)
    } else if s == "MO"@ {
        Some(CodigoOperacion::InteresMora)
    } else if s == "PDP"@ {
        Some(CodigoOperacion::PagoDeudaPendiente)
    } else if s == "COR"@ {
        Some(CodigoOperacion::Refinanciamiento)
    } else {
        None
    }
}

/// Si el movimiento entra dinero a la caja.
pub open spec fn es_ingreso_spec(c: CodigoOperacion) -> bool {
    match c {
        CodigoOperacion::OtroIngreso
        | CodigoOperacion::IngresoFondoGastos
        | CodigoOperacion::VentaAcciones
        | CodigoOperacion::InteresOrdinario
        | CodigoOperacion::PagoCuota
        | CodigoOperacion::InteresMora
        | CodigoOperacion::PagoDeudaPendiente => true,
        _ => false,
    }
}

/// Las cuatro operaciones que se teclean en la pantalla de Caja.
pub open spec fn registrable_spec(c: CodigoOperacion) -> bool {
    match c {
        CodigoOperacion::OtroIngreso
        | CodigoOperacion::OtroEgreso
        | CodigoOperacion::IngresoFondoGastos
        | CodigoOperacion::GastoBankomunal => true,
        _ => false,
    }
}

/// Signo con que el movimiento afecta el Fondo para Gastos.
pub open spec fn efecto_en_fondo_spec(c: CodigoOperacion) -> int {
    match c {
        CodigoOperacion::IngresoFondoGastos => 1,
        CodigoOperacion::GastoBankomunal => -1,
        _ => 0,
    }
}

impl CodigoOperacion {
    pub fn as_str(&self) -> (r: &'static str)
        ensures
            r@ == texto_codigo(*self),
    {
        match self {
            CodigoOperacion::OtroIngreso => "OI",
            CodigoOperacion::OtroEgreso => "EG",
            CodigoOperacion::IngresoFondoGastos => "IFG",
            CodigoOperacion::GastoBankomunal => "GBK",
            CodigoOperacion::VentaAcciones => "VC",
            CodigoOperacion::LiquidacionAcciones => "LC",
            CodigoOperacion::GananciaRepartida => "UR",
            CodigoOperacion::DesembolsoCredito => "CON",
            CodigoOperacion::InteresOrdinario => "OR",
            CodigoOperacion::PagoCuota => "PC",
            CodigoOperacion::InteresMora => "MO",
            CodigoOperacion::PagoDeudaPendiente => "PDP",
            CodigoOperacion::Refinanciamiento => "COR",
        }
    }

    /// El código que nombra `valor`, o `None` si no es uno del catálogo.
    pub fn desde_str(valor: &str) -> (r: Option<CodigoOperacion>)
        ensures
            r == codigo_desde_texto(valor@),
    {
        if mismo_texto(valor, "OI") {
            Some(CodigoOperacion::OtroIngreso)
        } else if mismo_texto(valor, "EG") {
            Some(CodigoOperacion::OtroEgreso)
        } else if mismo_texto(valor, "IFG") {
            Some(CodigoOperacion::IngresoFondoGastos)
        } else if mismo_texto(valor, "GBK") {
            Some(CodigoOperacion::GastoBankomunal)
        } else if mismo_texto(valor, "VC") {
            Some(CodigoOperacion::VentaAcciones)
        } else if mismo_texto(valor, "LC") {
            Some(CodigoOperacion::LiquidacionAcciones)
        } else if mismo_texto(valor, "UR") {
            Some(CodigoOperacion::GananciaRepartida)
        } else if mismo_texto(valor, "CON") {
            Some(CodigoOperacion::DesembolsoCredito)
        } else if mismo_texto(valor, "OR") {
            Some(CodigoOperacion::InteresOrdinario)
        } else if mismo_texto(valor, "PC") {
            Some(CodigoOperacion::PagoCuota)
        } else if mismo_texto(valor, "MO") {
            Some(CodigoOperacion::InteresMora)
        } else if mismo_texto(valor, "PDP") {
            Some(CodigoOperacion::PagoDeudaPendiente)
        } else if mismo_texto(valor, "COR") {
            Some(CodigoOperacion::Refinanciamiento)
        } else {
            None
        }
    }

    /// Si el movimiento entra dinero a la caja (ingreso) o sale (egreso).
    pub fn es_ingreso(&self) -> (r: bool)
        ensures
            r == es_ingreso_spec(*self),
    {
        match self {
            CodigoOperacion::OtroIngreso
            | CodigoOperacion::IngresoFondoGastos
            | CodigoOperacion::VentaAcciones
            | CodigoOperacion::InteresOrdinario
            | CodigoOperacion::PagoCuota
            | CodigoOperacion::InteresMora
            | CodigoOperacion::PagoDeudaPendiente => true,
            _ => false,
        }
    }

    /// Códigos que el usuario registra directamente desde la pantalla de Caja.
    pub fn registrable_en_caja(&self) -> (r: bool)
        ensures
            r == registrable_spec(*self),
    {
        match self {
            CodigoOperacion::OtroIngreso
            | CodigoOperacion::OtroEgreso
            | CodigoOperacion::IngresoFondoGastos
            | CodigoOperacion::GastoBankomunal => true,
            _ => false,
        }
    }

    /// Signo con que el movimiento mueve el saldo del Fondo para Gastos (RF-85,
    /// RF-86): `1` suma, `-1` resta, `0` no lo toca.
    pub fn efecto_en_fondo_gastos(&self) -> (r: i64)
        ensures
            r == efecto_en_fondo_spec(*self),
    {
        match self {
            CodigoOperacion::IngresoFondoGastos => 1,
            CodigoOperacion::GastoBankomunal => -1,
            _ => 0,
        }
    }
}

proof fn lema_textos_de_codigos()
    ensures
        "OI"@.len() == 2 && "OI"@[0] == 'O' && "OI"@[1] == 'I',
        "EG"@.len() == 2 && "EG"@[0] == 'E' && "EG"@[1] == 'G',
        "IFG"@.len() == 3 && "IFG"@[0] == 'I' && "IFG"@[1] == 'F' && "IFG"@[2] == 'G',
        "GBK"@.len() == 3 && "GBK"@[0] == 'G' && "GBK"@[1] == 'B' && "GBK"@[2] == 'K',
        "VC"@.len() == 2 && "VC"@[0] == 'V' && "VC"@[1] == 'C',
        "LC"@.len() == 2 && "LC"@[0] == 'L' && "LC"@[1] == 'C',
        "UR"@.len() == 2 && "UR"@[0] == 'U' && "UR"@[1] == 'R',
        "CON"@.len() == 3 && "CON"@[0] == 'C' && "CON"@[1] == 'O' && "CON"@[2] == 'N',
        "OR"@.len() == 2 && "OR"@[0] == 'O' && "OR"@[1] == 'R',
        "PC"@.len() == 2 && "PC"@[0] == 'P' && "PC"@[1] == 'C',
        "MO"@.len() == 2 && "MO"@[0] == 'M' && "MO"@[1] == 'O',
        "PDP"@.len() == 3 && "PDP"@[0] == 'P' && "PDP"@[1] == 'D' && "PDP"@[2] == 'P',
        "COR"@.len() == 3 && "COR"@[0] == 'C' && "COR"@[1] == 'O' && "COR"@[2] == 'R',
{
    reveal_strlit("OI");
    reveal_strlit("EG");
    reveal_strlit("IFG");
    reveal_strlit("GBK");
    reveal_strlit("VC");
    reveal_strlit("LC");
    reveal_strlit("UR");
    reveal_strlit("CON");
    reveal_strlit("OR");
    reveal_strlit("PC");
    reveal_strlit("MO");
    reveal_strlit("PDP");
    reveal_strlit("COR");
}

/// Cada código se escribe y se vuelve a leer como el mismo código.
pub proof fn ley_codigo_ida_y_vuelta(c: CodigoOperacion)
    ensures
        codigo_desde_texto(texto_codigo(c)) == Some(c),
{
    lema_textos_de_codigos();
}

/// Todo texto que se lee como un código es exactamente el texto de ese código.
pub proof fn ley_codigo_vuelta_e_ida(s: Seq<char>)
    ensures
        codigo_desde_texto(s) matches Some(c) ==> texto_codigo(c) == s,
{
}

/// Sólo los dos códigos del Fondo para Gastos lo mueven, y ambos se registran a
/// mano desde Caja.
pub proof fn ley_fondo_solo_desde_caja(c: CodigoOperacion)
    ensures
        efecto_en_fondo_spec(c) != 0 ==> registrable_spec(c),
        efecto_en_fondo_spec(c) == 1 ==> es_ingreso_spec(c),
        efecto_en_fondo_spec(c) == -1 ==> !es_ingreso_spec(c),
{
}

/// Entra dinero a la caja en las operaciones por las que el Bankomunal recibe
/// dinero: otros ingresos, aportes al Fondo para Gastos, la venta de acciones a
/// un socio, los intereses ordinarios y de mora, el pago de cuotas y el de
/// deudas pendientes. Sale en todas las demás: otros egresos, gastos del
/// Bankomunal, liquidación de acciones, ganancias repartidas, desembolsos y
/// refinanciamientos.
pub proof fn ley_sentido_del_dinero(c: CodigoOperacion)
    ensures
        es_ingreso_spec(c) <==> (c == CodigoOperacion::OtroIngreso || c
            == CodigoOperacion::IngresoFondoGastos || c == CodigoOperacion::VentaAcciones || c
            == CodigoOperacion::InteresOrdinario || c == CodigoOperacion::PagoCuota || c
            == CodigoOperacion::InteresMora || c == CodigoOperacion::PagoDeudaPendiente),
        !es_ingreso_spec(c) <==> (c == CodigoOperacion::OtroEgreso || c
            == CodigoOperacion::GastoBankomunal || c == CodigoOperacion::LiquidacionAcciones || c
            == CodigoOperacion::GananciaRepartida || c == CodigoOperacion::DesembolsoCredito || c
            == CodigoOperacion::Refinanciamiento),
{
}

/// Cada operación y su contraria mueven el dinero en sentidos opuestos: otro
/// ingreso y otro egreso, aporte al Fondo para Gastos y gasto del Bankomunal,
/// venta y liquidación de acciones, desembolso de un crédito y pago de sus
/// cuotas.
pub proof fn ley_operaciones_contrarias()
    ensures
        es_ingreso_spec(CodigoOperacion::OtroIngreso) && !es_ingreso_spec(CodigoOperacion::OtroEgreso),
        es_ingreso_spec(CodigoOperacion::IngresoFondoGastos) && !es_ingreso_spec(
            CodigoOperacion::GastoBankomunal,
        ),
        es_ingreso_spec(CodigoOperacion::VentaAcciones) && !es_ingreso_spec(
            CodigoOperacion::LiquidacionAcciones,
        ),
        es_ingreso_spec(CodigoOperacion::PagoCuota) && !es_ingreso_spec(
            CodigoOperacion::DesembolsoCredito,
        ),
{
}

/// En Caja se teclean a mano exactamente cuatro operaciones: otros ingresos,
/// otros egresos, aportes al Fondo para Gastos y gastos del Bankomunal; de cada
/// sentido, dos.
pub proof fn ley_registrables_en_caja(c: CodigoOperacion)
    ensures
        registrable_spec(c) <==> (c == CodigoOperacion::OtroIngreso || c == CodigoOperacion::OtroEgreso
            || c == CodigoOperacion::IngresoFondoGastos || c == CodigoOperacion::GastoBankomunal),
{
}

/// El Fondo para Gastos sube con los aportes, baja con los gastos del
/// Bankomunal y ninguna otra operación lo toca.
pub proof fn ley_efecto_en_el_fondo(c: CodigoOperacion)
    ensures
        efecto_en_fondo_spec(c) == (if c == CodigoOperacion::IngresoFondoGastos {
            1int
        } else if c == CodigoOperacion::GastoBankomunal {
            -1int
        } else {
            0int
        }),
{
}

/// Bien adquirido, propio o en comodato (RF-88).
#[derive(Debug, Clone, Copy, PartialEq, Eq, Structural)]
pub enum TipoBien {
    Propio,
    Comodato,
}

pub open spec fn texto_tipo_bien(t: TipoBien) -> Seq<char> {
    match t {
        TipoBien::Propio => "PROPIO"@,
        TipoBien::Comodato => "COMODATO"@,
    }
}

/// `COMODATO` se lee como comodato; cualquier otro texto, como propio.
pub open spec fn tipo_bien_desde_texto(s: Seq<char>) -> TipoBien {
    if s == "COMODATO"@ {
        TipoBien::Comodato
    } else {
        TipoBien::Propio
    }
}

impl TipoBien {
    pub fn as_str(&self) -> (r: &'static str)
        ensures
            r@ == texto_tipo_bien(*self),
    {
        match self {
            TipoBien::Propio => "PROPIO",
            TipoBien::Comodato => "COMODATO",
        }
    }

    pub fn desde_str(valor: &str) -> (r: TipoBien)
        ensures
            r == tipo_bien_desde_texto(valor@),
    {
        if mismo_texto(valor, "COMODATO") {
            TipoBien::Comodato
        } else {
            TipoBien::Propio
        }
    }
}

/// El texto de un tipo de bien se lee de vuelta como el mismo tipo.
pub proof fn ley_tipo_bien_ida_y_vuelta(t: TipoBien)
    ensures
        tipo_bien_desde_texto(texto_tipo_bien(t)) == t,
{
    reveal_strlit("PROPIO");
    reveal_strlit("COMODATO");
    assert("PROPIO"@.len() == 6);
    assert("COMODATO"@.len() == 8);
}

/// Filtro del Libro por rango de fechas (insumo de RF-104).
#[derive(Debug, Clone)]
pub struct FiltroLibro {
    pub desde: Option<String>,
    pub hasta: Option<String>,
}

impl Default for FiltroLibro {
    /// Sin filtro: todo el Libro.
    fn default() -> (r: FiltroLibro)
        ensures
            r.desde is None,
            r.hasta is None,
    {
        FiltroLibro { desde: None, hasta: None }
    }
}

/// Descripción que se guarda en el Libro: la dada, recortada; si queda vacía, el
/// nombre de la operación.
pub open spec fn descripcion_spec(codigo: CodigoOperacion, descripcion: Seq<char>) -> Seq<char> {
    let d = recorte(descripcion);
    if d.len() > 0 {
        d
    } else {
        match codigo {
            CodigoOperacion::OtroIngreso => "Otro ingreso"@,
            CodigoOperacion::OtroEgreso => "Otro egreso"@,
            CodigoOperacion::IngresoFondoGastos => "Ingreso al Fondo para Gastos"@,
            CodigoOperacion::GastoBankomunal => "Gasto del Bankomunal"@,
            otro => texto_codigo(otro),
        }
    }
}

/// Si el usuario no escribió descripción, se guarda el nombre de la operación en
/// vez de dejar la celda vacía.
pub fn descripcion_o_por_defecto(codigo: CodigoOperacion, descripcion: &str) -> (r: String)
    ensures
        r@ == descripcion_spec(codigo, descripcion@),
{
    let d = recortar(descripcion);
    if !d.as_str().is_empty() {
        return d;
    }
    let nombre = match codigo {
        CodigoOperacion::OtroIngreso => "Otro ingreso",
        CodigoOperacion::OtroEgreso => "Otro egreso",
        CodigoOperacion::IngresoFondoGastos => "Ingreso al Fondo para Gastos",
        CodigoOperacion::GastoBankomunal => "Gasto del Bankomunal",
        otro => otro.as_str(),
    };
    String::from_str(nombre)
}

/// Mensaje de una operación de otro módulo tecleada en Caja.
pub open spec fn mensaje_no_registrable(c: CodigoOperacion) -> Seq<char> {
    "La operación "@ + texto_codigo(c) + " la genera otro módulo y no se registra a mano desde Caja"@
}

/// Caja sólo registra a mano sus cuatro operaciones (RF-83 a RF-86).
pub fn revisar_registrable(codigo: CodigoOperacion) -> (r: Result<(), ErrorNegocio>)
    ensures
        registrable_spec(codigo) ==> r is Ok,
        !registrable_spec(codigo) ==> (r matches Err(ErrorNegocio::OperacionNoPermitida(m))
            && m@ == mensaje_no_registrable(codigo)),
{
    if codigo.registrable_en_caja() {
        return Ok(());
    }
    let mut m = String::from_str("La operación ");
    m.append(codigo.as_str());
    m.append(" la genera otro módulo y no se registra a mano desde Caja");
    Err(ErrorNegocio::OperacionNoPermitida(m))
}

/// Mensaje de una operación de Caja que otro módulo intenta asentar.
pub open spec fn mensaje_de_caja(c: CodigoOperacion) -> Seq<char> {
    "La operación "@ + texto_codigo(c) + " se registra desde la pantalla de Caja, no desde otro módulo"@
}

/// Los otros módulos asientan sólo sus propios códigos, nunca los de Caja.
pub fn revisar_asiento_de_modulo(codigo: CodigoOperacion) -> (r: Result<(), ErrorNegocio>)
    ensures
        !registrable_spec(codigo) ==> r is Ok,
        registrable_spec(codigo) ==> (r matches Err(ErrorNegocio::OperacionNoPermitida(m)) && m@
            == mensaje_de_caja(codigo)),
{
    if !codigo.registrable_en_caja() {
        return Ok(());
    }
    let mut m = String::from_str("La operación ");
    m.append(codigo.as_str());
    m.append(" se registra desde la pantalla de Caja, no desde otro módulo");
    Err(ErrorNegocio::OperacionNoPermitida(m))
}

/// Toda operación de Caja lleva fecha.
pub fn revisar_fecha_operacion(fecha: &str) -> (r: Result<(), ErrorNegocio>)
    ensures
        recorte(fecha@).len() > 0 ==> r is Ok,
        recorte(fecha@).len() == 0 ==> (r matches Err(ErrorNegocio::OperacionNoPermitida(m))
            && m@ == "Debe indicar la fecha de la operación"@),
{
    if esta_en_blanco(fecha) {
        Err(ErrorNegocio::OperacionNoPermitida(String::from_str("Debe indicar la fecha de la operación")))
    } else {
        Ok(())
    }
}

/// Descripción de una donación (RF-87).
pub open spec fn detalle_donacion_spec(descripcion: Seq<char>) -> Seq<char> {
    let d = recorte(descripcion);
    if d.len() == 0 {
        "Donación"@
    } else {
        "Donación — "@ + d
    }
}

/// Una donación entra como Ingreso al Fondo para Gastos con esta descripción.
pub fn detalle_donacion(descripcion: &str) -> (r: String)
    ensures
        r@ == detalle_donacion_spec(descripcion@),
{
    let d = recortar(descripcion);
    if d.as_str().is_empty() {
        String::from_str("Donación")
    } else {
        let mut r = String::from_str("Donación — ");
        r.append(d.as_str());
        r
    }
}

/// Descripción de un bien adquirido: obligatoria, y se guarda recortada.
pub fn descripcion_de_bien(descripcion: &str) -> (r: Result<String, ErrorNegocio>)
    ensures
        recorte(descripcion@).len() > 0 ==> (r matches Ok(d) && d@ == recorte(descripcion@)),
        recorte(descripcion@).len() == 0 ==> (r matches Err(ErrorNegocio::OperacionNoPermitida(m))
            && m@ == "Debe describir el bien adquirido"@),
{
    let d = recortar(descripcion);
    if d.as_str().is_empty() {
        Err(ErrorNegocio::OperacionNoPermitida(String::from_str("Debe describir el bien adquirido")))
    } else {
        Ok(d)
    }
}

/// Mensaje de una corrección sin trazabilidad sobre un mes cerrado (RF-90).
pub open spec fn mensaje_sin_trazabilidad() -> Seq<char> {
    "El mes de esta operación ya está cerrado: para corregirla debe indicar su nombre y el motivo del cambio (RF-90)"@
}

/// Quién corrige y por qué, cuando la corrección exige trazabilidad: en un mes
/// cerrado, el nombre y el motivo dados, ambos no vacíos tras recortarlos.
pub open spec fn trazabilidad_spec(
    cerrado: bool,
    nombre: Option<Seq<char>>,
    motivo: Option<Seq<char>>,
) -> Option<(Option<Seq<char>>, Option<Seq<char>>)> {
    if !cerrado {
        Some((None, None))
    } else {
        match (nombre, motivo) {
            (Some(q), Some(m)) => if recorte(q).len() > 0 && recorte(m).len() > 0 {
                Some((Some(recorte(q)), Some(recorte(m))))
            } else {
                None
            },
            _ => None,
        }
    }
}

/// RF-90: antes del cierre una corrección se admite sin más datos y no registra
/// ninguno; en un mes cerrado se admite si y sólo si se dan el nombre y el
/// motivo, cada uno con algo más que espacios, y registra esos dos textos sin
/// los espacios de los extremos.
pub proof fn ley_trazabilidad(cerrado: bool, nombre: Option<Seq<char>>, motivo: Option<Seq<char>>)
    ensures
        !cerrado ==> trazabilidad_spec(cerrado, nombre, motivo) == Some(
            (None::<Seq<char>>, None::<Seq<char>>),
        ),
        cerrado ==> (trazabilidad_spec(cerrado, nombre, motivo) is Some <==> ({
            &&& nombre matches Some(q) && exists|k: int| 0 <= k < q.len() && !espacio_unicode(#[trigger] q[k])
            &&& motivo matches Some(m) && exists|k: int| 0 <= k < m.len() && !espacio_unicode(#[trigger] m[k])
        })),
        cerrado ==> (trazabilidad_spec(cerrado, nombre, motivo) matches Some((q, m)) ==> q == Some(
            recorte(nombre.unwrap()),
        ) && m == Some(recorte(motivo.unwrap()))),
{
    if let Some(q) = nombre {
        ley_en_blanco_solo_espacios(q);
    }
    if let Some(m) = motivo {
        ley_en_blanco_solo_espacios(m);
    }
}

/// RF-90: corregir un asiento de un mes ya cerrado exige el nombre de quien
/// corrige y el motivo; antes del cierre no se exige nada. Devuelve los dos datos
/// que quedan registrados (recortados), o el rechazo.
pub fn trazabilidad_de_correccion(
    cerrado: bool,
    nombre: &Option<String>,
    motivo: &Option<String>,
) -> (r: Result<(Option<String>, Option<String>), ErrorNegocio>)
    ensures
        match trazabilidad_spec(cerrado, vista_opcional(*nombre), vista_opcional(*motivo)) {
            Some((q, m)) => r matches Ok((rq, rm)) && vista_opcional(rq) == q && vista_opcional(rm)
                == m,
            None => r matches Err(ErrorNegocio::OperacionNoPermitida(t)) && t@
                == mensaje_sin_trazabilidad(),
        },
{
    if !cerrado {
        return Ok((None, None));
    }
    match (nombre, motivo) {
        (Some(q), Some(m)) => {
            if !esta_en_blanco(q.as_str()) && !esta_en_blanco(m.as_str()) {
                return Ok((Some(recortar(q.as_str())), Some(recortar(m.as_str()))));
            }
        },
        _ => {},
    }
    Err(
        ErrorNegocio::OperacionNoPermitida(
            String::from_str(
                "El mes de esta operación ya está cerrado: para corregirla debe indicar su nombre y el motivo del cambio (RF-90)",
            ),
        ),
    )
}

} // verus!
