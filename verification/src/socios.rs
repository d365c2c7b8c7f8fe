//! Socios: estatus, planilla de registro (normalización y validación) y cupo.

use vstd::prelude::*;

use crate::error::ErrorNegocio;
use crate::texto::{
    decimal, en_decimal, es_espacio, espacio_unicode, esta_en_blanco, ley_en_blanco_solo_espacios,
    mismo_texto, recortar, recorte,
};

verus! {

/// RN-01: mínimo de socios de un Bankomunal.
pub const MIN_SOCIOS: usize = 8;

/// RN-01: máximo de socios de un Bankomunal; es un tope duro al registrar.
pub const MAX_SOCIOS: usize = 19;

/// RF-21: protegidos del fondo de protección que admite la planilla.
pub const MAX_PROTEGIDOS: usize = 2;

/// Estatus de un socio a lo largo de su ciclo de vida.
#[derive(Debug, Clone, Copy, PartialEq, Eq, Structural)]
pub enum EstatusSocio {
    Activo,
    RetiradoVoluntario,
    RetiradoConDeuda,
    RetiradoDeudaSaldada,
}

/// Texto con que se guarda cada estatus.
pub open spec fn texto_estatus(e: EstatusSocio) -> Seq<char> {
    match e {
        EstatusSocio::Activo => "ACTIVO"@,
        EstatusSocio::RetiradoVoluntario => "RETIRADO_VOLUNTARIO"@,
        EstatusSocio::RetiradoConDeuda => "RETIRADO_CON_DEUDA"@,
        EstatusSocio::RetiradoDeudaSaldada => "RETIRADO_DEUDA_SALDADA"@,
    }
}

/// Estatus leído de un texto: los tres de retiro por su nombre; cualquier otro
/// texto cae en `Activo`.
pub open spec fn estatus_desde_texto(s: Seq<char>) -> EstatusSocio {
    if s == "RETIRADO_VOLUNTARIO"@ {
        EstatusSocio::RetiradoVoluntario
    } else if s == "RETIRADO_CON_DEUDA"@ {
        EstatusSocio::RetiradoConDeuda
    } else if s == "RETIRADO_DEUDA_SALDADA"@ {
        EstatusSocio::RetiradoDeudaSaldada
    } else {
        EstatusSocio::Activo
    }
}

impl EstatusSocio {
    pub fn as_str(&self) -> (r: &'static str)
        ensures
            r@ == texto_estatus(*self),
    {
        match self {
            EstatusSocio::Activo => "ACTIVO",
            EstatusSocio::RetiradoVoluntario => "RETIRADO_VOLUNTARIO",
            EstatusSocio::RetiradoConDeuda => "RETIRADO_CON_DEUDA",
            EstatusSocio::RetiradoDeudaSaldada => "RETIRADO_DEUDA_SALDADA",
        }
    }

    /// Convierte el texto guardado; un valor desconocido se degrada a `Activo`.
    pub fn desde_str(valor: &str) -> (r: EstatusSocio)
        ensures
            r == estatus_desde_texto(valor@),
    {
        if mismo_texto(valor, "RETIRADO_VOLUNTARIO") {
            EstatusSocio::RetiradoVoluntario
        } else if mismo_texto(valor, "RETIRADO_CON_DEUDA") {
            EstatusSocio::RetiradoConDeuda
        } else if mismo_texto(valor, "RETIRADO_DEUDA_SALDADA") {
            EstatusSocio::RetiradoDeudaSaldada
        } else {
            EstatusSocio::Activo
        }
    }

    /// Todo estatus distinto de `Activo` es un retiro.
    pub fn esta_retirado(&self) -> (r: bool)
        ensures
            r == (*self != EstatusSocio::Activo),
    {
        match self {
            EstatusSocio::Activo => false,
            _ => true,
        }
    }
}

/// El texto de un estatus se lee de vuelta como el mismo estatus.
pub proof fn ley_estatus_ida_y_vuelta(e: EstatusSocio)
    ensures
        estatus_desde_texto(texto_estatus(e)) == e,
{
    reveal_strlit("ACTIVO");
    reveal_strlit("RETIRADO_VOLUNTARIO");
    reveal_strlit("RETIRADO_CON_DEUDA");
    reveal_strlit("RETIRADO_DEUDA_SALDADA");
    assert("ACTIVO"@.len() == 6);
    assert("RETIRADO_VOLUNTARIO"@.len() == 19);
    assert("RETIRADO_CON_DEUDA"@.len() == 18);
    assert("RETIRADO_DEUDA_SALDADA"@.len() == 22);
}

/// Beneficiario en caso de muerte del socio (RF-20).
#[derive(Debug, Clone, PartialEq)]
pub struct Beneficiario {
    pub nombre: String,
    pub cedula: String,
    pub parentesco: Option<String>,
}

/// Protegido del fondo de protección (RF-21).
#[derive(Debug, Clone, PartialEq)]
pub struct Protegido {
    pub nombre: String,
    pub cedula: String,
    pub parentesco: String,
    pub telefono: String,
}

/// Datos del formulario de socio, al crear (RF-15) y al actualizar (RF-19).
#[derive(Debug, Clone)]
pub struct DatosSocio {
    pub cedula: String,
    pub nombres: String,
    pub apellidos: String,
    pub profesion: String,
    pub direccion: String,
    pub telefono: String,
    pub celular: String,
    pub correo: String,
    pub beneficiario: Option<Beneficiario>,
    pub protegidos: Vec<Protegido>,
}

/// Un protegido visto como sus cuatro textos.
pub type VistaProtegido = (Seq<char>, Seq<char>, Seq<char>, Seq<char>);

pub open spec fn vista_protegido(p: Protegido) -> VistaProtegido {
    (p.nombre@, p.cedula@, p.parentesco@, p.telefono@)
}

pub open spec fn vistas_protegidos(s: Seq<Protegido>) -> Seq<VistaProtegido> {
    s.map_values(|p: Protegido| vista_protegido(p))
}

/// Los protegidos con sus textos recortados, sin las filas que quedaron sin
/// nombre ni cédula.
pub open spec fn protegidos_normalizados(s: Seq<Protegido>) -> Seq<VistaProtegido>
    decreases s.len(),
{
    if s.len() == 0 {
        Seq::empty()
    } else {
        let previos = protegidos_normalizados(s.drop_last());
        let p = s.last();
        let v = (recorte(p.nombre@), recorte(p.cedula@), recorte(p.parentesco@), recorte(p.telefono@));
        if v.0.len() == 0 && v.1.len() == 0 {
            previos
        } else {
            previos.push(v)
        }
    }
}

/// Beneficiario normalizado: nombre y cédula recortados, parentesco recortado
/// (uno en blanco se descarta); si nombre y cédula quedan vacíos, no hay
/// beneficiario.
pub open spec fn beneficiario_normalizado(
    b: Option<Beneficiario>,
    r: Option<Beneficiario>,
) -> bool {
    match b {
        None => r is None,
        Some(b) => {
            let nombre = recorte(b.nombre@);
            let cedula = recorte(b.cedula@);
            if nombre.len() == 0 && cedula.len() == 0 {
                r is None
            } else {
                &&& r is Some
                &&& r->0.nombre@ == nombre
                &&& r->0.cedula@ == cedula
                &&& match b.parentesco {
                    None => r->0.parentesco is None,
                    Some(p) => if recorte(p@).len() == 0 {
                        r->0.parentesco is None
                    } else {
                        r->0.parentesco is Some && r->0.parentesco->0@ == recorte(p@)
                    },
                }
            }
        },
    }
}

fn normalizar_beneficiario(b: Option<Beneficiario>) -> (r: Option<Beneficiario>)
    ensures
        beneficiario_normalizado(b, r),
{
    match b {
        None => None,
        Some(b) => {
            let nombre = recortar(b.nombre.as_str());
            let cedula = recortar(b.cedula.as_str());
            let parentesco = match b.parentesco {
                None => None,
                Some(p) => {
                    let q = recortar(p.as_str());
                    if q.as_str().is_empty() {
                        None
                    } else {
                        Some(q)
                    }
                },
            };
            if nombre.as_str().is_empty() && cedula.as_str().is_empty() {
                None
            } else {
                Some(Beneficiario { nombre, cedula, parentesco })
            }
        },
    }
}

fn normalizar_protegidos(s: &Vec<Protegido>) -> (r: Vec<Protegido>)
    ensures
        vistas_protegidos(r@) == protegidos_normalizados(s@),
{
    let mut r: Vec<Protegido> = Vec::new();
    let mut i: usize = 0;
    while i < s.len()
        invariant
            i <= s.len(),
            vistas_protegidos(r@) == protegidos_normalizados(s@.subrange(0, i as int)),
        decreases s.len() - i,
    {
        let p = &s[i];
        let q = Protegido {
            nombre: recortar(p.nombre.as_str()),
            cedula: recortar(p.cedula.as_str()),
            parentesco: recortar(p.parentesco.as_str()),
            telefono: recortar(p.telefono.as_str()),
        };
        let ghost antes = r@;
        proof {
            assert(s@.subrange(0, i + 1).drop_last() =~= s@.subrange(0, i as int));
            assert(s@.subrange(0, i + 1).last() == s@[i as int]);
        }
        if !(q.nombre.as_str().is_empty() && q.cedula.as_str().is_empty()) {
            r.push(q);
            proof {
                assert(vistas_protegidos(r@) =~= vistas_protegidos(antes).push(vista_protegido(q)));
            }
        }
        i = i + 1;
    }
    proof {
        assert(s@.subrange(0, s.len() as int) =~= s@);
    }
    r
}

/// Una fila de protegido que trae algo más que espacios en el nombre o en la
/// cédula.
pub open spec fn fila_con_datos() -> spec_fn(Protegido) -> bool {
    |p: Protegido|
        (exists|k: int| 0 <= k < p.nombre@.len() && !espacio_unicode(#[trigger] p.nombre@[k])) || (exists|
            k: int,
        |
            0 <= k < p.cedula@.len() && !espacio_unicode(#[trigger] p.cedula@[k]))
}

/// Los cuatro textos de un protegido, sin los espacios de los extremos.
pub open spec fn fila_recortada() -> spec_fn(Protegido) -> VistaProtegido {
    |p: Protegido| (recorte(p.nombre@), recorte(p.cedula@), recorte(p.parentesco@), recorte(p.telefono@))
}

/// Normalizar los protegidos conserva, en su orden, exactamente las filas que
/// traen algo más que espacios en el nombre o en la cédula, y recorta sus
/// cuatro textos.
pub proof fn ley_protegidos_normalizados(s: Seq<Protegido>)
    ensures
        protegidos_normalizados(s) == s.filter(fila_con_datos()).map_values(fila_recortada()),
    decreases s.len(),
{
    if s.len() > 0 {
        let previos = s.drop_last();
        let x = s.last();
        ley_protegidos_normalizados(previos);
        ley_en_blanco_solo_espacios(x.nombre@);
        ley_en_blanco_solo_espacios(x.cedula@);
        let f = previos.filter(fila_con_datos());
        assert(previos.push(x) =~= s);
        previos.lemma_filter_push(x, fila_con_datos());
        assert(s.filter(fila_con_datos()) == if fila_con_datos()(x) {
            f.push(x)
        } else {
            f
        });
        if fila_con_datos()(x) {
            assert(f.push(x).map_values(fila_recortada()) =~= f.map_values(fila_recortada()).push(
                fila_recortada()(x),
            ));
        }
    } else {
        reveal(Seq::filter);
        assert(s.filter(fila_con_datos()).map_values(fila_recortada()) =~= Seq::<VistaProtegido>::empty());
    }
}

/// Un beneficiario normalizado existe si y sólo si se dio uno con algo más que
/// espacios en el nombre o en la cédula; entonces lleva esos dos textos
/// recortados.
pub proof fn ley_beneficiario_normalizado(b: Option<Beneficiario>, r: Option<Beneficiario>)
    requires
        beneficiario_normalizado(b, r),
    ensures
        r is Some <==> match b {
            Some(x) => (exists|k: int| 0 <= k < x.nombre@.len() && !espacio_unicode(#[trigger] x.nombre@[k]))
                || (exists|k: int| 0 <= k < x.cedula@.len() && !espacio_unicode(#[trigger] x.cedula@[k])),
            None => false,
        },
        r matches Some(y) ==> y.nombre@ == recorte(b.unwrap().nombre@) && y.cedula@ == recorte(
            b.unwrap().cedula@,
        ),
{
    if let Some(x) = b {
        ley_en_blanco_solo_espacios(x.nombre@);
        ley_en_blanco_solo_espacios(x.cedula@);
    }
}

/// Limpia espacios sobrantes antes de validar y guardar: recorta cada texto,
/// descarta un beneficiario en blanco y las filas de protegidos vacías.
pub fn normalizar(datos: DatosSocio) -> (r: DatosSocio)
    ensures
        r.cedula@ == recorte(datos.cedula@),
        r.nombres@ == recorte(datos.nombres@),
        r.apellidos@ == recorte(datos.apellidos@),
        r.profesion@ == recorte(datos.profesion@),
        r.direccion@ == recorte(datos.direccion@),
        r.telefono@ == recorte(datos.telefono@),
        r.celular@ == recorte(datos.celular@),
        r.correo@ == recorte(datos.correo@),
        beneficiario_normalizado(datos.beneficiario, r.beneficiario),
        vistas_protegidos(r.protegidos@) == protegidos_normalizados(datos.protegidos@),
{
    let protegidos = normalizar_protegidos(&datos.protegidos);
    let beneficiario = normalizar_beneficiario(datos.beneficiario);
    DatosSocio {
        cedula: recortar(datos.cedula.as_str()),
        nombres: recortar(datos.nombres.as_str()),
        apellidos: recortar(datos.apellidos.as_str()),
        profesion: recortar(datos.profesion.as_str()),
        direccion: recortar(datos.direccion.as_str()),
        telefono: recortar(datos.telefono.as_str()),
        celular: recortar(datos.celular.as_str()),
        correo: recortar(datos.correo.as_str()),
        beneficiario,
        protegidos,
    }
}

/// Cifra ASCII `0`..`9`.
pub open spec fn es_digito(c: char) -> bool {
    '0' <= c <= '9'
}

/// Texto no vacío hecho sólo de cifras ASCII.
pub open spec fn solo_digitos_spec(s: Seq<char>) -> bool {
    s.len() > 0 && forall|k: int| 0 <= k < s.len() ==> es_digito(#[trigger] s[k])
}

/// `!valor.is_empty() && valor.chars().all(|c| c.is_ascii_digit())`.
pub fn solo_digitos(valor: &str) -> (r: bool)
    ensures
        r == solo_digitos_spec(valor@),
{
    let n = valor.unicode_len();
    if n == 0 {
        return false;
    }
    let mut i: usize = 0;
    while i < n
        invariant
            n == valor@.len(),
            i <= n,
            forall|k: int| 0 <= k < i ==> es_digito(#[trigger] valor@[k]),
        decreases n - i,
    {
        let c = valor.get_char(i);
        if !('0' <= c && c <= '9') {
            return false;
        }
        i = i + 1;
    }
    true
}

pub open spec fn sin_arroba(t: Seq<char>) -> bool {
    forall|k: int| 0 <= k < t.len() ==> #[trigger] t[k] != '@'
}

pub open spec fn sin_espacios(t: Seq<char>) -> bool {
    forall|k: int| 0 <= k < t.len() ==> !espacio_unicode(#[trigger] t[k])
}

/// Forma de un correo partido en su única `@`: usuario no vacío, dominio con un
/// punto que no esté ni al inicio ni al final.
pub open spec fn partes_de_correo(usuario: Seq<char>, dominio: Seq<char>) -> bool {
    &&& usuario.len() > 0
    &&& dominio.contains('.')
    &&& dominio[0] != '.'
    &&& dominio.last() != '.'
}

/// Un texto tiene forma de correo si tiene exactamente una `@`, partes válidas a
/// cada lado y ningún espacio.
pub open spec fn parece_correo_spec(s: Seq<char>) -> bool {
    &&& exists|i: int|
        #![trigger s[i]]
        0 <= i < s.len() && s[i] == '@' && sin_arroba(s.take(i)) && sin_arroba(s.skip(i + 1))
            && partes_de_correo(s.take(i), s.skip(i + 1))
    &&& sin_espacios(s)
}

/// Forma de un correo en posiciones: una sola `@`, que no es el primer
/// carácter; tras ella, un dominio que no empieza ni termina en `.` y tiene un
/// `.` en medio; y ningún espacio en todo el texto.
pub open spec fn correo_por_posiciones(s: Seq<char>) -> bool {
    &&& exists|i: int|
        #![trigger s[i]]
        {
            &&& 0 < i && i + 1 < s.len() && s[i] == '@'
            &&& forall|k: int| 0 <= k < s.len() && k != i ==> #[trigger] s[k] != '@'
            &&& s[i + 1] != '.' && s[s.len() - 1] != '.'
            &&& exists|j: int| i + 1 < j < s.len() - 1 && #[trigger] s[j] == '.'
        }
    &&& forall|k: int| 0 <= k < s.len() ==> !espacio_unicode(#[trigger] s[k])
}

/// Qué textos acepta la comprobación de correo: exactamente los que tienen una
/// única `@` con algo antes, después un dominio con un `.` interior que no
/// empieza ni termina en `.`, y ningún espacio.
pub proof fn ley_forma_de_correo(s: Seq<char>)
    ensures
        parece_correo_spec(s) <==> correo_por_posiciones(s),
{
    if parece_correo_spec(s) {
        let i = choose|i: int|
            #![trigger s[i]]
            0 <= i < s.len() && s[i] == '@' && sin_arroba(s.take(i)) && sin_arroba(s.skip(i + 1))
                && partes_de_correo(s.take(i), s.skip(i + 1));
        let u = s.take(i);
        let d = s.skip(i + 1);
        let j0 = choose|j: int| 0 <= j < d.len() && d[j] == '.';
        assert(d[0] == s[i + 1]);
        assert(d.last() == s[s.len() - 1]);
        assert(d[j0] == s[j0 + i + 1]);
        assert forall|k: int| 0 <= k < s.len() && k != i implies #[trigger] s[k] != '@' by {
            if k < i {
                assert(u[k] == s[k]);
            } else {
                assert(d[k - i - 1] == s[k]);
            }
        }
        assert(exists|j: int| i + 1 < j < s.len() - 1 && #[trigger] s[j] == '.') by {
            assert(s[j0 + i + 1] == '.');
        }
    }
    if correo_por_posiciones(s) {
        let i = choose|i: int|
            #![trigger s[i]]
            {
                &&& 0 < i && i + 1 < s.len() && s[i] == '@'
                &&& forall|k: int| 0 <= k < s.len() && k != i ==> #[trigger] s[k] != '@'
                &&& s[i + 1] != '.' && s[s.len() - 1] != '.'
                &&& exists|j: int| i + 1 < j < s.len() - 1 && #[trigger] s[j] == '.'
            };
        let j = choose|j: int| i + 1 < j < s.len() - 1 && #[trigger] s[j] == '.';
        let u = s.take(i);
        let d = s.skip(i + 1);
        assert forall|k: int| 0 <= k < u.len() implies #[trigger] u[k] != '@' by {
            assert(u[k] == s[k]);
        }
        assert forall|k: int| 0 <= k < d.len() implies #[trigger] d[k] != '@' by {
            assert(d[k] == s[k + i + 1]);
        }
        assert(d[j - i - 1] == '.');
        assert(d[0] == s[i + 1]);
        assert(d.last() == s[s.len() - 1]);
        assert(partes_de_correo(u, d));
    }
}

/// Comprobación mínima de que un correo tiene forma de correo.
pub fn parece_correo(valor: &str) -> (r: bool)
    ensures
        r == parece_correo_spec(valor@),
{
    let ghost s = valor@;
    let n = valor.unicode_len();
    // Primera `@`.
    let mut i: usize = 0;
    while i < n && valor.get_char(i) != '@'
        invariant
            n == s.len(),
            s == valor@,
            i <= n,
            forall|k: int| 0 <= k < i ==> s[k] != '@',
        decreases n - i,
    {
        i = i + 1;
    }
    if i == n {
        proof {
            assert forall|j: int| 0 <= j < s.len() && s[j] == '@' implies false by {}
        }
        return false;
    }
    assert(sin_arroba(s.take(i as int)));
    // Ninguna otra `@`, y detalles del dominio.
    let mut j: usize = i + 1;
    let mut hay_punto = false;
    while j < n
        invariant
            n == s.len(),
            s == valor@,
            i < n,
            s[i as int] == '@',
            forall|k: int| 0 <= k < i ==> s[k] != '@',
            i + 1 <= j <= n,
            forall|k: int| i < k < j ==> s[k] != '@',
            hay_punto == (exists|k: int| i < k < j && s[k] == '.'),
        decreases n - j,
    {
        let c = valor.get_char(j);
        if c == '@' {
            proof {
                assert forall|m: int| 0 <= m < s.len() && s[m] == '@' && sin_arroba(s.take(m))
                    && sin_arroba(s.skip(m + 1)) implies false by {
                    if m < i {
                        assert(s.take(i as int)[m] == s[m]);
                    } else if m == i {
                        assert(s.skip(m + 1)[j - m - 1] == s[j as int]);
                    } else {
                        assert(s.take(m)[i as int] == s[i as int]);
                    }
                }
            }
            return false;
        }
        if c == '.' {
            hay_punto = true;
        }
        j = j + 1;
    }
    let ghost usuario = s.take(i as int);
    let ghost dominio = s.skip(i + 1);
    proof {
        assert(sin_arroba(dominio)) by {
            assert forall|k: int| 0 <= k < dominio.len() implies #[trigger] dominio[k] != '@' by {
                assert(dominio[k] == s[k + i + 1]);
            }
        }
        assert(hay_punto == dominio.contains('.')) by {
            if hay_punto {
                let k = choose|k: int| i < k < n && s[k] == '.';
                assert(dominio[k - i - 1] == '.');
            }
            if dominio.contains('.') {
                let k = choose|k: int| 0 <= k < dominio.len() && dominio[k] == '.';
                assert(s[k + i + 1] == '.');
            }
        }
    }
    let forma = i > 0 && hay_punto && valor.get_char(i + 1) != '.' && valor.get_char(n - 1) != '.';
    proof {
        if hay_punto {
            assert(dominio[0] == s[i + 1]);
            assert(dominio.last() == s[n - 1]);
        }
        assert(forma == partes_de_correo(usuario, dominio));
    }
    // Ningún espacio en todo el texto.
    let mut k: usize = 0;
    while k < n
        invariant
            n == s.len(),
            s == valor@,
            k <= n,
            forall|m: int| 0 <= m < k ==> !espacio_unicode(#[trigger] s[m]),
        decreases n - k,
    {
        if es_espacio(valor.get_char(k)) {
            return false;
        }
        k = k + 1;
    }
    proof {
        let arroba = i as int;
        assert(s[arroba] == '@');
        assert forall|m: int| #![trigger s[m]]
            0 <= m < s.len() && s[m] == '@' && sin_arroba(s.take(m)) && sin_arroba(s.skip(m + 1))
            implies m == arroba by {
            if m < arroba {
                assert(s.take(arroba)[m] == s[m]);
            } else if m > arroba {
                assert(s.take(m)[arroba] == s[arroba]);
            }
        }
    }
    forma
}

/// Primer error de un protegido, si lo tiene.
pub open spec fn error_de_protegido(p: Protegido) -> Option<Seq<char>> {
    if recorte(p.nombre@).len() == 0 || recorte(p.cedula@).len() == 0 {
        Some("Cada protegido debe tener al menos nombre y cédula"@)
    } else if !solo_digitos_spec(p.cedula@) || (p.telefono@.len() > 0 && !solo_digitos_spec(
        p.telefono@,
    )) {
        Some("La cédula y el teléfono de los protegidos sólo admiten números"@)
    } else {
        None
    }
}

/// Error del primer protegido que lo tenga, en orden.
pub open spec fn error_de_protegidos(s: Seq<Protegido>) -> Option<Seq<char>>
    decreases s.len(),
{
    if s.len() == 0 {
        None
    } else {
        match error_de_protegido(s[0]) {
            Some(m) => Some(m),
            None => error_de_protegidos(s.drop_first()),
        }
    }
}

proof fn lema_error_de_protegidos(s: Seq<Protegido>, i: int)
    requires
        0 <= i <= s.len(),
        forall|k: int| 0 <= k < i ==> error_de_protegido(#[trigger] s[k]).is_none(),
    ensures
        i == s.len() ==> error_de_protegidos(s).is_none(),
        i < s.len() && error_de_protegido(s[i]).is_some() ==> error_de_protegidos(s)
            == error_de_protegido(s[i]),
    decreases i,
{
    if i > 0 {
        let t = s.drop_first();
        assert forall|k: int| 0 <= k < i - 1 implies error_de_protegido(#[trigger] t[k]).is_none() by {
            assert(t[k] == s[k + 1]);
        }
        assert(error_de_protegido(s[0]).is_none());
        lema_error_de_protegidos(t, i - 1);
        if i < s.len() {
            assert(t[i - 1] == s[i]);
        }
    }
}

/// Error del beneficiario, si lo tiene.
pub open spec fn error_de_beneficiario(b: Option<Beneficiario>) -> Option<Seq<char>> {
    match b {
        None => None,
        Some(b) => if recorte(b.nombre@).len() == 0 || recorte(b.cedula@).len() == 0 {
            Some("El beneficiario en caso de muerte debe tener nombre y cédula (RF-20)"@)
        } else if !solo_digitos_spec(b.cedula@) {
            Some("La cédula del beneficiario sólo admite números"@)
        } else {
            None
        },
    }
}

/// Un campo numérico opcional: vacío o sólo cifras.
pub open spec fn numero_opcional(s: Seq<char>) -> bool {
    s.len() == 0 || solo_digitos_spec(s)
}

/// Primer error de la planilla, en el orden en que se revisa: cédula, nombres y
/// apellidos presentes; correo con forma de correo; cédula y teléfonos numéricos;
/// a lo sumo dos protegidos, cada uno completo; beneficiario completo.
pub open spec fn error_de_socio(d: DatosSocio) -> Option<Seq<char>> {
    if d.cedula@.len() == 0 {
        Some("Debe indicar la cédula del socio"@)
    } else if d.nombres@.len() == 0 {
        Some("Debe indicar los nombres del socio"@)
    } else if d.apellidos@.len() == 0 {
        Some("Debe indicar los apellidos del socio"@)
    } else if d.correo@.len() > 0 && !parece_correo_spec(d.correo@) {
        Some("El correo electrónico debe tener el formato nombre@dominio.com"@)
    } else if !numero_opcional(d.cedula@) {
        Some("La cédula sólo admite números"@)
    } else if !numero_opcional(d.telefono@) {
        Some("El teléfono sólo admite números"@)
    } else if !numero_opcional(d.celular@) {
        Some("El celular sólo admite números"@)
    } else if d.protegidos@.len() > MAX_PROTEGIDOS {
        Some("Sólo se pueden registrar hasta 2 protegidos por socio (RF-21)"@)
    } else if error_de_protegidos(d.protegidos@) is Some {
        error_de_protegidos(d.protegidos@)
    } else {
        error_de_beneficiario(d.beneficiario)
    }
}

/// Texto de cifras ASCII `0`..`9`, con al menos una.
pub open spec fn de_cifras(s: Seq<char>) -> bool {
    s.len() > 0 && forall|k: int| 0 <= k < s.len() ==> '0' <= #[trigger] s[k] <= '9'
}

/// Texto con algún carácter que no es un espacio.
pub open spec fn con_texto(s: Seq<char>) -> bool {
    exists|k: int| 0 <= k < s.len() && !espacio_unicode(#[trigger] s[k])
}

proof fn lema_cifras_con_texto(s: Seq<char>)
    requires
        de_cifras(s),
    ensures
        recorte(s).len() > 0,
{
    ley_en_blanco_solo_espacios(s);
    assert('0' <= s[0] <= '9');
}

proof fn lema_protegido(p: Protegido)
    ensures
        error_de_protegido(p).is_none() <==> (con_texto(p.nombre@) && de_cifras(p.cedula@) && (
        p.telefono@.len() == 0 || de_cifras(p.telefono@))),
{
    ley_en_blanco_solo_espacios(p.nombre@);
    if de_cifras(p.cedula@) {
        lema_cifras_con_texto(p.cedula@);
    }
}

proof fn lema_protegidos(s: Seq<Protegido>)
    ensures
        error_de_protegidos(s).is_none() <==> forall|i: int|
            0 <= i < s.len() ==> error_de_protegido(#[trigger] s[i]).is_none(),
    decreases s.len(),
{
    if s.len() > 0 {
        let t = s.drop_first();
        lema_protegidos(t);
        if error_de_protegidos(s).is_none() {
            assert forall|i: int| 0 <= i < s.len() implies error_de_protegido(#[trigger] s[i]).is_none() by {
                if i > 0 {
                    assert(s[i] == t[i - 1]);
                }
            }
        } else if error_de_protegido(s[0]).is_none() {
            let j = choose|j: int| 0 <= j < t.len() && error_de_protegido(#[trigger] t[j]).is_some();
            assert(s[j + 1] == t[j]);
        }
    }
}

/// RF-15 a RF-21: la planilla de un socio se acepta si y sólo si trae cédula
/// de cifras, nombres y apellidos; un correo vacío o con forma de correo;
/// teléfono y celular vacíos o de cifras; a lo sumo dos protegidos, cada uno
/// con un nombre que no sea sólo espacios, una cédula de cifras y un teléfono
/// vacío o de cifras; y, si hay beneficiario, con nombre que no sea sólo
/// espacios y cédula de cifras.
pub proof fn ley_planilla_aceptada(d: DatosSocio)
    ensures
        error_de_socio(d).is_none() <==> {
            &&& de_cifras(d.cedula@)
            &&& d.nombres@.len() > 0
            &&& d.apellidos@.len() > 0
            &&& d.correo@.len() == 0 || parece_correo_spec(d.correo@)
            &&& d.telefono@.len() == 0 || de_cifras(d.telefono@)
            &&& d.celular@.len() == 0 || de_cifras(d.celular@)
            &&& d.protegidos@.len() <= 2
            &&& forall|i: int|
                #![trigger d.protegidos@[i]]
                0 <= i < d.protegidos@.len() ==> {
                    &&& con_texto(d.protegidos@[i].nombre@)
                    &&& de_cifras(d.protegidos@[i].cedula@)
                    &&& d.protegidos@[i].telefono@.len() == 0 || de_cifras(d.protegidos@[i].telefono@)
                }
            &&& match d.beneficiario {
                None => true,
                Some(b) => con_texto(b.nombre@) && de_cifras(b.cedula@),
            }
        },
{
    lema_protegidos(d.protegidos@);
    assert forall|i: int| 0 <= i < d.protegidos@.len() implies (error_de_protegido(
        #[trigger] d.protegidos@[i],
    ).is_none() <==> (con_texto(d.protegidos@[i].nombre@) && de_cifras(d.protegidos@[i].cedula@) && (
    d.protegidos@[i].telefono@.len() == 0 || de_cifras(d.protegidos@[i].telefono@)))) by {
        lema_protegido(d.protegidos@[i]);
    }
    if let Some(b) = d.beneficiario {
        ley_en_blanco_solo_espacios(b.nombre@);
        if de_cifras(b.cedula@) {
            lema_cifras_con_texto(b.cedula@);
        }
    }
}

fn rechazo(m: &str) -> (r: Result<(), ErrorNegocio>)
    ensures
        r matches Err(ErrorNegocio::OperacionNoPermitida(t)) && t@ == m@,
{
    Err(ErrorNegocio::OperacionNoPermitida(String::from_str(m)))
}

fn validar_protegido(p: &Protegido) -> (r: Result<(), ErrorNegocio>)
    ensures
        match error_de_protegido(*p) {
            None => r is Ok,
            Some(m) => r matches Err(ErrorNegocio::OperacionNoPermitida(t)) && t@ == m,
        },
{
    if esta_en_blanco(p.nombre.as_str()) || esta_en_blanco(p.cedula.as_str()) {
        return rechazo("Cada protegido debe tener al menos nombre y cédula");
    }
    if !solo_digitos(p.cedula.as_str()) || (!p.telefono.as_str().is_empty() && !solo_digitos(
        p.telefono.as_str(),
    )) {
        return rechazo("La cédula y el teléfono de los protegidos sólo admiten números");
    }
    Ok(())
}

/// Validaciones comunes a registrar y actualizar un socio. Devuelve el primer
/// error de la planilla ([`error_de_socio`]) o `Ok` si no lo hay.
pub fn validar(datos: &DatosSocio) -> (r: Result<(), ErrorNegocio>)
    ensures
        match error_de_socio(*datos) {
            None => r is Ok,
            Some(m) => r matches Err(ErrorNegocio::OperacionNoPermitida(t)) && t@ == m,
        },
{
    if datos.cedula.as_str().is_empty() {
        return rechazo("Debe indicar la cédula del socio");
    }
    if datos.nombres.as_str().is_empty() {
        return rechazo("Debe indicar los nombres del socio");
    }
    if datos.apellidos.as_str().is_empty() {
        return rechazo("Debe indicar los apellidos del socio");
    }
    if !datos.correo.as_str().is_empty() && !parece_correo(datos.correo.as_str()) {
        return rechazo("El correo electrónico debe tener el formato nombre@dominio.com");
    }
    if !datos.cedula.as_str().is_empty() && !solo_digitos(datos.cedula.as_str()) {
        return rechazo("La cédula sólo admite números");
    }
    if !datos.telefono.as_str().is_empty() && !solo_digitos(datos.telefono.as_str()) {
        return rechazo("El teléfono sólo admite números");
    }
    if !datos.celular.as_str().is_empty() && !solo_digitos(datos.celular.as_str()) {
        return rechazo("El celular sólo admite números");
    }
    if datos.protegidos.len() > MAX_PROTEGIDOS {
        return rechazo("Sólo se pueden registrar hasta 2 protegidos por socio (RF-21)");
    }
    let mut i: usize = 0;
    while i < datos.protegidos.len()
        invariant
            i <= datos.protegidos.len(),
            error_de_socio(*datos) == (if error_de_protegidos(datos.protegidos@) is Some {
                error_de_protegidos(datos.protegidos@)
            } else {
                error_de_beneficiario(datos.beneficiario)
            }),
            forall|k: int| 0 <= k < i ==> error_de_protegido(#[trigger] datos.protegidos@[k]).is_none(),
        decreases datos.protegidos.len() - i,
    {
        let v = validar_protegido(&datos.protegidos[i]);
        if v.is_err() {
            proof {
                lema_error_de_protegidos(datos.protegidos@, i as int);
            }
            return v;
        }
        i = i + 1;
    }
    proof {
        lema_error_de_protegidos(datos.protegidos@, i as int);
    }
    match &datos.beneficiario {
        None => Ok(()),
        Some(b) => {
            if esta_en_blanco(b.nombre.as_str()) || esta_en_blanco(b.cedula.as_str()) {
                return rechazo("El beneficiario en caso de muerte debe tener nombre y cédula (RF-20)");
            }
            if !solo_digitos(b.cedula.as_str()) {
                return rechazo("La cédula del beneficiario sólo admite números");
            }
            Ok(())
        },
    }
}

/// `format!("{} {}", nombres.trim(), apellidos.trim()).trim()`.
pub open spec fn nombre_completo_spec(nombres: Seq<char>, apellidos: Seq<char>) -> Seq<char> {
    recorte(recorte(nombres) + seq![' '] + recorte(apellidos))
}

/// Nombre completo de un socio: nombres y apellidos recortados, separados por un
/// espacio, sin espacios en los extremos.
pub fn nombre_completo(nombres: &str, apellidos: &str) -> (r: String)
    ensures
        r@ == nombre_completo_spec(nombres@, apellidos@),
{
    let mut t = recortar(nombres);
    proof {
        reveal_strlit(" ");
        assert(" "@ =~= seq![' ']);
    }
    t.append(" ");
    let a = recortar(apellidos);
    t.append(a.as_str());
    assert(t@ =~= recorte(nombres@) + seq![' '] + recorte(apellidos@));
    recortar(t.as_str())
}

/// Cupo de RN-01: los activos y cuántos caben todavía hasta el máximo.
pub fn cupo(activos: usize) -> (r: (usize, usize))
    ensures
        r.0 == activos,
        r.1 == if activos >= MAX_SOCIOS { 0 } else { MAX_SOCIOS - activos },
{
    (activos, MAX_SOCIOS.saturating_sub(activos))
}

/// Mensaje de un registro que excede el máximo de socios.
pub open spec fn mensaje_cupo_lleno(activos: nat) -> Seq<char> {
    "El Bankomunal ya tiene "@ + decimal(activos) + " socios activos y el máximo permitido es 19 (RN-01)"@
}

/// RN-01 al registrar: con `MAX_SOCIOS` activos o más no entra nadie.
pub fn revisar_cupo(activos: usize) -> (r: Result<(), ErrorNegocio>)
    ensures
        activos < MAX_SOCIOS ==> r is Ok,
        activos >= MAX_SOCIOS ==> (r matches Err(ErrorNegocio::OperacionNoPermitida(m)) && m@
            == mensaje_cupo_lleno(activos as nat)),
{
    if activos < MAX_SOCIOS {
        return Ok(());
    }
    let mut m = String::from_str("El Bankomunal ya tiene ");
    let n = en_decimal(activos as u64);
    m.append(n.as_str());
    m.append(" socios activos y el máximo permitido es 19 (RN-01)");
    Err(ErrorNegocio::OperacionNoPermitida(m))
}

/// Fila del listado de socios.
#[derive(Debug, Clone)]
pub struct SocioResumenDto {
    pub id: String,
    pub cedula: String,
    pub nombre_completo: String,
    pub celular: String,
    pub estatus: String,
    pub fecha_ingreso: String,
}

impl SocioResumenDto {
    /// Fila del listado a partir de los datos del socio: el nombre completo y el
    /// estatus como texto.
    pub fn desde_socio(
        id: String,
        cedula: String,
        nombres: &str,
        apellidos: &str,
        celular: String,
        estatus: EstatusSocio,
        fecha_ingreso: String,
    ) -> (r: SocioResumenDto)
        ensures
            r.id == id,
            r.cedula == cedula,
            r.nombre_completo@ == nombre_completo_spec(nombres@, apellidos@),
            r.celular == celular,
            r.estatus@ == texto_estatus(estatus),
            r.fecha_ingreso == fecha_ingreso,
    {
        SocioResumenDto {
            id,
            cedula,
            nombre_completo: nombre_completo(nombres, apellidos),
            celular,
            estatus: String::from_str(estatus.as_str()),
            fecha_ingreso,
        }
    }
}

/// Detalle de un socio para el formulario.
#[derive(Debug, Clone)]
pub struct SocioDto {
    pub id: String,
    pub cedula: String,
    pub nombres: String,
    pub apellidos: String,
    pub profesion: String,
    pub direccion: String,
    pub telefono: String,
    pub celular: String,
    pub correo: String,
    pub estatus: String,
    pub fecha_ingreso: String,
    pub fecha_retiro: Option<String>,
    pub beneficiario: Option<Beneficiario>,
    pub protegidos: Vec<Protegido>,
}

/// Cupo de socios para la pantalla (RN-01).
#[derive(Debug, Clone)]
pub struct CupoSociosDto {
    pub activos: usize,
    pub disponibles: usize,
    pub minimo: usize,
    pub maximo: usize,
}

impl CupoSociosDto {
    /// El cupo de `activos` socios, con el mínimo y el máximo de RN-01.
    pub fn de_activos(activos: usize) -> (r: CupoSociosDto)
        ensures
            r.activos == activos,
            r.disponibles == if activos >= MAX_SOCIOS { 0 } else { MAX_SOCIOS - activos },
            r.minimo == MIN_SOCIOS,
            r.maximo == MAX_SOCIOS,
    {
        let (activos, disponibles) = cupo(activos);
        CupoSociosDto { activos, disponibles, minimo: MIN_SOCIOS, maximo: MAX_SOCIOS }
    }
}

} // verus!
