//! Rutas de los archivos `.db`: un `app.db` con el catálogo y un archivo por
//! Bankomunal (aislamiento por archivo). Abrir y migrar las bases es trabajo de
//! E/S y vive fuera de esta biblioteca.

use std::path::PathBuf;

use vstd::prelude::*;

verus! {

/// Declaración de `std::path::PathBuf`, que la biblioteca sólo transporta.
#[verifier::external_type_specification]
#[verifier::external_body]
pub struct ExPathBuf(std::path::PathBuf);

/// La ruta que da `Path::join` (std) al unir `parte` a `base`.
pub uninterp spec fn ruta_unida(base: PathBuf, parte: Seq<char>) -> PathBuf;

/// Un nombre simple de archivo o directorio: no vacío, sin separadores (`/`,
/// `\`), sin `:` (que abre un prefijo de unidad en Windows) y distinto de `.` y
/// de `..`.
pub open spec fn nombre_simple(p: Seq<char>) -> bool {
    &&& p.len() > 0
    &&& forall|i: int| 0 <= i < p.len() ==> #[trigger] p[i] != '/' && p[i] != '\\' && p[i] != ':'
    &&& !(p.len() == 1 && p[0] == '.')
    &&& !(p.len() == 2 && p[0] == '.' && p[1] == '.')
}

/// Envoltorio de `Path::join` (std): la ruta `base` seguida de `parte`. Su
/// resultado se nombra con `ruta_unida`. De un nombre simple, `PathBuf::push`
/// añade a `base` un separador (si hace falta) y el nombre tal cual, así que
/// dos nombres simples distintos dan rutas distintas, y dos nombres simples
/// unidos uno tras otro nunca dan la misma ruta que un nombre simple unido a
/// la misma base (aquella lleva un separador más). Qué bytes forman la ruta
/// no se describe.
#[verifier::external_body]
fn unir(base: &PathBuf, parte: &str) -> (r: PathBuf)
    ensures
        r == ruta_unida(*base, parte@),
        forall|q: Seq<char>|
            #![trigger ruta_unida(*base, q)]
            nombre_simple(parte@) && nombre_simple(q) && q != parte@ ==> r != ruta_unida(*base, q),
        forall|b0: PathBuf, q: Seq<char>, c: Seq<char>|
            #![trigger ruta_unida(b0, q), ruta_unida(b0, c)]
            *base == ruta_unida(b0, q) && nombre_simple(q) && nombre_simple(parte@) && nombre_simple(
                c,
            ) ==> r != ruta_unida(b0, c),
{
    base.join(parte)
}

/// Contrato de `<PathBuf as Clone>::clone` (std), que copia la ruta. Como la ruta
/// es opaca para Verus, no se afirma nada de la copia.
pub assume_specification[ <std::path::PathBuf as std::clone::Clone>::clone ](
    ruta: &std::path::PathBuf,
) -> std::path::PathBuf;

/// Gestiona las rutas de los archivos `.db` de la aplicación.
#[derive(Clone)]
pub struct DbManager {
    pub app_data_dir: PathBuf,
}

/// Nombre del archivo de un Bankomunal: su id seguido de `.db`.
pub open spec fn nombre_de_archivo_spec(banco_id: Seq<char>) -> Seq<char> {
    banco_id + ".db"@
}

/// `format!("{banco_id}.db")`.
pub fn nombre_de_archivo(banco_id: &str) -> (r: String)
    ensures
        r@ == nombre_de_archivo_spec(banco_id@),
{
    let mut r = String::from_str(banco_id);
    r.append(".db");
    r
}

/// Un id de Bankomunal sin separadores de ruta ni `:`.
pub open spec fn sin_separadores(id: Seq<char>) -> bool {
    forall|i: int| 0 <= i < id.len() ==> #[trigger] id[i] != '/' && id[i] != '\\' && id[i] != ':'
}

/// Ruta del `app.db` dentro de un directorio de datos.
pub open spec fn ruta_app_db(dir: PathBuf) -> PathBuf {
    ruta_unida(dir, "app.db"@)
}

/// Ruta del `.db` de un Bankomunal dentro de un directorio de datos.
pub open spec fn ruta_banco_db(dir: PathBuf, banco_id: Seq<char>) -> PathBuf {
    ruta_unida(ruta_unida(dir, "bankomunales"@), nombre_de_archivo_spec(banco_id))
}

proof fn lema_nombre_de_archivo(id: Seq<char>)
    requires
        sin_separadores(id),
    ensures
        nombre_simple(nombre_de_archivo_spec(id)),
{
    reveal_strlit(".db");
    let n = nombre_de_archivo_spec(id);
    assert forall|i: int| 0 <= i < n.len() implies #[trigger] n[i] != '/' && n[i] != '\\' && n[i]
        != ':' by {
        if i < id.len() {
            assert(n[i] == id[i]);
        }
    }
    assert(n[n.len() - 1] == 'b');
}

proof fn lema_nombres_de_archivo_distintos(a: Seq<char>, b: Seq<char>)
    requires
        a != b,
    ensures
        nombre_de_archivo_spec(a) != nombre_de_archivo_spec(b),
{
    reveal_strlit(".db");
    if nombre_de_archivo_spec(a) == nombre_de_archivo_spec(b) {
        assert(nombre_de_archivo_spec(a).len() == a.len() + 3);
        assert(nombre_de_archivo_spec(b).len() == b.len() + 3);
        assert(a =~= nombre_de_archivo_spec(a).subrange(0, a.len() as int));
        assert(b =~= nombre_de_archivo_spec(b).subrange(0, b.len() as int));
    }
}

proof fn lema_nombres_fijos()
    ensures
        nombre_simple("app.db"@),
        nombre_simple("bankomunales"@),
{
    reveal_strlit("app.db");
    reveal_strlit("bankomunales");
}

impl DbManager {
    pub fn new(app_data_dir: PathBuf) -> (r: DbManager)
        ensures
            r.app_data_dir == app_data_dir,
    {
        DbManager { app_data_dir }
    }

    /// Ruta del `app.db`: `app.db` dentro del directorio de datos.
    pub fn app_db_path(&self) -> (r: PathBuf)
        ensures
            r == ruta_app_db(self.app_data_dir),
    {
        proof {
            reveal_strlit("app.db");
        }
        unir(&self.app_data_dir, "app.db")
    }

    /// Ruta del `.db` de un Bankomunal: `bankomunales/<id>.db` dentro del
    /// directorio de datos. Cada Bankomunal tiene su propio archivo: dos ids
    /// distintos sin separadores dan rutas distintas, y ninguna coincide con la
    /// del `app.db`.
    pub fn banco_db_path(&self, banco_id: &str) -> (r: PathBuf)
        ensures
            r == ruta_banco_db(self.app_data_dir, banco_id@),
            forall|otro: Seq<char>|
                #![trigger ruta_banco_db(self.app_data_dir, otro)]
                sin_separadores(banco_id@) && sin_separadores(otro) && otro != banco_id@ ==> r
                    != ruta_banco_db(self.app_data_dir, otro),
            sin_separadores(banco_id@) ==> r != ruta_app_db(self.app_data_dir),
    {
        proof {
            reveal_strlit("bankomunales");
        }
        let dir = unir(&self.app_data_dir, "bankomunales");
        let archivo = nombre_de_archivo(banco_id);
        let r = unir(&dir, archivo.as_str());
        proof {
            lema_nombres_fijos();
            if sin_separadores(banco_id@) {
                lema_nombre_de_archivo(banco_id@);
                assert(r != ruta_unida(self.app_data_dir, "app.db"@));
                assert forall|otro: Seq<char>|
                    sin_separadores(otro) && otro != banco_id@ implies r != #[trigger] ruta_banco_db(
                    self.app_data_dir,
                    otro,
                ) by {
                    lema_nombre_de_archivo(otro);
                    lema_nombres_de_archivo_distintos(banco_id@, otro);
                    assert(r != ruta_unida(dir, nombre_de_archivo_spec(otro)));
                }
            }
        }
        r
    }
}

} // verus!
