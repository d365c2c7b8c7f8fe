use std::path::PathBuf;

use bankomunal::adaptadores::{SqliteFondoGastos, SqliteLibro};
use bankomunal::db::{nombre_de_archivo, DbManager};

#[test]
fn las_rutas_de_las_bases() {
    let db = DbManager::new(PathBuf::from("/datos/bk"));
    assert_eq!(db.app_db_path(), PathBuf::from("/datos/bk/app.db"));
    assert_eq!(db.banco_db_path("abc"), PathBuf::from("/datos/bk/bankomunales/abc.db"));
    assert_eq!(nombre_de_archivo("abc"), "abc.db");
}

#[test]
fn los_adaptadores_guardan_el_gestor() {
    let db = DbManager::new(PathBuf::from("/datos/bk"));
    let libro = SqliteLibro::new(db.clone());
    assert_eq!(libro.db.app_data_dir, PathBuf::from("/datos/bk"));
    let fondo = SqliteFondoGastos::new(db);
    assert_eq!(fondo.config.db.app_data_dir, PathBuf::from("/datos/bk"));
}

#[test]
fn cada_bankomunal_tiene_su_archivo() {
    let dir = PathBuf::from("/datos/bk");
    let db = DbManager::new(dir.clone());
    assert_eq!(db.app_db_path(), dir.join("app.db"));
    assert_eq!(db.banco_db_path("b-1"), dir.join("bankomunales").join("b-1.db"));
    assert_ne!(db.banco_db_path("b-1"), db.banco_db_path("b-2"));
    assert_ne!(db.banco_db_path("app"), db.app_db_path());
    assert_ne!(db.banco_db_path(""), db.app_db_path());
}
