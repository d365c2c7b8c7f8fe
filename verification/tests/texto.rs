use bankomunal::texto::{con_ceros, en_decimal, esta_en_blanco, mismo_texto, posicion_de_texto, recortar};

#[test]
fn el_recorte_quita_espacios_unicode() {
    assert_eq!(recortar("  hola \t\n"), "hola");
    assert_eq!(recortar("\u{3000}ñandú\u{a0}"), "ñandú");
    assert_eq!(recortar("a b"), "a b");
    assert!(esta_en_blanco(" \t "));
    assert!(!esta_en_blanco(" x "));
}

#[test]
fn el_relleno_con_ceros_es_el_de_format() {
    for (v, w) in [(7i64, 3usize), (-7, 3), (1234, 2), (0, 0), (-5, 1), (42, 4)] {
        assert_eq!(con_ceros(v, w), format!("{:0w$}", v, w = w));
    }
    assert_eq!(con_ceros(i64::MIN, 0), i64::MIN.to_string());
    assert_eq!(en_decimal(0), "0");
    assert_eq!(en_decimal(u64::MAX), u64::MAX.to_string());
}

#[test]
fn comparar_y_buscar_textos() {
    assert!(mismo_texto("año", "año"));
    assert!(!mismo_texto("año", "ano"));
    let v = vec!["a".to_string(), "b".to_string()];
    assert_eq!(posicion_de_texto(&v, "b"), Some(1));
    assert_eq!(posicion_de_texto(&v, "c"), None);
}

#[test]
fn recortar_dos_veces_es_recortar_una() {
    for s in ["  a b  ", "", "\t", "x", " \u{2003}ñ\u{2003} "] {
        let una = recortar(s);
        assert_eq!(recortar(&una), una);
    }
}

#[test]
fn los_espacios_son_los_de_char_is_whitespace() {
    for n in 0u32..=0x10FFFF {
        if let Some(c) = char::from_u32(n) {
            let s = c.to_string();
            assert_eq!(esta_en_blanco(&s), c.is_whitespace(), "U+{n:04X}");
        }
    }
}
