use gestor_tareas::texto::{
    escribir_usize, iguales, leer_usize, menor, ordenar, recortar, separar, separar_lineas,
    separar_palabras, unir_con,
};

#[test]
fn leer_numeros_como_parse() {
    assert_eq!(leer_usize("42"), Some(42));
    assert_eq!(leer_usize("+7"), Some(7));
    assert_eq!(leer_usize("007"), Some(7));
    assert_eq!(leer_usize(""), None);
    assert_eq!(leer_usize("+"), None);
    assert_eq!(leer_usize("-1"), None);
    assert_eq!(leer_usize("1a"), None);
    assert_eq!(leer_usize(" 1"), None);
    assert_eq!(leer_usize("18446744073709551615"), Some(usize::MAX));
    assert_eq!(leer_usize("18446744073709551616"), None);
    for n in [0usize, 9, 10, 99, 100, 12345, usize::MAX] {
        assert_eq!(escribir_usize(n), n.to_string());
        assert_eq!(leer_usize(&escribir_usize(n)), Some(n));
    }
}

#[test]
fn separar_como_std() {
    for s in ["", " a  b\tc\n", "uno", "  ", "a\u{3000}b"] {
        let esperado: Vec<String> = s.split_whitespace().map(String::from).collect();
        assert_eq!(separar_palabras(s), esperado);
    }
    for s in ["", ";", "a;;b", "x"] {
        let esperado: Vec<String> = s.split(';').map(String::from).collect();
        assert_eq!(separar(s, ';'), esperado);
    }
    for s in ["", "\n", "a\r\nb", "a\nb\n", "a\r", "\r\n\r\n"] {
        let esperado: Vec<String> = s.lines().map(String::from).collect();
        assert_eq!(separar_lineas(s), esperado);
    }
    for s in ["", "  x ", "\t\u{a0}y z\n"] {
        assert_eq!(recortar(s), s.trim());
    }
}

#[test]
fn unir_y_separar_vuelven() {
    let partes = vec!["a".to_string(), "".to_string(), "c c".to_string()];
    let unido = unir_con(&partes, ";");
    assert_eq!(unido, "a;;c c");
    assert_eq!(separar(&unido, ';'), partes);
}

#[test]
fn orden_de_cadenas() {
    assert!(menor("a", "b"));
    assert!(menor("a", "ab"));
    assert!(!menor("b", "ab"));
    assert!(!menor("x", "x"));
    assert!(iguales("ñ", "ñ"));
    assert!(!iguales("ñ", "n"));
    let v = vec!["eliminar_todas".to_string(), "ayuda".to_string(), "eliminar".to_string()];
    let mut esperado = v.clone();
    esperado.sort();
    assert_eq!(ordenar(v), esperado);
}
