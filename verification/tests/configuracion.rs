use gestor_tareas::app::ui::{
    accion_menu, args_etiqueta, descripciones, necesita_parametro, opciones_menu,
    topicos_de_ayuda, Accion,
};
use gestor_tareas::app::aviso_inicial;
use gestor_tareas::app::task::Tarea;
use gestor_tareas::settings::{
    default_comandos, default_explicaciones, default_general, default_tags, Diccionario,
    GeneralSettings, Settings, StorageSettings,
};

#[test]
fn valores_por_defecto() {
    assert_eq!(default_tags(), vec!["trabajo".to_string(), "personal".to_string()]);
    assert_eq!(default_general().tags_validos, default_tags());
    assert_eq!(GeneralSettings::default().tags_validos, default_tags());
    let s = StorageSettings::default();
    assert_eq!((s.filename_base.as_str(), s.format.as_str()), ("tareas", "txt"));
    let c = default_comandos();
    assert_eq!(c.len(), 11);
    assert_eq!(c.obtener("ayuda").map(|s| s.as_str()), Some("explicar"));
    assert_eq!(c.obtener("listar").map(|s| s.as_str()), Some("listar"));
    assert_eq!(c.obtener("explicar"), None);
    let e = default_explicaciones();
    assert_eq!(e.len(), 11);
    assert_eq!(
        e.obtener("etiquetar").map(|s| s.as_str()),
        Some("Uso: etiquetar <número> <tag>. Agrega una etiqueta a una tarea.")
    );
    let todo = Settings::default();
    assert_eq!(todo.nombre_archivo(), "tareas.txt");
    assert_eq!(aviso_inicial(&todo), "Usando formato: 'txt', Archivo: 'tareas.txt'");
}

#[test]
fn diccionario_como_mapa() {
    let mut d = Diccionario::nuevo();
    assert_eq!(d.len(), 0);
    d.insertar("b".to_string(), "1".to_string());
    d.insertar("a".to_string(), "2".to_string());
    d.insertar("b".to_string(), "3".to_string());
    assert_eq!(d.len(), 2);
    assert_eq!(d.obtener("b").map(|s| s.as_str()), Some("3"));
    assert_eq!(d.obtener("a").map(|s| s.as_str()), Some("2"));
    assert_eq!(d.obtener("c"), None);
    assert_eq!(d.claves_ordenadas(), vec!["a".to_string(), "b".to_string()]);
}

#[test]
fn decisiones_del_menu() {
    let s = Settings::default();
    let opciones = opciones_menu(&s);
    assert_eq!(opciones.len(), 12);
    assert_eq!(opciones[0], "agregar");
    assert_eq!(opciones[1], "ayuda");
    assert_eq!(opciones[11], "salir");
    assert_eq!(topicos_de_ayuda(&s)[0], "agregar");
    assert!(matches!(accion_menu("salir", &s), Accion::Salir));
    assert!(matches!(accion_menu("ayuda", &s), Accion::Ayuda));
    assert!(matches!(accion_menu("etiquetar", &s), Accion::Etiquetar));
    assert!(matches!(accion_menu("desetiquetar", &s), Accion::Desetiquetar));
    assert!(matches!(accion_menu("listar", &s), Accion::Estandar(c) if c == "listar"));
    assert!(matches!(accion_menu("volar", &s), Accion::Ninguna));
    assert!(necesita_parametro("agregar") && necesita_parametro("eliminar"));
    assert!(!necesita_parametro("listar") && !necesita_parametro("eliminar_todas"));
    assert_eq!(args_etiqueta(0, "trabajo"), "1 trabajo");
    let ts = vec![Tarea::nueva("x"), Tarea::nueva("y")];
    assert_eq!(descripciones(&ts), vec!["x".to_string(), "y".to_string()]);
}
