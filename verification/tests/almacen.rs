use gestor_tareas::app::task::Tarea;
use gestor_tareas::marca::Marca;
use gestor_tareas::storage::{CsvStorage, JsonStorage, Storage, TxtStorage};

#[test]
fn test_guardar_y_cargar_txt() {
    let storage = TxtStorage;
    let tareas_originales = vec![
        Tarea { descripcion: "Tarea TXT 1".to_string(), completada: false, ultimo_cambio: None, tags: Vec::new() },
        Tarea {
            descripcion: "Tarea TXT 2".to_string(),
            completada: true,
            ultimo_cambio: Some(Marca::ahora().unwrap()),
            tags: vec!["tag1".to_string(), "tag2".to_string()],
        },
    ];
    let contenido = storage.save(&tareas_originales);
    let tareas_cargadas = storage.load(&contenido);
    assert_eq!(tareas_originales.len(), tareas_cargadas.len());
    assert_eq!(tareas_originales[0].descripcion, tareas_cargadas[0].descripcion);
    assert_eq!(tareas_originales[1].tags, tareas_cargadas[1].tags);
    assert_eq!(tareas_originales, tareas_cargadas);
}

#[test]
fn test_guardar_y_cargar_csv() {
    let storage = CsvStorage;
    let tareas_originales = vec![
        Tarea { descripcion: "Tarea CSV 1".to_string(), completada: false, ultimo_cambio: None, tags: Vec::new() },
        Tarea {
            descripcion: "Tarea CSV 2".to_string(),
            completada: true,
            ultimo_cambio: Some(Marca::ahora().unwrap()),
            tags: vec!["tag1".to_string(), "tag2".to_string()],
        },
    ];
    let bytes = storage.save(&tareas_originales);
    assert!(bytes.is_ok());
    let tareas_cargadas = storage.load(&bytes.unwrap()).unwrap();
    assert_eq!(tareas_originales.len(), tareas_cargadas.len());
    assert_eq!(tareas_originales[0].descripcion, tareas_cargadas[0].descripcion);
    assert_eq!(tareas_originales[1].tags, tareas_cargadas[1].tags);
    assert_eq!(tareas_originales, tareas_cargadas);
}

fn marca(s: i64, n: u32) -> Marca {
    Marca::desde_timestamp(s, n).unwrap()
}

#[test]
fn txt_escribe_una_linea_por_tarea() {
    let ts = vec![
        Tarea { descripcion: "a b".to_string(), completada: false, ultimo_cambio: None, tags: vec![] },
        Tarea {
            descripcion: "c".to_string(),
            completada: true,
            ultimo_cambio: Some(marca(1735729200, 0)),
            tags: vec!["trabajo".to_string(), "personal".to_string()],
        },
    ];
    assert_eq!(
        TxtStorage.save(&ts),
        "no completada,,a b,\ncompletada,2025-01-01T11:00:00+00:00,c,trabajo;personal\n"
    );
}

#[test]
fn txt_lee_lineas_y_salta_las_incompletas() {
    let ts = TxtStorage.load("no completada,Tarea Nueva 1\r\ncompletada,,d,\r\nx,y,z,w,v\n\nsin comas");
    assert_eq!(ts.len(), 2);
    assert_eq!(ts[0].descripcion, "d");
    assert!(ts[0].completada);
    assert!(ts[0].tags.is_empty());
    assert_eq!(ts[1].descripcion, "z");
    assert_eq!(ts[1].tags, vec!["w,v".to_string()]);
    assert!(!ts[1].completada);
}

#[test]
fn txt_marca_ilegible_queda_vacia() {
    let ts = TxtStorage.load("completada,ayer,d,t");
    assert_eq!(ts.len(), 1);
    assert!(ts[0].completada);
    assert_eq!(ts[0].ultimo_cambio, None);
    let ts = TxtStorage.load("completada,2025-01-01T11:00:00Z,d,");
    assert_eq!(ts[0].ultimo_cambio, Some(marca(1735729200, 0)));
}

#[test]
fn txt_con_comas_en_la_descripcion_no_vuelve_igual() {
    let ts = vec![Tarea { descripcion: "a,b".to_string(), completada: false, ultimo_cambio: None, tags: vec![] }];
    let leidas = TxtStorage.load(&TxtStorage.save(&ts));
    assert_eq!(leidas[0].descripcion, "a");
    assert_eq!(leidas[0].tags, vec!["b,".to_string()]);
}

#[test]
fn csv_escribe_encabezado_y_registros() {
    let ts = vec![Tarea {
        descripcion: "con, coma".to_string(),
        completada: true,
        ultimo_cambio: Some(marca(1735729200, 500_000_000)),
        tags: vec!["a".to_string()],
    }];
    let bytes = CsvStorage.save(&ts).unwrap();
    assert_eq!(
        String::from_utf8(bytes.clone()).unwrap(),
        "completada,ultimo_cambio,descripcion,tags\ntrue,2025-01-01T11:00:00.500+00:00,\"con, coma\",a\n"
    );
    assert_eq!(CsvStorage.load(&bytes).unwrap(), ts);
}

#[test]
fn csv_lee_registros_con_menos_campos() {
    let ts = CsvStorage.load(b"completada,x\ntrue,\nfalse,y\n").unwrap();
    assert_eq!(ts.len(), 2);
    assert!(ts[0].completada);
    assert_eq!(ts[0].descripcion, "");
    assert!(ts[0].tags.is_empty());
    assert!(!ts[1].completada);
}

#[test]
fn csv_con_campos_desiguales_es_error() {
    assert!(CsvStorage.load(b"a,b\n1,2,3\n").is_err());
}

#[test]
fn formatos_por_nombre_y_extension() {
    assert!(matches!(Storage::desde_formato("csv"), Storage::Csv(_)));
    assert!(matches!(Storage::desde_formato("json"), Storage::Json(_)));
    assert!(matches!(Storage::desde_formato("bincode"), Storage::Bincode(_)));
    assert!(matches!(Storage::desde_formato("xml"), Storage::Txt(_)));
    assert!(matches!(Storage::por_extension("dir/para_importar.json"), Some(Storage::Json(_))));
    assert!(matches!(Storage::por_extension("a.b.csv"), Some(Storage::Csv(_))));
    assert!(matches!(Storage::por_extension("tareas.txt"), Some(Storage::Txt(_))));
    assert!(Storage::por_extension(".txt").is_none());
    assert!(Storage::por_extension("sin_extension").is_none());
    assert!(Storage::por_extension("x.xml").is_none());
    assert!(matches!(Storage::por_extension("x.csv/"), Some(Storage::Csv(_))));
    assert!(matches!(Storage::por_extension("x.csv//."), Some(Storage::Csv(_))));
    assert!(Storage::por_extension("d.csv/..").is_none());
    assert!(Storage::por_extension("txt.").is_none());
    assert!(Storage::por_extension("").is_none());
    assert_eq!(gestor_tareas::storage::no_encontrado("p"), "No se pudo encontrar el archivo en la ruta 'p'");
}

#[test]
fn marcas_de_tiempo() {
    let m = marca(1735729200, 0);
    assert_eq!(m.a_rfc3339(), "2025-01-01T11:00:00+00:00");
    assert_eq!(m.dia_mes_anio(), "01/01/2025 11:00:00");
    assert_eq!(Marca::desde_rfc3339("2025-01-01T12:00:00+01:00"), Some(m));
    assert_eq!(Marca::desde_rfc3339(""), None);
    assert!(Marca::desde_timestamp(0, 2_000_000_000).is_none());
    assert!(Marca::desde_timestamp(59, 1_500_000_000).is_some());
    assert!(Marca::desde_timestamp(-1, 1_500_000_000).is_some());
    assert!(Marca::desde_timestamp(58, 1_500_000_000).is_none());
    assert!(Marca::desde_timestamp(i64::MAX, 0).is_none());
    assert!(Marca::ahora().unwrap().segundos() > 1_600_000_000);
}

#[test]
fn mostrar_una_tarea() {
    let t = Tarea {
        descripcion: "Comprar pan".to_string(),
        completada: true,
        ultimo_cambio: Some(marca(1735729200, 0)),
        tags: vec!["trabajo".to_string(), "personal".to_string()],
    };
    assert_eq!(t.mostrar(1), "[X] (01/01/2025 11:00:00) 1: Comprar pan [trabajo, personal]");
    let p = Tarea { completada: false, ..t.clone() };
    assert_eq!(p.mostrar(12), "[ ] 12: Comprar pan [trabajo, personal]");
    let sin = Tarea { completada: true, ultimo_cambio: None, tags: vec![], ..t };
    assert_eq!(sin.mostrar(3), "[X] 3: Comprar pan [sin etiquetas]");
}

#[test]
fn json_en_blanco_no_tiene_tareas() {
    assert!(JsonStorage.en_blanco(""));
    assert!(JsonStorage.en_blanco(" \n\t "));
    assert!(!JsonStorage.en_blanco(" [] "));
}

#[test]
fn segundo_intercalar_vuelve_en_texto_y_csv() {
    // 2016-12-31T23:59:60.25Z: el segundo intercalar se escribe como `:60`.
    let m = marca(1483228799, 1_250_000_000);
    assert_eq!(m.a_rfc3339(), "2016-12-31T23:59:60.250+00:00");
    assert_eq!(Marca::desde_rfc3339(&m.a_rfc3339()), Some(m));
    let ts = vec![Tarea {
        descripcion: "intercalar".to_string(),
        completada: true,
        ultimo_cambio: Some(m),
        tags: vec!["trabajo".to_string()],
    }];
    assert_eq!(TxtStorage.load(&TxtStorage.save(&ts)), ts);
    assert_eq!(CsvStorage.load(&CsvStorage.save(&ts).unwrap()).unwrap(), ts);
}

#[test]
fn csv_dobla_las_comillas_y_cita_los_saltos() {
    let ts = vec![
        Tarea {
            descripcion: "dijo \"sí\"".to_string(),
            completada: false,
            ultimo_cambio: None,
            tags: vec![],
        },
        Tarea { descripcion: "dos\nlíneas".to_string(), completada: false, ultimo_cambio: None, tags: vec![] },
    ];
    let bytes = CsvStorage.save(&ts).unwrap();
    assert_eq!(
        String::from_utf8(bytes.clone()).unwrap(),
        "completada,ultimo_cambio,descripcion,tags\nfalse,,\"dijo \"\"sí\"\"\",\nfalse,,\"dos\nlíneas\",\n"
    );
    assert_eq!(CsvStorage.load(&bytes).unwrap(), ts);
}
