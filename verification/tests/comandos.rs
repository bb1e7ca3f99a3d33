use gestor_tareas::app::ui::{aviso_sin_etiquetas, aviso_sin_tareas};
use gestor_tareas::app::commands::completar;
use gestor_tareas::app::commands::desmarcar;
use gestor_tareas::app::commands::{pedido, procesar_comando, Pedido, Respuesta};
use gestor_tareas::app::task::Tarea;
use gestor_tareas::app::{debe_guardar, interpretar, Orden};
use gestor_tareas::marca::Marca;
use gestor_tareas::settings::{
    default_explicaciones, default_general, Diccionario, Settings, StorageSettings,
};
use gestor_tareas::storage::{formato_no_soportado, no_encontrado, Storage, TxtStorage};
use std::collections::HashMap;

fn mock_settings() -> Settings {
    Settings {
        storage: StorageSettings { filename_base: String::new(), format: String::new() },
        general: default_general(),
        comandos: Diccionario::nuevo(),
        explicaciones: Diccionario::nuevo(),
    }
}

#[test]
fn test_procesar_agregar_tarea() {
    let mut tareas = Vec::new();
    let settings = mock_settings();
    procesar_comando("agregar", "Nueva tarea de prueba", &mut tareas, &settings, Respuesta::Ninguna);

    assert_eq!(tareas.len(), 1);
    assert_eq!(tareas[0].descripcion, "Nueva tarea de prueba");
    assert_eq!(tareas[0].completada, false);
}

#[test]
fn test_procesar_completar_y_desmarcar_tarea() {
    let mut tareas = vec![Tarea {
        descripcion: "Tarea para testear".to_string(),
        completada: false,
        ultimo_cambio: None,
        tags: Vec::new(),
    }];
    let settings = mock_settings();

    procesar_comando("completar", "1", &mut tareas, &settings, Respuesta::Ninguna);
    assert_eq!(tareas[0].completada, true);
    assert!(tareas[0].ultimo_cambio.is_some());

    procesar_comando("desmarcar", "1", &mut tareas, &settings, Respuesta::Ninguna);
    assert_eq!(tareas[0].completada, false);
}

// ---------------------------------------------------------------------------
// La línea de órdenes, con un "disco" en memoria en lugar de archivos.

fn settings_de_prueba() -> Settings {
    let mut comandos = Diccionario::nuevo();
    for (alias, interno) in [
        ("añadir", "agregar"),
        ("agregar", "agregar"),
        ("listar", "listar"),
        ("completar", "completar"),
        ("desmarcar", "desmarcar"),
        ("eliminar", "eliminar"),
        ("eliminar_todas", "eliminar_todas"),
        ("etiquetar", "etiquetar"),
        ("desetiquetar", "desetiquetar"),
        ("importar_y_sumar", "importar"),
        ("reemplazar_con_archivo", "cargar"),
        ("ayuda", "explicar"),
    ] {
        comandos.insertar(alias.to_string(), interno.to_string());
    }
    Settings {
        storage: StorageSettings { filename_base: "tareas".to_string(), format: "txt".to_string() },
        general: default_general(),
        comandos,
        explicaciones: default_explicaciones(),
    }
}

fn tareas_de_json(texto: &str) -> Result<Vec<Tarea>, String> {
    let valor: serde_json::Value = serde_json::from_str(texto).map_err(|e| e.to_string())?;
    let lista = valor.as_array().ok_or("no es una lista")?;
    let mut tareas = Vec::new();
    for t in lista {
        tareas.push(Tarea {
            descripcion: t["descripcion"].as_str().unwrap_or("").to_string(),
            completada: t["completada"].as_bool().unwrap_or(false),
            ultimo_cambio: t["ultimo_cambio"].as_str().and_then(Marca::desde_rfc3339),
            tags: t["tags"]
                .as_array()
                .map(|v| v.iter().filter_map(|x| x.as_str().map(String::from)).collect())
                .unwrap_or_default(),
        });
    }
    Ok(tareas)
}

fn leer(disco: &HashMap<String, String>, ruta: &str) -> Result<Vec<Tarea>, String> {
    let Some(contenido) = disco.get(ruta) else {
        return Err(no_encontrado(ruta));
    };
    match Storage::por_extension(ruta) {
        Some(Storage::Txt(t)) => Ok(t.load(contenido)),
        Some(Storage::Csv(c)) => c.load(contenido.as_bytes()),
        Some(Storage::Json(_)) => tareas_de_json(contenido),
        _ => Err(formato_no_soportado()),
    }
}

/// Una ejecución del programa con `args`: carga el archivo de tareas, ejecuta
/// el comando y guarda. Devuelve lo que se muestra.
fn correr(disco: &mut HashMap<String, String>, settings: &Settings, args: &[&str]) -> String {
    let nombre = settings.nombre_archivo();
    let mut tareas = match disco.get(&nombre) {
        Some(c) => TxtStorage.load(c),
        None => Vec::new(),
    };
    let mut argv = vec!["todo".to_string()];
    argv.extend(args.iter().map(|a| a.to_string()));
    match interpretar(&argv, settings) {
        Orden::Menu => String::new(),
        Orden::Desconocida(m) => m,
        Orden::Comando(c, a) => {
            let respuesta = match pedido(&c, &a, settings) {
                Pedido::Ninguno => Respuesta::Ninguna,
                Pedido::LeerArchivo(ruta) => Respuesta::Archivo(leer(disco, &ruta)),
                Pedido::BorrarArchivo(n) => Respuesta::Borrado(disco.remove(&n).is_some()),
            };
            let salida = procesar_comando(&c, &a, &mut tareas, settings, respuesta);
            if debe_guardar(&c) {
                disco.insert(nombre, TxtStorage.save(&tareas));
            }
            salida.mensaje
        }
    }
}

/// Una línea `[X] (dd/mm/aaaa HH:MM:SS) <resto>` del texto.
fn tiene_linea_completada(texto: &str, resto: &str) -> bool {
    texto.lines().any(|l| {
        let c: Vec<char> = l.chars().collect();
        let patron = "[X] (dd/dd/dddd dd:dd:dd) ";
        let p: Vec<char> = patron.chars().collect();
        if c.len() < p.len() {
            return false;
        }
        let cabeza = p.iter().zip(c.iter()).all(|(a, b)| if *a == 'd' { b.is_ascii_digit() } else { a == b });
        cabeza && c[p.len()..].iter().collect::<String>() == resto
    })
}

#[test]
fn comandos_basicos_test_agregar_sin_descripcion() {
    let mut disco = HashMap::new();
    let settings = settings_de_prueba();
    let out = correr(&mut disco, &settings, &["añadir"]);
    assert!(out.contains("Error: El comando para agregar una tarea necesita una descripción."));
}

#[test]
fn comandos_basicos_test_completar_id_invalido() {
    let mut disco = HashMap::new();
    let settings = settings_de_prueba();
    correr(&mut disco, &settings, &["añadir", "Mi tarea"]);
    let out = correr(&mut disco, &settings, &["completar", "abc"]);
    assert!(out.contains("ID de tarea no válido."));
    let out = correr(&mut disco, &settings, &["completar", "99"]);
    assert!(out.contains("ID de tarea no válido."));
}

#[test]
fn cli_test_completar_id_invalido() {
    let mut disco = HashMap::new();
    let settings = settings_de_prueba();
    correr(&mut disco, &settings, &["añadir", "Mi tarea"]);
    assert!(correr(&mut disco, &settings, &["completar", "abc"]).contains("ID de tarea no válido."));
    assert!(correr(&mut disco, &settings, &["completar", "99"]).contains("ID de tarea no válido."));
}

#[test]
fn comandos_basicos_test_comando_desconocido() {
    let mut disco = HashMap::new();
    let settings = settings_de_prueba();
    let out = correr(&mut disco, &settings, &["comando-que-no-existe"]);
    assert!(out.contains("no reconocido"));
}

#[test]
fn cli_test_comando_desconocido() {
    let mut disco = HashMap::new();
    let settings = settings_de_prueba();
    assert!(correr(&mut disco, &settings, &["comando-que-no-existe"]).contains("no reconocido"));
}

#[test]
fn test_eliminar_tarea() {
    let mut disco = HashMap::new();
    let settings = settings_de_prueba();
    correr(&mut disco, &settings, &["añadir", "Tarea 1"]);
    correr(&mut disco, &settings, &["añadir", "Tarea 2"]);
    correr(&mut disco, &settings, &["eliminar", "1"]);
    let out = correr(&mut disco, &settings, &["listar"]);
    assert!(out.contains("[ ] 1: Tarea 2 [sin etiquetas]"));
    assert!(!out.contains("Tarea 1"));
}

#[test]
fn test_desmarcar_tarea() {
    let mut disco = HashMap::new();
    let settings = settings_de_prueba();
    correr(&mut disco, &settings, &["añadir", "Tarea para desmarcar"]);
    correr(&mut disco, &settings, &["completar", "1"]);
    let out = correr(&mut disco, &settings, &["listar"]);
    assert!(tiene_linea_completada(&out, "1: Tarea para desmarcar [sin etiquetas]"));
    correr(&mut disco, &settings, &["desmarcar", "1"]);
    let out = correr(&mut disco, &settings, &["listar"]);
    assert!(out.contains("[ ] 1: Tarea para desmarcar [sin etiquetas]"));
}

#[test]
fn test_etiquetar_tarea() {
    let mut disco = HashMap::new();
    let settings = settings_de_prueba();
    correr(&mut disco, &settings, &["añadir", "Tarea para etiquetar"]);
    correr(&mut disco, &settings, &["etiquetar", "1", "trabajo"]);
    let out = correr(&mut disco, &settings, &["listar"]);
    assert!(out.contains("[ ] 1: Tarea para etiquetar [trabajo]"));
    let out = correr(&mut disco, &settings, &["etiquetar", "1", "tag_invalido"]);
    assert!(out.contains("Error: La etiqueta 'tag_invalido' no es válida."));
}

#[test]
fn test_etiquetar_y_desetiquetar_tarea() {
    let mut disco = HashMap::new();
    let settings = settings_de_prueba();
    correr(&mut disco, &settings, &["añadir", "Mi tarea para etiquetas"]);
    correr(&mut disco, &settings, &["etiquetar", "1", "trabajo"]);
    let out = correr(&mut disco, &settings, &["listar"]);
    assert!(out.contains("[ ] 1: Mi tarea para etiquetas [trabajo]"));
    correr(&mut disco, &settings, &["desetiquetar", "1", "trabajo"]);
    let out = correr(&mut disco, &settings, &["listar"]);
    assert!(out.contains("[ ] 1: Mi tarea para etiquetas [sin etiquetas]"));
}

#[test]
fn flujo_feliz_test_flujo_feliz() {
    let mut disco = HashMap::new();
    let settings = settings_de_prueba();
    correr(&mut disco, &settings, &["añadir", "Comprar pan"]);
    correr(&mut disco, &settings, &["añadir", "Pasear al perro"]);
    let out = correr(&mut disco, &settings, &["listar"]);
    assert!(out.contains("[ ] 1: Comprar pan [sin etiquetas]"));
    assert!(out.contains("[ ] 2: Pasear al perro [sin etiquetas]"));
    correr(&mut disco, &settings, &["completar", "1"]);
    let out = correr(&mut disco, &settings, &["listar"]);
    assert!(tiene_linea_completada(&out, "1: Comprar pan [sin etiquetas]"));
    assert!(out.contains("[ ] 2: Pasear al perro [sin etiquetas]"));
}

#[test]
fn manejo_de_archivos_test_configuracion_default_se_il_file_manca() {
    // Sin Settings.toml rige la configuración por defecto: archivo tareas.txt.
    let settings = Settings::default();
    assert_eq!(settings.nombre_archivo(), "tareas.txt");
    assert!(matches!(Storage::desde_formato(&settings.storage.format), Storage::Txt(_)));
    let mut disco = HashMap::new();
    correr(&mut disco, &settings, &["listar"]);
    let default_file_exists = disco.contains_key("tareas.txt");
    assert!(default_file_exists, "El archivo default 'tareas.txt' no se creó");
}

#[test]
fn cli_test_configuracion_default_se_il_file_manca() {
    let settings = Settings::default();
    let mut disco = HashMap::new();
    correr(&mut disco, &settings, &["listar"]);
    assert!(disco.contains_key("tareas.txt"), "El archivo default 'tareas.txt' no se creó");
}

#[test]
fn manejo_de_archivos_test_importar_tareas_y_fusionar() {
    let mut disco = HashMap::new();
    let settings = settings_de_prueba();
    correr(&mut disco, &settings, &["añadir", "Tarea Original"]);
    let archivo_a_importar = "para_importar.json";
    let contenido_importar =
        r#"[{"descripcion":"Tarea Importada 1","completada":false,"ultimo_cambio":null,"tags":[]}]"#;
    disco.insert(archivo_a_importar.to_string(), contenido_importar.to_string());
    correr(&mut disco, &settings, &["importar_y_sumar", archivo_a_importar]);
    let out = correr(&mut disco, &settings, &["listar"]);
    assert!(out.contains("1: Tarea Original [sin etiquetas]"));
    assert!(out.contains("2: Tarea Importada 1 [sin etiquetas]"));
}

#[test]
fn manejo_de_archivos_test_cargar_tareas_y_reemplazar() {
    let mut disco = HashMap::new();
    let settings = settings_de_prueba();
    correr(&mut disco, &settings, &["añadir", "Tarea Vieja que va a desaparecer"]);
    let archivo_a_cargar = "para_cargar.txt";
    let contenido_cargar = "no completada,,Tarea Nueva 1,\ncompletada,2025-01-01T11:00:00Z,Tarea Nueva 2,trabajo;personal";
    disco.insert(archivo_a_cargar.to_string(), contenido_cargar.to_string());
    correr(&mut disco, &settings, &["reemplazar_con_archivo", archivo_a_cargar]);
    let out = correr(&mut disco, &settings, &["listar"]);
    assert!(out.contains("1: Tarea Nueva 1 [sin etiquetas]"));
    assert!(out.contains("2: Tarea Nueva 2 [trabajo, personal]"));
    assert!(!out.contains("Tarea Vieja"));
}

#[test]
fn test_eliminar_todas_las_tareas() {
    let mut disco = HashMap::new();
    let settings = settings_de_prueba();
    correr(&mut disco, &settings, &["añadir", "Tarea de prueba"]);
    let filename = format!("{}.{}", settings.storage.filename_base, settings.storage.format);
    assert!(disco.contains_key(&filename), "El archivo de tareas no se creó antes de eliminar.");
    correr(&mut disco, &settings, &["eliminar_todas"]);
    assert!(!disco.contains_key(&filename), "El archivo de tareas no fue eliminado.");
}

// ---------------------------------------------------------------------------
// Mensajes y casos de borde de cada comando.

fn tres_tareas() -> Vec<Tarea> {
    ["a", "b", "c"].iter().map(|d| Tarea::nueva(d)).collect()
}

#[test]
fn mensajes_de_agregar_y_completar() {
    let settings = mock_settings();
    let mut ts = Vec::new();
    let s = procesar_comando("agregar", "x", &mut ts, &settings, Respuesta::Ninguna);
    assert!(s.cambio && !s.error);
    assert_eq!(s.mensaje, "✅ Tarea agregada.");
    let s = procesar_comando("agregar", "", &mut ts, &settings, Respuesta::Ninguna);
    assert!(!s.cambio);
    assert_eq!(s.mensaje, "❌ Error: El comando para agregar una tarea necesita una descripción.");
    let m = Marca::desde_timestamp(1735729200, 0).unwrap();
    let s = completar::ejecutar_en("1", &mut ts, m);
    assert_eq!(s.mensaje, "✅ Tarea 1 marcada como completada.");
    assert_eq!(ts[0].ultimo_cambio, Some(m));
    let s = desmarcar::ejecutar_en("+1", &mut ts, m);
    assert_eq!(s.mensaje, "✅ Tarea 1 marcada como pendiente.");
    assert!(!ts[0].completada);
    let s = completar::ejecutar_en("", &mut ts, m);
    assert_eq!(s.mensaje, "❌ Error: El comando para completar una tarea necesita un número de ID.");
    let s = desmarcar::ejecutar_en("", &mut ts, m);
    assert_eq!(s.mensaje, "❌ Error: El comando para desmarcar una tarea necesita un número de ID.");
    let s = completar::ejecutar_en("0", &mut ts, m);
    assert_eq!(s.mensaje, "❌ ID de tarea no válido.");
}

#[test]
fn mensajes_de_eliminar() {
    let settings = mock_settings();
    let mut ts = tres_tareas();
    let s = procesar_comando("eliminar", "2", &mut ts, &settings, Respuesta::Ninguna);
    assert_eq!(s.mensaje, "✅ Tarea eliminada: 'b'");
    assert_eq!(ts.iter().map(|t| t.descripcion.as_str()).collect::<Vec<_>>(), vec!["a", "c"]);
    let s = procesar_comando("eliminar", "", &mut ts, &settings, Respuesta::Ninguna);
    assert_eq!(s.mensaje, "❌ Error: El comando para eliminar necesita un número de ID.");
    let s = procesar_comando("eliminar", "3", &mut ts, &settings, Respuesta::Ninguna);
    assert_eq!(s.mensaje, "❌ ID de tarea no válido.");
    assert_eq!(ts.len(), 2);
}

#[test]
fn mensajes_de_etiquetas() {
    let settings = mock_settings();
    let mut ts = tres_tareas();
    let s = procesar_comando("etiquetar", "2   personal extra", &mut ts, &settings, Respuesta::Ninguna);
    assert_eq!(s.mensaje, "✅ Etiqueta 'personal' agregada a la tarea 2.");
    assert_eq!(ts[1].tags, vec!["personal".to_string()]);
    let s = procesar_comando("etiquetar", "2 personal", &mut ts, &settings, Respuesta::Ninguna);
    assert!(!s.cambio);
    assert_eq!(s.mensaje, "👍 La tarea ya tenía la etiqueta 'personal'.");
    let s = procesar_comando("etiquetar", "2", &mut ts, &settings, Respuesta::Ninguna);
    assert_eq!(
        s.mensaje,
        "❌ Error: El comando 'etiquetar' necesita un ID de tarea y un nombre de etiqueta."
    );
    let s = procesar_comando("etiquetar", "9 trabajo", &mut ts, &settings, Respuesta::Ninguna);
    assert_eq!(s.mensaje, "❌ ID de tarea no válido.");
    let s = procesar_comando("desetiquetar", "2 trabajo", &mut ts, &settings, Respuesta::Ninguna);
    assert_eq!(s.mensaje, "👍 La tarea no tenía la etiqueta 'trabajo'.");
    let s = procesar_comando("desetiquetar", "2 personal", &mut ts, &settings, Respuesta::Ninguna);
    assert_eq!(s.mensaje, "✅ Etiqueta 'personal' eliminada de la tarea 2.");
    assert!(ts[1].tags.is_empty());
    let s = procesar_comando("desetiquetar", "", &mut ts, &settings, Respuesta::Ninguna);
    assert_eq!(
        s.mensaje,
        "❌ Error: El comando 'desetiquetar' necesita un ID de tarea y un nombre de etiqueta."
    );
    let s = procesar_comando("desetiquetar", "x personal", &mut ts, &settings, Respuesta::Ninguna);
    assert_eq!(s.mensaje, "❌ ID de tarea no válido.");
}

#[test]
fn desetiquetar_quita_la_primera_aparicion() {
    let mut ts = vec![Tarea {
        descripcion: "d".to_string(),
        completada: false,
        ultimo_cambio: None,
        tags: vec!["a".to_string(), "b".to_string(), "a".to_string()],
    }];
    let s = gestor_tareas::app::commands::desetiquetar::ejecutar("1 a", &mut ts);
    assert!(s.cambio);
    assert_eq!(ts[0].tags, vec!["b".to_string(), "a".to_string()]);
}

#[test]
fn etiquetar_y_desetiquetar_vuelve_al_principio() {
    let settings = mock_settings();
    let mut ts = tres_tareas();
    ts[0].tags.push("personal".to_string());
    let antes = ts.clone();
    let s = procesar_comando("etiquetar", "1 trabajo", &mut ts, &settings, Respuesta::Ninguna);
    assert!(s.cambio);
    procesar_comando("desetiquetar", "1 trabajo", &mut ts, &settings, Respuesta::Ninguna);
    assert_eq!(ts, antes);
}

#[test]
fn agregar_y_eliminar_la_ultima_vuelve_al_principio() {
    let settings = mock_settings();
    let mut ts = tres_tareas();
    let antes = ts.clone();
    procesar_comando("agregar", "nueva", &mut ts, &settings, Respuesta::Ninguna);
    procesar_comando("eliminar", "4", &mut ts, &settings, Respuesta::Ninguna);
    assert_eq!(ts, antes);
}

#[test]
fn listar_y_explicar() {
    let settings = settings_de_prueba();
    let mut ts = tres_tareas();
    let s = procesar_comando("listar", "", &mut ts, &settings, Respuesta::Ninguna);
    assert_eq!(
        s.mensaje,
        "\nLista de Tareas:\n[ ] 1: a [sin etiquetas]\n[ ] 2: b [sin etiquetas]\n[ ] 3: c [sin etiquetas]"
    );
    assert!(!s.cambio);
    let s = procesar_comando("listar", "x", &mut ts, &settings, Respuesta::Ninguna);
    assert_eq!(s.mensaje, "❌ Error: El comando para listar tareas no acepta argumentos.");
    let s = procesar_comando("explicar", "listar", &mut ts, &settings, Respuesta::Ninguna);
    assert_eq!(s.mensaje, "\nAyuda para 'listar':\nUso: listar. Muestra todas las tareas.");
    let s = procesar_comando("explicar", "volar", &mut ts, &settings, Respuesta::Ninguna);
    assert_eq!(s.mensaje, "No encontré ayuda para el comando 'volar'.");
    let mut solo_dos = Diccionario::nuevo();
    solo_dos.insertar("zeta".to_string(), "listar".to_string());
    solo_dos.insertar("alfa".to_string(), "agregar".to_string());
    let otra = Settings { comandos: solo_dos, ..mock_settings() };
    let s = procesar_comando("explicar", "", &mut ts, &otra, Respuesta::Ninguna);
    assert_eq!(
        s.mensaje,
        "\nComandos disponibles:\n- alfa\n- zeta\n\nEscribí 'ayuda <comando>' para más detalles."
    );
}

#[test]
fn cargar_importar_y_eliminar_todas() {
    let settings = mock_settings();
    let mut ts = tres_tareas();
    let s = procesar_comando(
        "importar",
        "x.txt",
        &mut ts,
        &settings,
        Respuesta::Archivo(Ok(vec![Tarea::nueva("d")])),
    );
    assert_eq!(s.mensaje, "✅ Se importaron y agregaron 1 tareas.");
    assert_eq!(ts.len(), 4);
    let s = procesar_comando(
        "importar",
        "x.txt",
        &mut ts,
        &settings,
        Respuesta::Archivo(Err("falla".to_string())),
    );
    assert!(s.error && !s.cambio);
    assert_eq!(s.mensaje, "Error al importar el archivo: falla");
    let s = procesar_comando("importar", "", &mut ts, &settings, Respuesta::Ninguna);
    assert_eq!(s.mensaje, "❌ El comando para importar necesita la ruta a un archivo.");
    let s = procesar_comando(
        "cargar",
        "x.txt",
        &mut ts,
        &settings,
        Respuesta::Archivo(Ok(vec![Tarea::nueva("e"), Tarea::nueva("f")])),
    );
    assert_eq!(s.mensaje, "✅ Se cargaron 2 tareas. La lista anterior fue reemplazada.");
    assert_eq!(ts.len(), 2);
    let s = procesar_comando(
        "cargar",
        "x.txt",
        &mut ts,
        &settings,
        Respuesta::Archivo(Err("falla".to_string())),
    );
    assert_eq!(s.mensaje, "Error al cargar el archivo: falla");
    let s = procesar_comando("cargar", "", &mut ts, &settings, Respuesta::Ninguna);
    assert_eq!(s.mensaje, "❌ El comando para cargar necesita la ruta a un archivo.");
    let s = procesar_comando("eliminar_todas", "", &mut ts, &settings, Respuesta::Borrado(false));
    assert_eq!(s.mensaje, "👍 No había tareas para eliminar.");
    assert_eq!(ts.len(), 2);
    let s = procesar_comando("eliminar_todas", "", &mut ts, &settings, Respuesta::Borrado(true));
    assert_eq!(s.mensaje, "✅ Todas las tareas fueron eliminadas.");
    assert!(ts.is_empty());
    let s = procesar_comando("volar", "", &mut ts, &settings, Respuesta::Ninguna);
    assert_eq!(s.mensaje, "❌ Error interno: Comando 'volar' no reconocido.");
}

#[test]
fn pedidos_de_cada_comando() {
    let settings = settings_de_prueba();
    assert!(matches!(pedido("cargar", "a.txt", &settings), Pedido::LeerArchivo(r) if r == "a.txt"));
    assert!(matches!(pedido("importar", "b.csv", &settings), Pedido::LeerArchivo(r) if r == "b.csv"));
    assert!(matches!(pedido("cargar", "", &settings), Pedido::Ninguno));
    assert!(matches!(pedido("eliminar_todas", "", &settings), Pedido::BorrarArchivo(n) if n == "tareas.txt"));
    assert!(matches!(pedido("listar", "", &settings), Pedido::Ninguno));
    assert!(!debe_guardar("eliminar_todas"));
    assert!(debe_guardar("agregar"));
}

#[test]
fn interpretar_la_linea_de_ordenes() {
    let settings = settings_de_prueba();
    let argv = |v: &[&str]| v.iter().map(|s| s.to_string()).collect::<Vec<String>>();
    assert!(matches!(interpretar(&argv(&["todo"]), &settings), Orden::Menu));
    match interpretar(&argv(&["todo", "añadir", "Comprar", "pan"]), &settings) {
        Orden::Comando(c, a) => {
            assert_eq!(c, "agregar");
            assert_eq!(a, "Comprar pan");
        }
        _ => panic!("se esperaba un comando"),
    }
    match interpretar(&argv(&["todo", "volar"]), &settings) {
        Orden::Desconocida(m) => assert_eq!(m, "❌ Comando 'volar' no reconocido."),
        _ => panic!("se esperaba un comando desconocido"),
    }
}

#[test]
fn etiquetar_dos_veces_es_como_una() {
    let settings = mock_settings();
    let mut ts = tres_tareas();
    procesar_comando("etiquetar", "3 trabajo", &mut ts, &settings, Respuesta::Ninguna);
    let una = ts.clone();
    let s = procesar_comando("etiquetar", "3 trabajo", &mut ts, &settings, Respuesta::Ninguna);
    assert!(!s.cambio);
    assert_eq!(ts, una);
    assert_eq!(ts[2].tags, vec!["trabajo".to_string()]);
}

#[test]
fn completar_y_desmarcar_deja_la_marca_del_segundo_cambio() {
    let mut ts = tres_tareas();
    ts[1].tags.push("personal".to_string());
    let antes = ts.clone();
    let m1 = Marca::desde_timestamp(1735729200, 0).unwrap();
    let m2 = Marca::desde_timestamp(1735732800, 5).unwrap();
    assert!(completar::ejecutar_en("2", &mut ts, m1).cambio);
    assert!(desmarcar::ejecutar_en("2", &mut ts, m2).cambio);
    let mut esperado = antes;
    esperado[1].ultimo_cambio = Some(m2);
    assert_eq!(ts, esperado);
    assert!(!ts[1].completada);
}

#[test]
fn sin_cambio_la_lista_queda_igual() {
    let settings = settings_de_prueba();
    let casos: [(&str, &str); 14] = [
        ("agregar", ""),
        ("completar", ""),
        ("completar", "0"),
        ("desmarcar", "4"),
        ("eliminar", "x"),
        ("listar", ""),
        ("listar", "algo"),
        ("explicar", "agregar"),
        ("etiquetar", "1 inexistente"),
        ("etiquetar", "1"),
        ("desetiquetar", "1 trabajo"),
        ("cargar", ""),
        ("importar", ""),
        ("otro", "1"),
    ];
    for (c, a) in casos {
        let mut ts = tres_tareas();
        let antes = ts.clone();
        let s = procesar_comando(c, a, &mut ts, &settings, Respuesta::Ninguna);
        assert!(!s.cambio, "{c} {a}");
        assert_eq!(ts, antes, "{c} {a}");
    }
    let mut ts = tres_tareas();
    let antes = ts.clone();
    let s = procesar_comando("eliminar_todas", "", &mut ts, &settings, Respuesta::Borrado(false));
    assert!(!s.cambio);
    assert_eq!(ts, antes);
    let s = procesar_comando(
        "importar",
        "x.txt",
        &mut ts,
        &settings,
        Respuesta::Archivo(Err("no está".to_string())),
    );
    assert!(!s.cambio && s.error);
    assert_eq!(ts, antes);
}

#[test]
fn avisos_del_menu() {
    let vacia: Vec<Tarea> = Vec::new();
    assert_eq!(
        aviso_sin_tareas(false, &vacia),
        Some("\nNo hay tareas para etiquetar. ¡Agregá una primero!".to_string())
    );
    assert_eq!(aviso_sin_tareas(true, &vacia), Some("\nNo hay tareas para desetiquetar.".to_string()));
    let ts = tres_tareas();
    assert_eq!(aviso_sin_tareas(true, &ts), None);
    assert_eq!(
        aviso_sin_etiquetas(&ts[0]),
        Some("\nEsa tarea no tiene ninguna etiqueta para eliminar.".to_string())
    );
    let mut t = ts[0].clone();
    t.tags.push("trabajo".to_string());
    assert_eq!(aviso_sin_etiquetas(&t), None);
}
