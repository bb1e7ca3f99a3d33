use gestor_tareas::data::{Priority, Statistics, Subtask, Task};
use gestor_tareas::functions::{
    add_task, complete_task, edit_task, elegir_categoria, list_tasks, prioridad_desde_entrada,
    remove_task, show_stats, Edicion,
};

fn consistentes(ts: &[Task], s: &Statistics) -> bool {
    let hechas = ts.iter().filter(|t| t.done).count();
    s.done_tasks == hechas
        && s.pending_tasks == ts.len() - hechas
        && s.added_tasks == ts.len() + s.removed_tasks
}

#[test]
fn estadisticas_siguen_a_la_lista() {
    let mut ts = Vec::new();
    let mut s = Statistics::default();
    assert!(add_task(&mut ts, "uno", Priority::Alta, "casa", &mut s));
    assert!(add_task(&mut ts, "dos", Priority::Baja, "Sin Categoría", &mut s));
    assert!(!add_task(&mut ts, "", Priority::Media, "x", &mut s));
    assert!(consistentes(&ts, &s));
    assert_eq!((s.added_tasks, s.pending_tasks, s.done_tasks), (2, 2, 0));
    assert!(complete_task(&mut ts, 1, &mut s));
    assert!(complete_task(&mut ts, 1, &mut s));
    assert!(!complete_task(&mut ts, 3, &mut s));
    assert_eq!((s.done_tasks, s.pending_tasks), (1, 1));
    assert!(consistentes(&ts, &s));
    assert_eq!(remove_task(&mut ts, 1, &mut s), Some("uno".to_string()));
    assert_eq!(remove_task(&mut ts, 5, &mut s), None);
    assert_eq!((s.added_tasks, s.done_tasks, s.pending_tasks, s.removed_tasks), (2, 0, 1, 1));
    assert!(consistentes(&ts, &s));
}

#[test]
fn completar_marca_las_subtareas() {
    let mut ts = vec![Task {
        description: "t".to_string(),
        done: false,
        priority: Priority::Media,
        tag: "c".to_string(),
        subtasks: vec![
            Subtask { description: "s1".to_string(), done: false },
            Subtask { description: "s2".to_string(), done: true },
        ],
    }];
    let mut s = Statistics { added_tasks: 1, done_tasks: 0, pending_tasks: 1, removed_tasks: 0 };
    complete_task(&mut ts, 1, &mut s);
    assert!(ts[0].done && ts[0].subtasks.iter().all(|x| x.done));
    assert_eq!(
        list_tasks(&ts),
        "\n LISTA DE TAREAS:\n[X] 1: t (Media) - c\n\t[X] 1.1 s1\n\t[X] 1.2 s2"
    );
}

#[test]
fn ediciones() {
    let mut ts = Vec::new();
    let mut s = Statistics::default();
    add_task(&mut ts, "t", Priority::Alta, "c", &mut s);
    assert!(edit_task(&mut ts, 1, Edicion::Descripcion("  nueva \n".to_string())));
    assert_eq!(ts[0].description, "nueva");
    assert!(edit_task(&mut ts, 1, Edicion::Prioridad(Priority::Baja)));
    assert_eq!(ts[0].priority, Priority::Baja);
    assert!(edit_task(&mut ts, 1, Edicion::Categoria("otra".to_string())));
    assert!(edit_task(&mut ts, 1, Edicion::AgregarSubtarea(" sub\n".to_string())));
    assert!(!edit_task(&mut ts, 1, Edicion::AgregarSubtarea("  \n".to_string())));
    assert!(!edit_task(&mut ts, 1, Edicion::CompletarSubtarea("2".to_string())));
    assert!(!edit_task(&mut ts, 1, Edicion::CompletarSubtarea("x".to_string())));
    assert!(edit_task(&mut ts, 1, Edicion::CompletarSubtarea(" 1\n".to_string())));
    assert!(!edit_task(&mut ts, 2, Edicion::Prioridad(Priority::Alta)));
    assert_eq!(ts[0].format_task(1), "[ ] 1: nueva (Baja) - otra\n\t[X] 1.1 sub");
    assert!(consistentes(&ts, &s));
}

#[test]
fn preguntas_de_prioridad_y_categoria() {
    assert_eq!(prioridad_desde_entrada(" 1\n"), Some(Priority::Alta));
    assert_eq!(prioridad_desde_entrada("2"), Some(Priority::Media));
    assert_eq!(prioridad_desde_entrada("3\n"), Some(Priority::Baja));
    assert_eq!(prioridad_desde_entrada("4"), None);
    assert_eq!(prioridad_desde_entrada("alta"), None);
    let mut tags = vec!["casa".to_string()];
    assert_eq!(elegir_categoria("\n", &mut tags), Some("Sin Categoría".to_string()));
    assert_eq!(elegir_categoria(" 1 ", &mut tags), Some("casa".to_string()));
    assert_eq!(elegir_categoria("2", &mut tags), None);
    assert_eq!(elegir_categoria(" trabajo\n", &mut tags), Some("trabajo".to_string()));
    assert_eq!(tags, vec!["casa".to_string(), "trabajo".to_string()]);
}

#[test]
fn reporte() {
    let s = Statistics { added_tasks: 3, done_tasks: 1, pending_tasks: 1, removed_tasks: 1 };
    assert_eq!(
        show_stats(&s),
        "\n--- REPORTE DE ESTADÍSTICAS ---\nTareas Agregadas: 3\nTareas Completadas: 1\nTareas Pendientes: 1\nTareas Eliminadas: 1\n-------------------------------"
    );
}
