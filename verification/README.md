# gestor_tareas

Un gestor de tareas de línea de órdenes cuya lógica está verificada con Verus.

- `src/` es la biblioteca verificada:
  - `app/commands/`: cada comando (`agregar`, `completar`, `etiquetar`, ...) como
    una función con contrato sobre la lista de tareas; `leyes.rs` reúne lo que
    vale de varios comandos juntos.
  - `app/mod.rs`, `app/ui.rs`: las decisiones de la línea de órdenes y del menú.
  - `storage/`: los formatos de texto y CSV (escritura y lectura, con la ida y
    vuelta demostrada) y la elección del formato.
  - `settings.rs`: la configuración y sus valores por defecto.
  - `marca.rs`: las marcas de tiempo, a través de `chrono`.
  - `texto.rs`: las operaciones sobre cadenas que usan las demás partes.
  - `data.rs`, `functions.rs`: las tareas con prioridad, categoría y
    subtareas, con sus estadísticas de uso.
- `app/` es el programa: lee `Settings.toml`, lee y escribe archivos, muestra
  el menú con `dialoguer` y hace lo que la biblioteca decide.
- `tests/` ejercita la biblioteca con valores concretos.
