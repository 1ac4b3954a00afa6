# ray_tracing

A small interactive ray tracer. The library holds the parts of it that are
integer, identifier and collection logic, each function with a contract proved
by Verus; the program around it (window, event loop, floating-point geometry
and shading) lives in `app/`.

## Layout

- `src/ids.rs` – identifiers of materials, primitives, objects and compiled items.
- `src/error.rs` – error types, and the mapping of scene errors to application errors
  with their message texts.
- `src/input.rs` – key state machine: events in, pressed keys, commands and camera
  motions out.
- `src/render.rs` – the RGB frame buffer and the renderer handles.
- `src/asset.rs` – meshes, primitive and material assets, scene objects.
- `src/scene.rs` – the editable scene: every edit is checked, numbered and recorded in
  the change history; parent/child links stay consistent.
- `src/runtime.rs` – compilation of a scene into one shared vertex buffer with
  compiled primitives and instances, and in-place updates of a compiled scene.
- `src/graph.rs`, `src/text.rs` – the dependency graph text of a scene.
- `src/object.rs` – the flat object list.
- `src/platform.rs` – what a window must offer to the program.
- `tests/` – tests on concrete values.
- `app/` – the program: SDL window, camera, matrices, shading, main loop.
