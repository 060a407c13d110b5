# gn_engine

The core of the G&N game engine and its editor, verified with Verus.

- `src/` is the verified library: the entity-component store, asset
  management, component types, the renderer's bookkeeping (material,
  mesh and texture handles, texture caching and image decoding, bounded
  light lists, name hashing) and the
  editor's state machines (launcher, panels, backend choice, saved
  preference, command line). Every public function states its result in
  `ensures`; the laws that relate several calls are public proof
  functions named `law_*`.
- `tests/` runs the library on concrete values.
- `app/` is the editor program around the library: the iced windows,
  the wgpu renderer, floating-point scene data (transforms, cameras,
  lights, materials), Lua scripting and the configuration file. It
  performs the effects the library's `EditorState` asks for.
