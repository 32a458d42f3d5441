# bevy_ta

The decision logic of a Bevy NPR lookdev application (toon materials,
render profiles, a material editor and a remote-debug interface), written in
Verus and proved against its contracts.

- `src/` is the verified library:
  - `text`: Unicode trimming, decimal numbers, port parsing, string order.
  - `sorting`: a verified stable sort over a key order.
  - `profile`: render profiles (`.toon-model.ron`) and their part bindings.
  - `paths`: where profiles and captures are written.
  - `shader_profile`: shader handlers by key and material field paths.
  - `toon`: material sources, ramp interpolation names, texture requests.
  - `remote`: the remote interface's targeting, errors and profile saving.
  - `selection`, `picking`, `gizmos`, `debug_camera`, `brp_tools`,
    `material_panel`: editor and debug state machines and plans.
- `tests/` exercises the library on concrete values.
- `app/` is the Bevy application around the library: rendering, egui
  windows, file and network I/O, and the floating-point parameters.
