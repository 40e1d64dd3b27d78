# fractalwonder_ui

The user-interface layer of the Fractal Wonder Mandelbrot explorer, with its
logic written in Verus and proved against its contracts.

## Layout

- `src/` — the verified library.
  - `tiles`, `pixel`, `assembly`, `arith`: center-out tiling of the canvas,
    assembling tile results and GPU row-sets into one row-major buffer.
  - `adam7`: the Adam7 interlaced progressive passes and the accumulator that
    merges them.
  - `render_progress`, `render_control`: render phases, step counts,
    cancellation by generation, the GPU row-set schedule.
  - `interaction`, `ui_state`: the canvas interaction state machine, panel
    auto-hide and toast timing.
  - `cycles`, `render_settings`, `palette_lut`, `colorizer_registry`,
    `test_image`: color-cycle bounds, the palette lookup table, the colorizer
    registry and the test-pattern colors.
  - `palette_names`, `palette_editor`, `palette_catalog`: palette editing
    modes, unique copy names, the editor's dialogs and commands, and the
    built-in palette and preset catalog.
  - `explorer_controls`: keyboard shortcuts, panel buttons and palette
    reordering.
  - `runtime_settings`: the cache of the CPU-thread and GPU settings.
  - `state_codec`: the URL-hash encoding of the explorer state (DEFLATE via
    `flate2`, URL-safe base64 via `base64`).
- `tests/` — tests of the library on concrete values.
- `app/` — the browser side, on top of the library: local storage and the
  URL hash (`config.rs`, `persistence.rs`, `controls.rs`), canvas drawing
  and the preview transform (`canvas_utils.rs`), the clock
  (`render_timing.rs`), and the floating-point color pipeline and display
  texts (`color_space.rs`, `gradient.rs`, `palette.rs`, `colorize.rs`,
  `shading.rs`, `test_pattern.rs`, `display.rs`). The Leptos view
  components are not part of this crate.
