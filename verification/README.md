# Penny

Penny is a transparent, always-on-top overlay for drawing over any app while
streaming: pen, highlighter, lines and arrows, rectangles and ellipses, text,
an object eraser and a laser pointer, with global hotkeys and a click-through
mode.

## Layout

- `src/` — the library, verified with Verus:
  - `model.rs`: tools (names, hotkeys, Phosphor glyphs), the colour palette
    and the stroke colour (highlighter translucency through egui's `Color32`).
  - `history.rs`: committed marks with whole-canvas undo/redo snapshots,
    bounded to 100 steps, the snapshots sharing the marks (`Rc`); clear, erase
    and fade-out pruning; the laws relating
    undo, redo and the changes.
  - `overlay.rs`: the editing state (history, freehand path, shape drag,
    text entry) and the click-through / hidden modes with the window requests
    they make.
  - `keys.rs`: draw-mode keyboard shortcuts.
  - `hotkeys.rs`: which global shortcut a key event belongs to.
  - `tray.rs`: tray menu choices (one click and a frame of clicks) and the
    tray glyph.
  - `toolbar.rs`: when the toolbar offers click-through and which way out it
    points to.
- `app/` — the egui/eframe program around the library: window, painting and
  floating-point geometry (hit tests, snapping, fading), settings file, hotkey
  registration, tray icon and screenshot export.
- `tests/` — tests of the library.
