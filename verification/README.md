# window_context

The state and decisions of a small winit window application, verified with
Verus.

- `src/` — the library: themes and fill colours (`theme`), user actions and
  their help texts (`action`), cursor grab modes and cursor cycling
  (`cursor`), sizes and drag-resize directions (`geometry`), frame filling
  (`frame`), custom cursor images decoded from image files (`cursor_image`),
  and the per-window state with its action handling (`window_state`).
- `app/` — the program: winit event loop, softbuffer surfaces, and the calls
  that carry out what the library decides.
- `tests/` — tests of the library on concrete values.
