# overlay_core

The decision-making core of a set of desktop overlays: floating result
windows (plain text or a markdown view, with undo/redo, refinement,
browsing and text-to-speech buttons), a screen-area selection overlay, a
recording overlay, a screen recorder's control page, and the realtime
transcription/translation overlays.

Everything in `src/` is verified with Verus: every public function states
in `ensures` what it returns or how it changes its arguments, and the
properties that relate several operations are stated and proved as
`lemma_*` proof functions.

## Layout

- `src/layout.rs` – window placement without overlap, button rows, resize
  edges and hit tests.
- `src/window_state.rs` – one result window: text history, browsing,
  speech, display throttling, mouse dragging, hover, the refresh timer.
- `src/registry.rs` – the table of open result windows and the operations
  on several windows (links, groups, closing a chain, button actions).
- `src/refine_input.rs` – the refine bar of a result window.
- `src/text_fit.rs` – the font-size search of the plain-text window.
- `src/html.rs`, `src/markdown.rs` – the markdown view's pages and the
  scripts sent to it (markdown rendered with pulldown-cmark).
- `src/ipc.rs` – JSON messages of the markdown view, the button canvas and
  the recorder's page.
- `src/selection.rs` – the selection overlay: outcome of a drag, fading,
  keys, pixel work.
- `src/recording.rs` – the recording overlay's state machine and page.
- `src/screen_record.rs` – monitors, hotkeys, the recorder's commands and
  the range requests of its video server.
- `src/realtime.rs` – the realtime overlays: text shown, scripts, page
  messages, placement, reading translations aloud, language list
  (ISO codes from isolang).
- `src/text.rs`, `src/numbers.rs` – text and number helpers with
  specifications.
- `app/` – unverified glue: shared state behind locks, serde types and
  JSON, floating-point sizing and painting helpers.
- `tests/` – tests of the library on concrete values.
