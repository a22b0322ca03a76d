# oom_edit

The App layer of `oom-edit`, a keyboard-driven Markdown editor for the
terminal, as a Verus-verified library.

- `src/` — the verified library. Each public function states its behaviour
  in `requires`/`ensures`; the laws that relate several functions are public
  proof functions (`lemma_*`).
  - `args` — command-line parsing, help, version and usage text.
  - `config` — configuration values and the step-by-step atomic save.
  - `clipboard` — base64 and the OSC 52 clipboard sequence.
  - `registry`, `keymap`, `routing` — commands, Space chords and key routing.
  - `overlay`, `palette`, `palette_layout`, `confirm`, `trouble`,
    `spell_suggest`, `fuzzy`, `layout` — the modal overlays.
  - `tabs`, `scroll`, `rendered_rows`, `gutter`, `app_state` — tab and
    viewport state.
  - `body_geometry`, `styled_line`, `status_row` — where the body's gutter,
    text and cursor go, styled-line carriers and cropping in display cells,
    and the status row's composition.
  - `event`, `flow`, `lifecycle` — the event-loop schedule and the App's
    lifecycle decisions.
- `tests/` — behaviour tests run against the compiled library.
- `app/` — the program: command-line entry point, configuration file I/O,
  the OSC 52 writer and terminal event conversion.
