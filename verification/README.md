# quads_tui

A terminal interface for QUADS bare-metal scheduling: several servers with
saved credentials, host browsing with status filters and fuzzy search, the
self-schedule workflow (pick hosts, pick or create an assignment, schedule
them), assignment and cloud views, and manual or automatic refresh.

The interface logic is a library verified with Verus (`src/`); the program
around it (`app/`) draws the screens, talks HTTP, reads and writes files and
runs the event loop.

## Layout

- `src/state.rs` — the interface state (`App`), keys, popups, and the work
  the interface asks its runner to do (`Effect`).
- `src/dispatch.rs` — where a key press goes (`App::on_key_press`,
  `App::handle_key`); `src/dashboard_keys.rs`, `src/keys.rs`,
  `src/host_keys.rs`, `src/assignment_keys.rs`, `src/popup_keys.rs` and
  `src/form_keys.rs` say what each key does on each screen and popup.
- `src/flows.rs`, `src/outcomes.rs` — logging in and out, and what the
  interface does with the outcome of the work it asked for.
- `src/config.rs`, `src/config_file.rs`, `src/config_doc.rs` — the
  configuration, the changes that write it into its file, and the new file
  text made with `toml_edit` from the old one.
- `src/api.rs`, `src/json.rs`, `src/models.rs` — the QUADS API: endpoints,
  and what each reply means.
- `src/update.rs` — newer releases.
- `src/stats.rs`, `src/hints.rs`, `src/info_view.rs`, `src/views.rs` — what
  the screens show.
- `src/laws.rs` — properties that span several operations.
- `app/` — the program: `main.rs` (event loop), `net.rs` (HTTP),
  `store.rs` (reading and writing the configuration file), `ui.rs` (drawing), `wire.rs` (serde
  shapes).
