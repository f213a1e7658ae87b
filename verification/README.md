# meshtui

A terminal client for Meshtastic radios: chat channels and direct conversations, the node
list, device discovery and connection, radio settings forms and a log view.

## Layout

- `src/` is the library, verified with Verus. It holds the application state and the store
  that changes it (`store.rs`, and in `change.rs` when an action changes the state and so is
  published; the laws it keeps are in `laws.rs` and `form_laws.rs`), the plain models of what
  the radio sends (`radio.rs`), node and device ordering, the settings forms, the decisions of
  every service (`service/`) and the logic of every screen (`ui/`, with its laws in
  `ui_laws.rs`). Calls into outside crates (meshtastic, prost, itertools, chrono, strum, regex)
  stand behind small trusted wrappers whose contracts say what the library relies on.
- `app/` is ordinary Rust around the library: the tokio tasks that run the store, the services,
  the radio link and the terminal, drawing with ratatui, configuration files with confy, and
  the conversions between the outside crates' values and the library's.
- `tests/` runs the library on concrete values.
