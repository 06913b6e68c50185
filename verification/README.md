# xai-grok-desktop

The verified core of Grok Desktop and of its local browser console.

- `src/` is the library, written in Verus: every public function carries a
  contract over a mathematical model of its inputs, and the laws that span
  several functions are public proof functions (`lemma_*`).
  - `domain/`, `commands/`: the slash-command catalog and the IPC surface.
  - `web/`: the access token, the loopback origin and the HTTP/WebSocket
    access checks of the browser console.
  - `services/`: the terminal handoff argument vector, the session registry,
    and the approval bookkeeping of the agent bridge.
  - `config/`: `config.toml` as a tree of plain values, its TOML text
    (parsed and printed by `toml`), and the edits that add models, set the
    default model and save custom API models, on the tree and on the text;
    the normalizations of the settings writers; the `grok models` reports.
  - `runtime.rs`: the command line and WebSocket address of the bundled
    agent server.
- `app/` is ordinary Rust around the library: the loopback HTTP server
  (axum), file and process I/O, and serde copies of the wire types.
- `tests/` exercise the library with the real outside crates linked.
