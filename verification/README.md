# tictactoe

A networked Tic-Tac-Toe game: the rules of the board, the wire messages, the
terminal client's state machine and the adversarial actor that probes a
server, written in Verus with the client's behaviour stated and proved.

## Layout

- `src/` — the verified library (crate `tictactoe`).
  - `domain/` — players, cells, positions, the board and its status, ages,
    usernames, profiles.
  - `protocol/` — identifiers and the messages exchanged with the server.
  - `client/` — the client: forms, screens, key bindings, configuration,
    and `update/`, the state machine. `update::step` states what every
    event does; `apply_event` is proved to do exactly that, and
    `update::laws` proves properties that hold of every step.
  - `hacker/` — the scenarios the adversarial actor runs, how they are
    chosen, and how a server's replies are judged.
  - `text.rs` — string helpers and the few facts taken on trust from `std`.
- `tests/` — tests run against the compiled library.
- `app/` — the programs around the library: the terminal UI (`ratatui`,
  `crossterm`), the WebSocket transport (`tokio-tungstenite`, `rustls`),
  the JSON encoding of the protocol (`serde`), the configuration file
  (`toml`, `directories`) and the hacker's network probes. `tictactoe`
  starts the client; `tictactoe hacker ...` runs the adversarial actor.
