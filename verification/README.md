# orbifon

The verified core of the Orbifon chat server's WebSocket handlers.

- `src/` (Verus): error classification (`error`), Unicode trimming and the
  body-length rule (`text`), channel names (`keys`), the protocol messages
  (`message`), the decision taken for each client message and frame
  (`handler`), and the registry of who listens on which channel (`registry`).
- `app/` (plain Rust): the Axum server, the MySQL queries, the WebSocket
  tasks, JSON (de)serialisation and logging; it carries out the library's
  decisions.
- `tests/`: tests of the library on concrete values.
