# evolution_board

The core of the Evolution OS command-line assistant, written in Verus: the
task state board (stages, history, events for the user, snapshots), the
intent router that maps a request to a command, the conversational shell's
decisions, the start-up phases, the model-server reports and the agent's git
publishing steps. Verus checks every function in `src/` against its
contract; where a function only passes on what a model backend or the clock
answers, its contract says what holds of any answer. `src/laws.rs` holds the
properties that span several operations.

Layout:

- `src/` — the verified library. Language models are reached through the
  `ModelDispatcher` trait. Calls into chrono, uuid, dirs and std stand behind
  the trusted wrappers of `src/ext.rs` and `src/text.rs`; the one call into
  serde_json, which reads a plan's fields, is `manifest_fields` in
  `src/test_record.rs`.
- `app/` — the `evolution` program: argument parsing, the HTTP backend for
  the local Ollama server, reading, writing and probing the board file,
  running programs, printing.
- `tests/` — tests of the library on concrete values.
