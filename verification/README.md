# pinentry_wukong

A pinentry for GnuPG's gpg-agent: it answers the Assuan protocol on
stdin/stdout and asks the user for passphrases and confirmations in the
terminal, either with a full-screen dialog or line by line, and can cache
passphrases in the operating system's keyring.

The decision logic is a library verified with Verus; the program around it
performs the I/O.

## Layout

- `src/` — the verified library.
  - `command.rs` — the Assuan command grammar.
  - `state.rs` — session state, RESET, the secret buffer.
  - `server.rs` — the server as a state machine: each command, option and
    dialog outcome gives the next state, the replies and the outside work
    (dialog, cache lookup/save/clear) to perform.
  - `ui/keys.rs` — terminal byte and console record decoding into keys.
  - `ui/dialog.rs` — focus, key handling and deadlines of the dialogs,
    description layout.
  - `ui/tty.rs`, `ui/tui.rs`, `ui/detect.rs` — the two front ends' texts and
    answers, and the choice between them.
  - `config.rs`, `cmd/` — configuration rules, file locations and
    command-line decisions.
  - `keychain.rs` — keyring account names and the no-op store.
  - `text.rs` — decimal numbers and string helpers.
- `tests/` — tests of the library.
- `app/` — the program: argument parsing, configuration file, logging, the
  Assuan pipes, terminal drawing and key reading, keyring access.
