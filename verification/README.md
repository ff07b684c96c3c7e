# p5136

The verified core of the P5136 launcher and server front end.

- `src/` is the library, checked by Verus:
  - `auth_protocol`: the launcher authentication frame (magic, version,
    length-prefixed UTF-8 fields) with encoders and decoders whose contracts
    pin every byte, and the round-trip and canonical-frame laws.
  - `auth_client`: what the launcher sends for each login mode and how it
    reads the server's answer.
  - `launcher_inputs`, `server_inputs`: validation of the connector and
    server forms, message for message.
  - `execution`: the order of a connector run as a state machine (prepare,
    optional DataRaw check, probe, launch) and its cancellation points.
  - `run_state`, `server_lifecycle`: the window's run states and what a close
    request does to a running server.
  - `lan`: ranking of LAN addresses offered to clients.
  - `labels`, `content_labels`, `i18n`, `local_files`, `text`: localized
    labels, file names and the text primitives the rest is stated over.
- `tests/` runs the library on concrete values.
- `app/` holds what Verus does not see: sockets, files, logging, the
  asynchronous connector driver, settings persistence and the platform
  defaults.
