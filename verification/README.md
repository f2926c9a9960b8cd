# matrix-mcp

A Model Context Protocol server for the Matrix chat protocol, with its logic verified in Verus.

- `src/` is the verified library: it reads the configuration, checks what the tools are asked for,
  decides step by step what is done with the Matrix client (logging in and out, restoring a
  session, reading messages and threads, verifying this device, ...), renders events as messages
  and builds the answers of the tools. Every function states in its contract what it returns;
  the functions named `law_...` state what holds across functions.
- `app/` is the program around it: it runs the transports, drives the Matrix client, and reads and
  writes files.
- `tests/` runs the library on concrete values.

Identifiers, events, JSON, Markdown and MIME types are those of the crates `ruma` (through `matrix-sdk`),
`serde_json` and `mime_guess`; what the library relies on of them is stated at the functions marked
`external_body`.

`app/` needs `matrix-sdk` with the features `e2e-encryption`, `automatic-room-key-forwarding`,
`sqlite`, `bundled-sqlite` and `sso-login` switched on; the library does without them.
