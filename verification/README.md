# winmux

A terminal multiplexer for Windows: a background server owns the shells,
and a command line and a tray talk to it over a per-user named pipe, one
JSON message per line.

## Layout

- `src/` — the library, verified with Verus: line framing and base64
  (`codec`), identifiers (`ids`), messages and error codes (`messages`,
  `errors`, `types`), the session registry (`session`), the server's
  decisions for each client message (`server`), `send-keys` key tokens
  (`keys`), screen snapshots as escape sequences (`terminal`), the command
  line's and the tray's reading of answers (`cli`, `tray`, `client`), and
  the per-user pipe names with the SHA-256 they are derived from (`user`,
  `sha256`).
- `app/` — plain Rust around it: argument parsing, JSON on the wire, shells
  on pseudo-terminals, virtual terminals, the connection loops of server,
  command line and tray. The protocol and registry decisions are calls into
  the library; the operating-system work (pipe security, job objects, the
  single-instance mutex) is not part of this crate.
- `tests/` — tests of the library.
