# Visuara

A self-hosted remote-desktop tool: a signaling server that pairs a
controller with a host and relays their WebRTC negotiation, and a desktop
client that shares or views a screen over the resulting peer connection.

The library under `src/` is verified with Verus. It holds the protocol and
storage decisions of the signaling server (`ws`, `hub`, `accounts`, `api`,
`downloads`, `release`, `platforms`), the client's state machines
(`client_flow`, `file_transfer`, `clipboard_sync`, `viewer`,
`local_config`), the byte-level embedded-config slot of downloadable
clients (`embedded_config`), page rendering (`html`, `web`, `admin`),
credential minting (`auth`, `turn`, `ids`) and shared text helpers
(`text`, `paths`). Public proof functions named `lemma_*` state the
properties the library guarantees across calls.

`app/` runs the server (HTTP API, downloads, WebSocket endpoint, SQLite
storage) and the client's file, autostart and signaling I/O around the
library; it is ordinary Rust. `tests/` exercises the library on concrete
values.
