# riot_autoaccept

A helper that accepts ready checks of the League of Legends / Teamfight Tactics client
automatically. The decision logic is a library verified with Verus; a Tauri desktop
shell around it does the I/O.

## Layout

- `src/` — the verified library
  - `text.rs`: string operations with exact contracts (`parse_u16`, `trim`, `split_char`,
    `strip_prefix`, `eq_ignore_ascii_case`, decimal formatting)
  - `json.rs`: the JSON model that the client's messages and the settings store are read in,
    and the parse of message text into it (via `serde_json`)
  - `lcu/types.rs`: gameflow phases, queue categories, ready-check state
  - `lcu/discovery.rs`: finding the client's port and token (process command line, then lockfile)
  - `lcu/client.rs`: the `Authorization` header (via the `base64` crate), URLs, endpoints,
    reply text
  - `lcu/websocket.rs`: which socket messages, from their text on, become events
  - `state.rs`, `service.rs`: the service's state machine: phases, queue timer, when to
    accept (auto-accept on, at most one attempt per 1.5 s), counting accepted matches
  - `settings.rs`: the settings and their entries in the settings store
  - `tray.rs`: tray label and menu decisions
- `tests/` — tests of the library on concrete values
- `app/` — the desktop shell: window, tray, commands, HTTP and websocket I/O, process
  listing, file reading, the settings store and the event loop that drives the service
