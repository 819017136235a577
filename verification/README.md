# Torrent Throttle

Watches the running processes and pauses or throttles a torrent client
(qBittorrent through its WebUI API, or Transmission through its RPC API)
while one of the configured programs runs, then resumes it or restores its
speed limits when they are gone.

## Layout

- `src/` is the library, verified with Verus. Every decision lives here,
  with its contract:
  - `monitor` – which process names match the configured patterns;
  - `engine` – one monitoring cycle as a state machine: engage, disengage
    or do nothing, and which client calls that takes;
  - `qbit`, `transmission` – the two client protocols as state machines
    from response to next request (login and 403 retry, pause/resume
    endpoint fallback, the Transmission session-id handshake, unit
    conversions); `client` puts them behind one interface;
  - `applet`, `settings`, `tray` – the panel applet's, the settings
    window's and the tray icon's models and messages;
  - `config`, `json`, `http`, `text`, `sandbox` – the data they share.
- `app/` runs the library: it sends the HTTP requests the protocol
  machines ask for (reqwest), lists processes (sysinfo), stores the
  settings as JSON, and shows a tray icon (ksni).
- `tests/` drives the machines with canned responses.

Laws the library states and proves are the public `lemma_*` proof
functions of each module.
