# mantle

The logic of a Wayland desktop shell (bar, launcher, notification daemon, desktop
services and a runtime styling loader), written in Verus with its behaviour stated as
contracts and proved.

- `src/` — the verified library:
  - `compositor/` — sway and Hyprland: normalising their replies and events into one
    model, the sway IPC framing, Hyprland's socket protocol, window addresses, and the
    reconnection backoff;
  - `config/` — the configuration schema and its defaults, output resolution, the file's
    location and which file events reload it;
  - `launcher/` — desktop entries, `Exec` parsing, fuzzy ranking with launch counts, and
    launch planning;
  - `notifications/` — the `org.freedesktop.Notifications` store (ids, replacement, the
    active limit, expiry), hint decoding, body sanitizing, history and do-not-disturb;
  - `services/` — audio sink tracking, battery, brightness, MPRIS, NetworkManager probing
    and logind power actions;
  - `styling/` — the allowlist, the cache layout, integrity checking, safe unpacking and
    how a tool is run.
- `tests/` — the tests, run against the compiled library.
- `app/` — the runtime around the library: sockets, D-Bus, files, processes and the
  event channel the frontend listens on.
