# things-api

A REST API for Things 3 on macOS, driven through AppleScript, together with a
small control plane that hands out Cloudflare tunnels and a terminal client.

## Layout

- `src/` — the library, verified with Verus:
  - `script`, `text`, `commands`, `output` — AppleScript source built from
    requests (with escaping that reads back to the original text) and the
    line-and-field records that the scripts print, parsed back into models;
  - `models`, `server`, `url` — the server's records, bearer-token checks,
    token generation, percent-encoding;
  - `control` — username rules, the Cloudflare envelope, and the signup state
    machine with its rollback of every step that created remote state;
  - `tui` — the terminal client's calendar arithmetic, configuration, key map,
    forms and state machine.
- `app/` — the programs around the library: the axum server, the control plane
  (reqwest, sqlx), the cloudflared runner, and the ratatui client's event loop
  and drawing.
- `tests/` — tests of the library on concrete values.
