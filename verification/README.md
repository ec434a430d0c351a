# goldenstorm

The verified core of GoldenStorm, a desktop severe-weather assistant with a
background alert agent and a personality-driven UI.

- `src/` — the library, verified with Verus:
  - `text` — Unicode white space, trimming, collapsing, substring search,
    decimal text, and the lower-case mapping of the standard library;
  - `helpers` — `clean_string`, `opt_str`, `opt_str_ref`;
  - `backend` — the agent's alert records and weather-code names;
  - `agent` — alert severities, the alert the agent shows, and the action
    taken when alerts begin or end;
  - `weather_models`, `weather_api` — NWS alert classification, the alert
    the UI shows, and the addresses it asks;
  - `personality` — the remarks of each persona;
  - `logging` — log names, lines and rotation;
  - `ui` — the page's settings, its IPC messages, and update scripts.
- `app/` — the window, tray, HTTP, files and async runtime around it.
- `tests/` — tests of the library.
