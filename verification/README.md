# NetPulse

A network-quality testing service: DNS, TCP, HTTP, page-load, download,
ping and video-playback probes, run as tasks or on cron plans, with results
exported as workbooks, CSV or JSON.

## Layout

- `src/` — the library, verified with Verus. It holds the rules of the
  service and states them in contracts:
  - `urlcheck`, `netaddr`, `ipparse`, `hosts`: which targets may be tested
    (no reserved addresses), and which host each probe aims at;
  - `config`: the settings, their checks, and which video platform a URL
    belongs to;
  - `services`: accounts (registration, login, roles), plans (validation,
    cron schedule, due plans, run deletion), video cookies (platforms,
    domains, validation, sealing with AES-GCM);
  - `api`: the decisions behind the HTTP routes (who may do what, paging,
    export names, import checks, throttling keys);
  - `engines`: the probes' settings, the scripts they inject, how media
    traffic and console hook messages are read, why a video did not play,
    and how the watch loop escalates;
  - `utils`: the sliding-window rate limiter and the error answers;
  - `worker`, `storage`: task options, averages, screenshot paths.
- `tests/` — tests of the library on concrete values.
- `app/` — the server around the library: HTTP routes (axum), SQLite
  (sqlx), Chromium (chromiumoxide), the network probes, the task worker, the
  plan scheduler and the exports. It is ordinary Rust and is not verified.
