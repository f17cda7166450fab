# oobe

The out-of-box-experience plugin engine: it loads onboarding steps as plugin
libraries according to an execution plan, serves their pages and REST APIs,
issues and renews session tokens, relays events between the UI and the engine
over a WebSocket hub, and logs through a configurable logger.

## Layout

- `src/` — the verified library (Verus). Every decision the engine makes is
  here, with its contract:
  - `text` — string operations with exact specifications;
  - `store` — a string-keyed map that remembers insertion order;
  - `jwt` — session tokens, the session cache and its endpoints, request
    authorisation, the token-protected sample resource;
  - `plugins` — plugin file names and paths, execution-plan validation and
    updating, the plugin registry, REST dispatch;
  - `logging` — the logger's configuration, line format, routing of messages,
    dropped-message reports and shutdown;
  - `telemetry` — the telemetry writer and its configuration;
  - `pubsub` — the hub's text protocol and subscription bookkeeping;
  - `engine` — core plugins, event reactions, route mounts, connection retries;
  - `macro_args`, `instrument` — the logging attribute macros' arguments and the
    policies of the code they generate (retries, circuit breaker, throttling).
- `app/` — the program around the library: sockets, files, SQLite, plugin
  libraries through their C ABI, HTTP clients, background threads. It hands the
  library plain values and carries out what the library decides.
- `tests/` — tests of the library's public functions on concrete values.

Calls into outside crates that the library makes (`jsonwebtoken`, `serde_json`,
`rand`) each go through one small wrapper whose contract is stated in its doc
comment.
