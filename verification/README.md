# torq

A supervisor for the Tor process: it launches Tor, follows its log and its
ControlPort for bootstrap progress, requests new identities, and keeps a
consistent picture of the runtime state for a command line and a desktop
frontend.

## Layout

- `src/` — the verified library (Verus). Every decision of the runtime lives
  here with its contract:
  - `domain`, `state`, `runtime_state`, `state_store` — the lifecycle state
    with its invariant, the event reducers and what the state store publishes;
  - `supervisor` — the session supervisor as a state machine from inputs to
    ordered effects;
  - `control` — the ControlPort protocol: reply lines, reply assembly,
    commands, authentication, `status/bootstrap-phase` parsing;
  - `bootstrap_observer`, `log_parser`, `logs`, `log_tail` — bootstrap
    progress from the ControlPort and from the log file;
  - `config`, `runtime_config`, `config_update`, `desktop` — the runtime
    configuration, its validation, its payload form, and how an update is
    applied and persisted with rollback;
  - `process`, `runtime_events`, `cli`, `activity`, `views`, `text` — launch
    arguments, event delivery policy, command line, activity feed, frontend
    views, and text helpers.
- `app/` — the program around it: processes, files, sockets, timers and
  channels (tokio), JSON (serde), and the prompt.
- `tests/` — tests of the library.
