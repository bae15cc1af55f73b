# Scenario-Queue Manager

The API server of the scenario-queue project: it keeps the queue of
simulation tasks, hands them to executors, records how their runs end, and
stores scenarios, maps and their files.

## Layout

- `src/` — the verified library. `entity` holds the rows the decisions work
  on (timestamps in microseconds since the Unix epoch); `db` the lifecycle of
  tasks and runs (claim, complete, fail, abort, reaping of silent runs) and
  the laws they obey (`db/laws.rs`); `http` the request types, the error
  type and the decisions of each endpoint: request checks, blob answers with
  ETags, path checks, the reading of upload forms and zip archives, and the
  step-by-step creation of uploaded scenarios; `json` and `text` the string
  facts the contracts are stated over.
- `tests/` — tests of the library on concrete values.
- `app/` — the server: configuration, the PostgreSQL tables, the queries,
  the HTTP routes and handlers, the event stream and the reaper. It reads
  requests and rows, asks the library what to do, and writes back.

## Running

The server reads `DATABASE_URL` (required), `MANAGER_BIND_ADDR` (default
`0.0.0.0`), `MANAGER_PORT` (default `9000`), `USELESS_STREAK_LIMIT`
(default `10`), `REAPER_STALE_AFTER_SECS` (default `120`),
`REAPER_INTERVAL_SECS` (default `30`) and `SCENARIO_STORAGE_DIR` (default
`scenarios`).
