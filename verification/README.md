# healthcheck

The verified core of HealthCheck, a local HTTP service monitor: projects group
services, services have HTTP checks, checks are executed on a fixed-delay
schedule, results are stored in SQLite and summarised into health reports.

`src/` is written in Verus and every function in it is verified against its
contract:

- `status` — health statuses, their severity ordering and aggregation;
- `project`, `service`, `check`, `result`, `error` — the domain model and its validation;
- `ids`, `time`, `text` — UUID values, UTC timestamps and text helpers (the
  `uuid`, `chrono` and std calls behind them are the only trusted items);
- `persistence` — the column values stored in SQLite and the conversions to
  and from domain values, with round-trip laws;
- `scheduler` — fixed-delay scheduling state: which checks are due, what a
  completion changes, run statistics;
- `results` — result-sink errors and an in-memory sink;
- `execution` — what an HTTP outcome means for a check;
- `reporting`, `report_text` — service and project health read models and the
  text of the command-line reports;
- `application` — database configuration and use-case errors.

`app/` is the command-line program around it: argument parsing, the SQLite
repositories, the HTTP client, the async scheduler loop and printing.
