# pipeline-manager

Verified core of the pipeline manager's HTTP API.

- `src/runner/` — `RunnerError`: its error codes, HTTP status codes and
  messages, with proofs that a code identifies its variant and that a message
  reports every field of the error; `Timeout`, the span after which the runner
  gave up.
- `src/api/` — the level at which responses are logged, reading path
  parameters of a request, the URL that the server announces.
- `src/db/` — pipeline identifiers (UUIDs) and the program updates that the
  storage layer is asked for.
- `app/` — the unverified server side: `Display`, `Serialize` and
  `ResponseError` for the errors, response logging, the OpenAPI document and
  the async storage trait.
