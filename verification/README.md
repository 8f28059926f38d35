# wikify_web

The web server of Wikify, with its rules written as Verus code and proved.

- `src/` is the verified library: accounts and password checks, API keys,
  token claims, permissions and permission contexts, the authentication
  steps of the middleware, the response cache, the rate limiter and input
  validation, the metrics counters, the configuration and its validation,
  the OpenAPI document and its rendering through `utoipa`, the WebSocket
  session decisions, and the helpers the HTTP handlers use.  Public
  functions state what they return in their `ensures`; where a result
  comes from an outside crate (the rendered OpenAPI text, a hash, the
  clock) the contract names it or says what holds of every outcome.  The
  laws that span several functions are the `law_*` proof functions.
- `tests/` runs the library on concrete values.
- `app/` is the server around it: command line, environment, logging, the
  HTTP routes and middleware (axum), SQLite storage (sqlx), token signing
  (jsonwebtoken), the WebSocket loop and the background clean-up tasks.

Calls into `argon2`, `sha2`, `uuid`, `chrono`, `regex`, `serde_json`,
`serde_yaml`, `utoipa` and `dirs` go through small trusted wrappers whose
contracts say what those crates document.
