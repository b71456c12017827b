# rust_axum

An authentication web service (registration, login, logout, password change,
account administration) whose decisions are verified with Verus.

* `src/` is the verified library. Each handler and guard is a flow: a start
  function names the first thing to do (look a user up, check a password,
  sign a token, ...), and the flow's `step` takes the report of that action
  and names the next one, until it answers. The contracts say, for every
  state and report, what comes next; proof functions state properties of
  whole runs (a login succeeds only after the password matched, a
  registration stores lower-cased names only after both uniqueness queries
  came back free and so keeps names unique, a password change needs the old
  password, the guard admits only tokens with a matching signature, unexpired
  claims and an existing user).
  - `models.rs`: users, request payloads and their validation rules.
  - `error.rs`, `reply.rs`: errors and the HTTP answers given for them.
  - `services/`: access tokens (`jwt.rs`), the token cookie (`cookie.rs`),
    uniqueness checks (`conflict.rs`), bcrypt hashing (`password.rs`).
  - `handlers/`, `middleware.rs`: the flows.
  - `ids.rs`, `clock.rs`, `text.rs`: UUIDs, the clock, case folding.
* `app/` is the server: axum routing, the PostgreSQL access through diesel,
  the background threads that run the library's password work, parsing of
  token claims, and the conversion of the library's answers and cookies into
  HTTP.
* `tests/` exercise the library on concrete values.
