# freemd

A small article site (articles, votes, comments, accounts, uploads, search).

- `src/` is the request logic, verified with Verus: each handler is a few
  steps; a step takes the answer of the previous database query and returns
  the next query to run (as a value) or the final answer. It also holds the
  text helpers (trimming, previews, the `user_id` cookie's number format) and
  the calls into argon2, rand and uuid.
- `app/` is the Rocket application: routes, the SQLite database (sqlx),
  templates and cookies. It runs the queries and hands their answers to the
  library.
- `tests/` exercise the library on concrete values.
