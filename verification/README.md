# qb_backend

The account logic of the QuixByte backend, verified with Verus.

- `src/auth.rs` — registration rules, password checks against stored
  Argon2 PHC strings, session grants, and what each login or registration
  comes to.
- `src/credentials.rs` — the calls into `argon2` and `rand` (trusted
  wrappers with stated contracts).
- `src/problem.rs` — the problem documents the service answers with and
  the catalogue of problem type URLs.
- `src/greeting.rs` — the front page and greeting texts.
- `app/` — the actix-web server: routes, Redis and database access,
  migrations, and JSON (de)serialisation around the library.
