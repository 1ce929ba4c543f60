# notes

A small notes service: users sign up and log in with a password, receive a
signed token, and keep private notes; a policy enforcer and an ownership
check guard the protected endpoints.

- `src/` is the library, verified with Verus: settings (`config`), the
  records and their checks (`entities`), what the repositories compute
  (`db`), decimal reading (`decimal`), Argon2 hashing (`password`), the
  seeded access policies (`policies`), and what each endpoint decides
  (`routes`), from the checks on a request to the answer it gets.
- `app/` is the HTTP program around it: environment, SQLite, Redis, the
  Casbin enforcer and its answers, JWT encoding and decoding, the clock,
  and the axum routes.
- `tests/` exercises the library on concrete values.
