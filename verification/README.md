# identity

A user identity service: sign-up, login checks, profiles, password changes and
profile images, backed by Postgres and an S3-compatible object store.

- `src/` is the verified core (Verus): configuration and the database address
  (`config`, `text`), bcrypt password hashing and checking (`password`), user
  records and the decisions around each database query (`user_manager`), object
  keys and bucket decisions (`storage`), the status each failure is answered
  with (`service`), and the step machine that replaces a user's avatar or banner
  (`image_update`).
- `app/` is the program around it: reading the TOML configuration, the sqlx
  queries, the object-store calls, the request handlers and the server.
  The gRPC bindings of the service's protocol are not part of these sources:
  the server starts with an empty router, so every call is answered as
  unimplemented, and the handlers exist as methods of `IdentityService` only.
  The schema migrations are read at start-up from `./migrations`, which these
  sources do not hold either.
- `tests/` runs the library on concrete values.
