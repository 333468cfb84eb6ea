# chat_server

The verified core of a small chat server (user accounts, session tokens, direct
and group rooms, live room channels).

- `src/` is the library, verified with Verus: error texts, password hashing and
  checking (Argon2), session tokens (JWT), request validation, room keys, the
  confirmation e-mail's content, and each request handler's decisions written as
  a state machine that names the next database, e-mail or socket call and takes
  its outcome as the next event.
- `app/` is the server around it: the HTTP routes (axum), the database (sqlx),
  SMTP (lettre) and websockets, which run the library's machines.
- `tests/` runs the library on concrete values.
