# auth_server

An OAuth 2.1 authorization server core (pushed authorization requests, the
authorization-code confirmation step, and a password sign-in flow), written in Verus.

- `src/` is the verified library: request validation against registered clients, the
  decisions of each endpoint as step functions (the store's answers are passed in as
  arguments), the error pages, JSON errors and redirects each failure is answered with,
  and the store keys. Calls into `uuid`, `rand`, `base64` and `url` stand behind small
  trusted wrappers in `src/support/`.
- `app/` is the HTTP server (axum), the redis store, the client registry read from
  `seed/clients.yaml`, and the HTML templates. It runs the library's steps and performs
  the I/O between them.
- `tests/` exercises the library on concrete values.
