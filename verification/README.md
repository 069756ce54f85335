# profile_backend

The verified core of a profile management backend (resumes with skills,
languages, frameworks, education, work experience and portfolio projects,
user accounts, and realtime change notifications over WebSocket).

- `src/` is the library, verified with Verus: error translation, text
  normalisation, the resume access rules as step-by-step service operations
  (`operation.rs` and one module per resource), sign-up, sign-in and bearer
  sessions (`auth.rs`), the change-notification hub (`realtime.rs`), the
  WebSocket session decisions (`ws.rs`), how each endpoint answers
  (`handlers.rs`), and the frontend proxy's paths and statuses (`proxy.rs`).
- `app/` is the Rocket server around it: routes, Diesel queries that answer
  the operations' database requests, request guards, logging, the
  WebSocket loop and the proxy's HTTP client.
- `tests/` exercises the library on concrete values.
