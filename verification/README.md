# connected

The authentication core of the ConnectEd learning portal: registration with the
first-user bootstrap rule and the approval gate, login, refresh-token rotation,
logout, the access-token extractor and role guards, and the mapping of errors to
HTTP statuses. The decisions are verified with Verus; the HTTP server, the
PostgreSQL queries and the JSON form of the claims live in `app/`.

Layout:

- `src/role.rs` — roles and the role markers used by the guards.
- `src/error.rs` — `AppError` and the status/message each error is answered with.
- `src/models.rs` — request, response, row and claims types, with their views.
- `src/digest.rs` — SHA-256 (via `sha2`) and lowercase hex, for stored refresh tokens.
- `src/password.rs` — bcrypt hashing and checking (via `bcrypt`).
- `src/clock.rs` — the current Unix time.
- `src/jwt.rs` — HS256 signing and decoding of claims texts (via `jsonwebtoken`).
- `src/tokens.rs` — token claims, the token pair and its rotation, the session record, token acceptance (type and expiry).
- `src/middleware.rs` — the access-token extractor's checks and `RequireRole`.
- `src/auth.rs` — the steps of register, login, refresh, logout and the profile routes.
- `src/laws.rs` — properties that span several of these steps, proved.
- `app/` — axum routes, SQL, claims to and from JSON, configuration.

Each route in `app/` calls the library step by step: a step either answers the
request or names the next database call to make, and the outcome of
that call is handed to the next step.
