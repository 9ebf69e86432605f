# auth_service

An authentication service: password and passwordless logins (with the
decisions of passkey ceremonies in the library, though the program serves no
passkey routes for want of a WebAuthn implementation),
cookie sessions, bearer token pairs with refresh-token rotation, password
resets, a permission bit map per user, and a reverse proxy that forwards
authenticated requests upstream with the caller's identity.

## Layout

- `src/` — the verified library (Verus). The service's decisions are here,
  with their contracts:
  - `token.rs` — raw tokens (32 random bytes, base64url) and their SHA-256 hex hashes
  - `text.rs` — Unicode whitespace trimming
  - `ident.rs` — UUIDs as 128-bit values and their hyphenated text
  - `account.rs` — login checks, password strength and hashing, password changes
  - `reset.rs` — password-reset requests and confirmations
  - `refresh.rs` — token pairs, refresh with rotation, logout
  - `session.rs` — session cookies, request admission, the dirty flag
  - `passwdless.rs` — passwordless challenges (magic link plus one-time code)
  - `passkey.rs` — passkey ceremony state and the order of decisions in its handlers
  - `authz.rs` — granting and denying permission bits, claiming the admin role
  - `proxy.rs` — which headers reach upstream, and the identity headers asserted
  - `logging.rs` — the request log line
  - `errors.rs` — domain errors and the HTTP answers they map to
  - `models.rs` — the session user
- `tests/` — tests of the library, run against the real outside crates.
- `app/` — the actix-web program: routes, database queries, the session store,
  middleware, the event bus and the proxy's HTTP client. It performs the
  storage steps the library asks for and answers with what the library decides.

Flows that alternate storage and decisions (refresh, password change and its
answer, request admission, passkey login and the start of a passkey
registration) are written in the library as small state machines:
`start` gives the first stage and action, `step` takes the stage and what the
storage step reported and gives the next stage and action.
