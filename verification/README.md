# projectx

The ProjectX identity and web services, with their logic verified in Verus.

- `src/` is the verified library: accounts, sessions, providers and passkeys; issuing
  and checking token claims; the password sign-in state machine with its lockout rules;
  the provider sign-in and token-refresh state machines; request validation; role
  guards; the WebAuthn passkey ceremonies (through `webauthn-rs`), with the passkey
  sign-in state machine; the identity service's login check (through `bcrypt`); and how
  errors are answered (HTTP problem details, gRPC statuses).
- `app/` is the web server around it: axum routes and extractors, PostgreSQL queries,
  the Redis cache, JWT encoding and decoding, and Prometheus metrics. It
  performs each action the library's state machines ask for and hands the outcome back.
- `tests/` exercises the library on concrete values.
