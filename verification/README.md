# growl_auth

Passwordless authentication for the Growl backend, verified with Verus.

- `src/` is the library. It holds the rules of authentication and proves
  them: user-name validation for the email and SMS channels, the sign-up,
  sign-in and login-status flows as step functions (state and event in,
  next action out), the classification of identity-provider errors, the
  identity-token checks (the key id, the key built from the JWK with that id, the validation rules), the
  sessions and challenges, and the answers the HTTP API gives.
- `app/` is the server around it: axum handlers and routes, the Cognito
  and SNS SDK calls, the Postgres user store, JSON (de)serialization and
  logging. It runs the library's flows and performs the actions they ask for.
- `tests/` runs the library on concrete inputs.

Modules of the library: `text` (string helpers), `interface` (errors,
methods, validator trait), `otp` (the validators), `entities`, `values`
(JWKS), `jwt`, `clock`, `cognito`, `repository`, `sms`, `application`
(the flows), `dto` and `handlers`.
