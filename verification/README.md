# hylandia_api

The Hylandia web API: Sign in with Hytale (OAuth authorization code + PKCE)
and our own sessions (short-lived ES256 access tokens, rotating refresh
tokens stored only as hashes).

- `src/` is the verified library: configuration parsing, redirect
  sanitizing, the OAuth state cookie framing, PKCE, cookie attributes, the
  error model, id_token checks, the order of a sign-in after Hytale's
  redirect, who an access token authenticates, signing-key selection and
  lookup, key loading (which PEM each key is built from), the requirements tokens are checked against, and the header and
  claims of our access tokens. Each function states its behaviour in `requires` /
  `ensures`, and the laws that span functions are proof functions.
- `app/` is the server around it: environment reading (a `.env` file in the
  working directory is loaded first, when there is one), axum routes and
  middleware, Postgres through diesel, HTTP calls to Hytale, JSON, token
  signing, logging and Sentry.
- `tests/` exercise the library on concrete values.
