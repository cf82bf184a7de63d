# auth_backend

An e-mail/password and Google sign-in service for axum and PostgreSQL.

- `src/` is the verified library (Verus): how refusals are answered
  (`error`), password generation, hashing and checking (`passwords`),
  account ids in session tokens (`ids`), stored accounts and reset codes
  (`models`), request bodies (`requests`), the decision steps of each
  endpoint (`auth`, `google`), reading the `Authorization` header
  (`session`) and composing the service's e-mails (`mail`).
- `app/` is the server around it: routing, the database queries, SMTP
  delivery, the OAuth exchange with Google and session-token signing.
- `tests/` runs the library on concrete inputs.
