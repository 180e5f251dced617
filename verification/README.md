# netflix_clone

The verified core of a small movie-streaming web service. The library under
`src/` holds the decisions the service takes, each with a contract checked by
Verus; the server around it (`app/`) runs the HTTP framework, the SQLite store,
the token encoding and the payment provider, and hands the library plain values.

- `src/api*`: the HTTP handlers' decisions (bearer tokens, who may act, replies,
  the upload size limit).
- `src/services/`: the movie and user services — what each operation answers
  given what the store returned, the error texts and their HTTP mapping, the
  claims of a log-in token.
- `src/models*`: the stored rows and store failures; password checks with bcrypt.
- `src/user/`: named users and the account, favourite, review, search, upload
  and payment handlers (a small state machine for the guarded writes).
- `src/traits/`: a generic create/read interface.
- `src/text.rs`, `src/crypto.rs`, `src/clock.rs`: text helpers, bcrypt and chrono time arithmetic; the clock itself is read in `app/`.
