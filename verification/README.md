# auth_api

An authentication service: account registration with an e-mail address and a
password, password login, sign-in with Discord (OAuth2), and a check in front
of protected routes that the caller holds a valid session token.

The library in `src/` holds the service's decisions, verified with Verus:

- `register`, `login`, `signin` (the Discord callback) are step functions: each
  takes the state a request is in and the outcome of the last outside
  operation, and returns the next state and the next operation to perform.
- `oauth` builds the Discord authorisation URL and the state token to store;
  `middleware` finds the session token in the `Cookie` header and decides the
  check's answer.
- `password` (HMAC-SHA256 pepper, Argon2 hashes), `patterns` (the e-mail and
  user-name regular expressions), `text`, `token`, `reply`, `types` and
  `callback` (the checks and rows of the Discord sign-in) are what those steps
  are built from.

Calls into `regex`, `ammonia`, `hmac`/`sha2`, `argon2`, `cookie`, `url` and
`uuid` stand behind small wrappers whose contracts Verus takes on trust; each
names the function it calls.

`app/` is the server around the library: routing, the database, the HTTP calls
to Discord, the clock, random ids, JWT signing and decoding (which go through
serde on copies of the library's types), and turning the library's answers
into HTTP responses.
