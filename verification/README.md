# chat_app

The verified core of a chat server: Argon2 password rules and hashes, PKCE
challenges, bearer tokens, request parsing (bearer headers, query strings,
rate-limit keys), chat-partner lists, e-mail templates, and the decisions
and error responses of the HTTP routes. Everything under `src/` is checked
by Verus; the server itself (actix-web, sqlx, reqwest, lettre) lives in
`app/` and calls the library for every decision (token validity and OAuth state expiry included).

Layout of `src/`:

- `text.rs` — verified string algorithms (splitting, trimming, prefix
  removal, replacement, decimal rendering) with their specifications.
- `crypto.rs`, `random.rs` — the calls into `sha2`, `base64`, `argon2` and
  `rand`, each behind one trusted item with its stated contract.
- `domain/` — password rules and new subscribers.
- `utils/` — tokens, PKCE, e-mail templates.
- `middlewares/`, `handlers/`, `oauth.rs`, `routes/` — what each endpoint
  decides, as functions from plain values to plain values.
- `oauth_tables.rs` — models of the stored OAuth states and of the links
  from Google accounts to users, with the laws across calls (a state is
  used once; find-or-create gives the same user again).
