# Scraping defense

A stack of services that keeps automated scrapers away from a web site: it
scores requests, blocks or slows down the clients that look like bots, and
gives operators the tools to run all this.

The rules of the stack are a verified library. Each function in `src/` carries
a contract that Verus proves, and the promises that span functions stand there
as public proof functions whose names begin with `law_`.

- `src/` — the library: authorization, TLS fingerprint attestation, detection,
  frequencies, blocklists, audit events, captchas, paid crawling, sign-on,
  passkeys, training data, the tarpit and the rest of the rules.
  - `outside.rs` and `webauthn.rs` hold what is taken from other crates
    (hashing, tokens, URLs, JSON, passkeys): each such call stands in a small
    function whose contract is believed, with a comment that says what it claims.
  - `text.rs`, `text_laws.rs`, `text_map.rs`, `json.rs`, `order.rs`, `ip.rs` and `ip_laws.rs`
    are the ground on which the rest stands.
- `tests/` — tests of the library on concrete values.
- `app/` — the services: network, database, environment, clocks and
  floating-point arithmetic. The first argument names the service to run.

Floating-point scores are computed in `app/` and handed to the library as where
they stand to the thresholds and as the text that is shown.
