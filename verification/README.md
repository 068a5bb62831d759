# oidc-app-auth

Provider-neutral primitives for browser OIDC applications, verified with Verus.

The crate deliberately stops at protocol mechanics: bounded discovery and token
HTTP, Authorization Code + S256 PKCE, state/nonce validation, userinfo claims,
signed short-lived flow state, and opaque session-token generation. Consumers
own database persistence, cookies, access/admin groups, and product routes. It
contains no client secret, local-password flow, role registry, or
application-specific schema.

## Layout

- `src/` is the verified library. It decides and computes; it performs no
  exchange with a browser or a provider. A login runs in steps: the result of
  each says what is to be done next, and the next step takes what came of it.
  - `client`: settings, discovery steps, authorization requests.
  - `completion`: from the callback to the identity.
  - `identity`, `groups`: identity claims and sets of group names.
  - `transaction`, `flow_state`: login state and its signed cookie.
  - `session`: session tokens and their hashes.
  - `return_to`: same-origin return paths.
  - `provider`, `crypto`, `encoding`, `clock`: the calls into other crates and
    the system, with what is relied on of each.
  - `text`, `error`: text and failures.
- `app/` drives the steps: the asynchronous client with its HTTP exchanges, and
  the forms of the types that are serialized and displayed.
- `tests/` runs the library with the crates it calls.

## A login

```text
OidcClient::discover -> Discovery::with_http_client -> MetadataRequest::finish
OidcClient::authorization_request
OidcClient::complete -> OidcClient::tokens -> OidcClient::identity
```

Between `complete` and `tokens` the code is exchanged, and between `tokens` and
`identity` the userinfo claims are fetched.

`SignedFlowState` seals the encoded transaction into a cookie and opens it
again; encoding and decoding transactions is the caller's part.
