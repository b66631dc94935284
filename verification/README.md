# identity_kerberos

Kerberos / SPNEGO (HTTP Negotiate) identity plugin, `dev.mcpg.identity.kerberos`.
It resolves the caller of a request from `Authorization: Negotiate <token>`: the
token is verified against the gateway's service keytab and the caller's Kerberos
principal becomes the identity.

- `src/`: the library, verified with Verus. Config rules, header parsing, the
  order of the GSSAPI calls and what their outcomes amount to, the identity, and
  the laws that hold of all of it (`src/laws.rs`).
- `app/`: what surrounds it. Reading config documents, the GSSAPI calls, metrics
  and logs.
- `tests/`: the library on concrete values.

What the library takes on trust is the base64 decoder (`src/token.rs`).
