# cdk_iroh

Iroh QUIC transport for Cashu mints and wallets, verified with Verus.

A mint is exposed over Iroh peer-to-peer QUIC connections, and a wallet reaches
it by its node ID. Messages are JSON-RPC 2.0 envelopes behind a 4-byte
big-endian length prefix, one QUIC stream per request; subscription streams
(NUT-17) stay open.

- `src/` is the verified library: framing and envelopes (`wire`, `buffer`,
  `json`), the mint's side (`identity`, `server`, `stream`, `handler`,
  `subscription`), the wallet's side (`discovery`, `routes`, `transport`,
  `exchange`), and what both sides agree on (`agreement`). What alternates
  decisions and outside work is a state machine: it takes what happened and
  says what is to be done next.
- `app/` moves the bytes: endpoints, streams, files, serde types, and a program
  that runs a server and a wallet against each other.
- `tests/` runs the library on concrete values.

What is relied on without proof stands in the items marked `external_body`,
`external_type_specification` or `assume_specification`, each with a comment that
names the function of `serde_json`, `bytes`, `iroh` or `url` behind it.
