# rpc_types

Response types of a Solana-style JSON RPC interface and a few decisions of a
validator's command-line front end, verified with Verus.

- `src/text.rs` — hex digits, decimal numerals, Unicode whitespace and the
  first word of a text.
- `src/commit.rs` — a node's commit id as 8 hex digits, and reading it back
  (with the round-trip law).
- `src/api_version.rs` — the semantic API version of a response context.
- `src/response.rs` — the response types and their computations.
- `src/validator.rs` — styled `name value` lines and what a signal asks for.
- `app/` — serde encodings of the types, floating-point types, terminal
  output, the ledger lock file and the signal thread.
