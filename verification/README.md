# block_signer

Signers for the blocks of a rollup node, verified with Verus: a local one, which signs with a
private key at hand, and a remote one, which has a service sign over JSON-RPC with the TLS set-up
that its configuration asks for.

- `src/` is the verified library. It decides, and does no I/O: values such as `Connecting` and
  `RemoteSigner` say what is to be done next and take in what came of it. Calls into outside crates
  stand in small functions whose contracts are believed; their doc comments say what is claimed.
- `app/` is ordinary Rust around it: it reads and watches the certificate files and calls the
  service.
- `tests/` runs the library with the real outside crates.

Two crates in `Cargo.toml` are named for their versions alone: `ruint` and `serde_with`, on which the
alloy crates build, are held to versions with few dependencies of their own.
