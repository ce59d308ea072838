# mintlayer_zk

ZKThunder L2 batch settlement types for Mintlayer, and the WebSocket event relay that
broadcasts chainstate and mempool events, as a Verus-verified library.

- `src/scale.rs` — byte-level specifications of the SCALE primitives (little-endian
  integers, compact lengths), the calls into `parity-scale-codec`, and their roundtrip lemmas.
- `src/zk.rs` — `ProofType`, `ZkVerificationKey`, `ZkBatchSettlementData`, their consensus
  encoding and decoding, and the laws of that encoding (roundtrip, discriminant position,
  rejection of unknown discriminants and trailing bytes, the settlement output's tag).
- `src/hex.rs` — lower-case hex rendering.
- `src/event_relay.rs` — the events sent to clients and the relay's decisions on each input.
- `src/config.rs` — the relay's configuration file and its merge with run options.
- `app/` — serde/strum forms of the types and the tokio/axum server around the library.
