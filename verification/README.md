# overpass

Bookkeeping logic of Overpass payment channels, storage nodes and their
Bitcoin side, written in Verus: each operation states its behaviour as a
`requires` / `ensures` contract over mathematical models (`Seq`, `Set`, `Map`,
integers), and Verus proves the code against it.

## Layout

- `src/` — the verified library.
  - Bitcoin data and transactions: `btc` (transactions, scripts, keys,
    signatures), `tx_builder` (funding, HTLC, refund and closing
    transactions), `lock_tx` (coin selection and signing of lock
    transactions), `bitcoin_types`, `hashing`.
  - Channels and wallets: `channel_state`, `channel_manager` (channel life
    cycle and commitment transactions), `wallet_extension`, `wallet`,
    `hd_wallet` (BIP-39 / BIP-32 keys and addresses), `state_converter`,
    `user`, `byte_array`.
  - Proofs: `proof_types`, `client_proofs` (state and HTLC proof bundles with
    single-use nullifiers), `zkp_slice`, `zkp_manager`, `currency`.
  - Storage nodes: `battery`, `monitor`, `attest` (challenges and response
    rounds), `replication` (state records and Merkle proofs), `consistency`,
    `storage_manager`, `peer_sync`, `overlap`, `propagation`, `discovery`,
    `kv`, `node_types`, `node_config`, `token_types`.
  - Cells and epochs: `boc`, `wasm_types`, `epoch`, `state_store`, `clock`,
    `errors`.
- `tests/` — tests run against the compiled library with the real outside
  crates linked.
- `app/` — plain Rust around the library: RPC to a Bitcoin node, serde and
  bincode encodings, the timed loops of a storage node, and the scores and
  rewards that are computed in floating point.

Calls into outside crates (hashes, secp256k1, the `bitcoin` crate's encodings,
BIP-39, hex) go through small wrappers marked `#[verifier::external_body]`,
each with a doc comment saying what its contract claims.
