# diesis

Transactions, receipts and engine rules of the Diesis chain, written in Verus.

Diesis keeps Ethereum's typed transactions and adds a type of its own, `0x70`, whose transactions
are signed with ML-DSA (FIPS 204) in place of ECDSA. The library holds what has to be right about
them: encodings and decodings, hashes, the stored form, recovery of senders, conversions to
Ethereum's envelopes, RPC transactions and receipts, and the decisions of the engine and of direct
block insertion. Functions have contracts that Verus proves; what holds across functions stands as
a proof function whose name starts with `law_`. Derived impls, and what is fed to a hasher, have no
contract.

## Layout

- `src/primitives.rs`, `src/rlp.rs`: plain values, and what RLP encodings are.
- `src/rlp_codec.rs`, `src/tx_ecdsa_codec.rs`, `src/crypto.rs`: calls into the `alloy` crates.
- `src/tx_type.rs`, `src/tx_ml_dsa.rs`, `src/tx_ecdsa.rs`, `src/transaction.rs`: transactions.
- `src/transaction_signed.rs`, `src/envelope_codec.rs`, `src/envelope.rs`, `src/sidecar.rs`: signed
  transactions and their envelopes.
- `src/hashing.rs`: what hash tables are fed of them.
- `src/compact.rs`, `src/recovery.rs`, `src/tx_env.rs`, `src/size.rs`, `src/generate.rs`: storage,
  senders, what the virtual machine is told, memory estimates, and transactions for fuzzing.
- `src/request.rs`, `src/rpc.rs`, `src/receipt.rs`: what goes in and out over RPC.
- `src/engine.rs`, `src/insert.rs`, `src/big_block.rs`, `src/commitment.rs`,
  `src/genesis_commitment.rs`: the engine.
- `app/`: channels, polling and error types around the library.
- `tests/`: the library from outside, against the real `alloy` and `reth` crates.

Functions marked `external_body` call an outside crate. Their contracts are not proved but read off
that crate's source, as their doc comments say.
