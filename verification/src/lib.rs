//! Transaction, receipt and engine primitives of the Diesis chain.
//!
//! Diesis keeps Ethereum's typed transaction envelope and adds one transaction type of its own,
//! `0x70`, whose transactions are signed with ML-DSA (FIPS 204) in place of ECDSA.

pub mod big_block;
pub mod commitment;
pub mod compact;
pub mod crypto;
pub mod engine;
pub mod envelope;
pub mod envelope_codec;
pub mod fees;
pub mod generate;
pub mod genesis_commitment;
pub mod hashing;
pub mod insert;
pub mod laws;
pub mod primitives;
pub mod receipt;
pub mod recovery;
pub mod request;
pub mod rlp;
pub mod rlp_codec;
pub mod rpc;
pub mod sidecar;
pub mod signed;
pub mod size;
pub mod transaction;
pub mod transaction_signed;
pub mod tx_ecdsa;
pub mod tx_ecdsa_codec;
pub mod tx_env;
pub mod tx_ml_dsa;
pub mod tx_type;
