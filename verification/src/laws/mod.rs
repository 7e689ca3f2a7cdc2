//! What the operations of this library are for.
//!
//! Each law speaks of what an operation is given and of what it returns or leaves, in terms of
//! plain values: the fields of a transaction, the bytes of an encoding, the entries of a log.

pub mod encodings;
pub mod engine;
pub mod env;
pub mod envelopes;
pub mod equality;
pub mod fees;
pub mod fields;
pub mod ml_dsa;
pub mod senders;
pub mod served;
pub mod signed;
pub mod sizes_and_draws;
pub mod storage;
pub mod types;
pub mod values;
