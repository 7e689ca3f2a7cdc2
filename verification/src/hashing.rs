//! What hash tables are fed of transactions.
//!
//! A value is fed to a hasher as the outside type that stands for it feeds itself: field by field,
//! in the order of that type's fields. What a hasher makes of what it is fed is its own affair, so
//! that nothing is said here of its state.

use core::hash::{Hash, Hasher};

use vstd::prelude::*;

use crate::primitives::{AccessList, Address, Signature, SignedAuthorization, TxKind, U256};
use crate::rlp_codec::{alloy_access_list, alloy_kind, alloy_u256};
use crate::transaction::Transaction;
use crate::tx_ecdsa::{TxEip1559, TxEip2930, TxEip4844, TxEip7702, TxLegacy};
use crate::tx_ecdsa_codec::{
    alloy_authorization, alloy_eip1559, alloy_eip2930, alloy_eip4844, alloy_eip7702, alloy_legacy,
    alloy_signature,
};
use crate::tx_ml_dsa::TxMlDsa;

verus! {

/// `core::hash::Hasher::write_u8`: feeds the number.
#[verifier::external_body]
pub(crate) fn feed_u8<H: Hasher>(n: u8, state: &mut H) {
    state.write_u8(n)
}

/// `core::hash::Hasher::write_u64`: feeds the number.
#[verifier::external_body]
pub(crate) fn feed_u64<H: Hasher>(n: u64, state: &mut H) {
    state.write_u64(n)
}

/// `core::hash::Hasher::write_u128`: feeds the number.
#[verifier::external_body]
pub(crate) fn feed_u128<H: Hasher>(n: u128, state: &mut H) {
    state.write_u128(n)
}

/// `core::hash::Hasher::write_isize`: feeds the number.
#[verifier::external_body]
pub(crate) fn feed_isize<H: Hasher>(n: isize, state: &mut H) {
    state.write_isize(n)
}

/// `<[u8] as core::hash::Hash>::hash`: feeds the number of bytes and the bytes.
#[verifier::external_body]
pub(crate) fn feed_bytes<H: Hasher>(bytes: &[u8], state: &mut H) {
    bytes.hash(state)
}

/// `<alloy_primitives::U256 as core::hash::Hash>::hash`: feeds the value.
#[verifier::external_body]
pub(crate) fn feed_u256<H: Hasher>(value: U256, state: &mut H) {
    alloy_u256(value).hash(state)
}

/// `<alloy_primitives::Address as core::hash::Hash>::hash`: feeds the value.
#[verifier::external_body]
pub(crate) fn feed_address<H: Hasher>(address: Address, state: &mut H) {
    alloy_primitives::Address::from(address.bytes).hash(state)
}

/// `<alloy_primitives::TxKind as core::hash::Hash>::hash`: feeds the value.
#[verifier::external_body]
pub(crate) fn feed_kind<H: Hasher>(kind: TxKind, state: &mut H) {
    alloy_kind(kind).hash(state)
}

/// `<alloy_eips::eip2930::AccessList as core::hash::Hash>::hash`: feeds the value.
#[verifier::external_body]
pub(crate) fn feed_access_list<H: Hasher>(list: &AccessList, state: &mut H) {
    alloy_access_list(list).hash(state)
}

/// `<alloy_primitives::Signature as core::hash::Hash>::hash`: feeds the value.
#[verifier::external_body]
pub(crate) fn feed_signature<H: Hasher>(signature: Signature, state: &mut H) {
    alloy_signature(signature).hash(state)
}

/// `<alloy_eips::eip7702::SignedAuthorization as core::hash::Hash>::hash`: feeds the value.
#[verifier::external_body]
pub(crate) fn feed_authorization<H: Hasher>(auth: &SignedAuthorization, state: &mut H) {
    alloy_authorization(auth).hash(state)
}

/// `<alloy_consensus::TxLegacy as core::hash::Hash>::hash`: feeds the value.
#[verifier::external_body]
pub(crate) fn feed_legacy<H: Hasher>(tx: &TxLegacy, state: &mut H) {
    alloy_legacy(tx).hash(state)
}

/// `<alloy_consensus::TxEip2930 as core::hash::Hash>::hash`: feeds the value.
#[verifier::external_body]
pub(crate) fn feed_eip2930<H: Hasher>(tx: &TxEip2930, state: &mut H) {
    alloy_eip2930(tx).hash(state)
}

/// `<alloy_consensus::TxEip1559 as core::hash::Hash>::hash`: feeds the value.
#[verifier::external_body]
pub(crate) fn feed_eip1559<H: Hasher>(tx: &TxEip1559, state: &mut H) {
    alloy_eip1559(tx).hash(state)
}

/// `<alloy_consensus::TxEip4844 as core::hash::Hash>::hash`: feeds the value.
#[verifier::external_body]
pub(crate) fn feed_eip4844<H: Hasher>(tx: &TxEip4844, state: &mut H) {
    alloy_eip4844(tx).hash(state)
}

/// `<alloy_consensus::TxEip7702 as core::hash::Hash>::hash`: feeds the value.
#[verifier::external_body]
pub(crate) fn feed_eip7702<H: Hasher>(tx: &TxEip7702, state: &mut H) {
    alloy_eip7702(tx).hash(state)
}

/// Feeds an ML-DSA transaction, field by field.
pub(crate) fn feed_ml_dsa<H: Hasher>(tx: &TxMlDsa, state: &mut H) {
    feed_u64(tx.chain_id, state);
    feed_u64(tx.nonce, state);
    feed_u128(tx.max_priority_fee_per_gas, state);
    feed_u128(tx.max_fee_per_gas, state);
    feed_u64(tx.gas_limit, state);
    feed_kind(tx.to, state);
    feed_u256(tx.value, state);
    feed_bytes(tx.input.as_slice(), state);
    feed_access_list(&tx.access_list, state);
    feed_address(tx.sender, state);
    feed_u8(tx.ml_dsa_level, state);
    feed_bytes(tx.pubkey.as_slice(), state);
    feed_bytes(tx.ml_dsa_signature.as_slice(), state);
}

/// Feeds a transaction: the number of its variant, and what the variant holds.
pub(crate) fn feed_transaction<H: Hasher>(tx: &Transaction, state: &mut H) {
    match tx {
        Transaction::Legacy(tx) => {
            feed_isize(0, state);
            feed_legacy(tx, state);
        },
        Transaction::Eip2930(tx) => {
            feed_isize(1, state);
            feed_eip2930(tx, state);
        },
        Transaction::Eip1559(tx) => {
            feed_isize(2, state);
            feed_eip1559(tx, state);
        },
        Transaction::Eip4844(tx) => {
            feed_isize(3, state);
            feed_eip4844(tx, state);
        },
        Transaction::Eip7702(tx) => {
            feed_isize(4, state);
            feed_eip7702(tx, state);
        },
        Transaction::MlDsa(tx) => {
            feed_isize(5, state);
            feed_ml_dsa(tx, state);
        },
    }
}

} // verus!
