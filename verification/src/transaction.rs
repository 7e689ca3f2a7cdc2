//! Diesis transactions: Ethereum's transaction types, and the ML-DSA transactions of type `0x70`.

use vstd::prelude::*;

use crate::crypto::{keccak, keccak256};
use crate::fees::effective_price;
use crate::primitives::{
    lemma_u256_bound, AccessList, AccessListEntry, Bytes, ChainId, Signature, SignedAuthorization,
    TxHash, TxKind, B256, U256,
};
use crate::rlp::{lemma_be_len, rlp_header, rlp_uint, RlpItem, LENGTH_LIMIT};
use crate::signed::Signed;
use crate::tx_ecdsa::{
    eip155_value, Eip1559Fields, Eip2930Fields, Eip4844Fields, Eip7702Fields, LegacyFields,
    TxEip1559, TxEip2930, TxEip4844, TxEip7702, TxLegacy,
};
use crate::tx_ecdsa_codec::{
    ecdsa_encode, ecdsa_encode_fields, ecdsa_encode_for_signing, ecdsa_fields_length,
    ecdsa_network_encode, ecdsa_payload_len_for_signature, ecdsa_tx_hash, legacy_encoded_length,
    network_form, typed_encoded_length,
};
use crate::tx_ml_dsa::{MlDsaFields, TxMlDsa};
use crate::tx_type::{DiesisTxType, TxType};

verus! {

/// A raw transaction.
///
/// Transaction types were introduced in EIP-2718.
#[derive(Debug, Hash, Eq)]
pub enum Transaction {
    /// Legacy transaction (type `0x0`).
    Legacy(TxLegacy),
    /// Transaction with an access list (EIP-2930), type `0x1`.
    Eip2930(TxEip2930),
    /// Transaction with a priority fee (EIP-1559), type `0x2`.
    Eip1559(TxEip1559),
    /// Blob transaction (EIP-4844), type `0x3`.
    Eip4844(TxEip4844),
    /// Set-code transaction (EIP-7702), type `0x4`.
    Eip7702(TxEip7702),
    /// ML-DSA post-quantum transaction (type `0x70`).
    MlDsa(TxMlDsa),
}

/// What a [`Transaction`] holds.
#[verifier::ext_equal]
pub enum TxFields {
    Legacy(LegacyFields),
    Eip2930(Eip2930Fields),
    Eip1559(Eip1559Fields),
    Eip4844(Eip4844Fields),
    Eip7702(Eip7702Fields),
    MlDsa(MlDsaFields),
}

impl View for Transaction {
    type V = TxFields;

    open spec fn view(&self) -> TxFields {
        match self {
            Transaction::Legacy(tx) => TxFields::Legacy(tx@),
            Transaction::Eip2930(tx) => TxFields::Eip2930(tx@),
            Transaction::Eip1559(tx) => TxFields::Eip1559(tx@),
            Transaction::Eip4844(tx) => TxFields::Eip4844(tx@),
            Transaction::Eip7702(tx) => TxFields::Eip7702(tx@),
            Transaction::MlDsa(tx) => TxFields::MlDsa(tx@),
        }
    }
}

impl PartialEq for Transaction {
    fn eq(&self, other: &Self) -> (same: bool) {
        match (self, other) {
            (Transaction::Legacy(a), Transaction::Legacy(b)) => *a == *b,
            (Transaction::Eip2930(a), Transaction::Eip2930(b)) => *a == *b,
            (Transaction::Eip1559(a), Transaction::Eip1559(b)) => *a == *b,
            (Transaction::Eip4844(a), Transaction::Eip4844(b)) => *a == *b,
            (Transaction::Eip7702(a), Transaction::Eip7702(b)) => *a == *b,
            (Transaction::MlDsa(a), Transaction::MlDsa(b)) => *a == *b,
            _ => false,
        }
    }
}

impl vstd::std_specs::cmp::PartialEqSpecImpl for Transaction {
    open spec fn obeys_eq_spec() -> bool {
        true
    }

    open spec fn eq_spec(&self, other: &Self) -> bool {
        self@ == other@
    }
}

impl Clone for Transaction {
    fn clone(&self) -> (copy: Self)
        ensures
            copy@ == self@,
    {
        match self {
            Transaction::Legacy(tx) => Transaction::Legacy(tx.clone()),
            Transaction::Eip2930(tx) => Transaction::Eip2930(tx.clone()),
            Transaction::Eip1559(tx) => Transaction::Eip1559(tx.clone()),
            Transaction::Eip4844(tx) => Transaction::Eip4844(tx.clone()),
            Transaction::Eip7702(tx) => Transaction::Eip7702(tx.clone()),
            Transaction::MlDsa(tx) => Transaction::MlDsa(tx.clone()),
        }
    }
}

impl From<TxLegacy> for Transaction {
    fn from(tx: TxLegacy) -> (transaction: Self) {
        Transaction::Legacy(tx)
    }
}

impl vstd::std_specs::convert::FromSpecImpl<TxLegacy> for Transaction {
    open spec fn obeys_from_spec() -> bool {
        true
    }

    open spec fn from_spec(tx: TxLegacy) -> Self {
        Transaction::Legacy(tx)
    }
}

impl From<TxEip2930> for Transaction {
    fn from(tx: TxEip2930) -> (transaction: Self) {
        Transaction::Eip2930(tx)
    }
}

impl vstd::std_specs::convert::FromSpecImpl<TxEip2930> for Transaction {
    open spec fn obeys_from_spec() -> bool {
        true
    }

    open spec fn from_spec(tx: TxEip2930) -> Self {
        Transaction::Eip2930(tx)
    }
}

impl From<TxEip1559> for Transaction {
    fn from(tx: TxEip1559) -> (transaction: Self) {
        Transaction::Eip1559(tx)
    }
}

impl vstd::std_specs::convert::FromSpecImpl<TxEip1559> for Transaction {
    open spec fn obeys_from_spec() -> bool {
        true
    }

    open spec fn from_spec(tx: TxEip1559) -> Self {
        Transaction::Eip1559(tx)
    }
}

impl From<TxEip4844> for Transaction {
    fn from(tx: TxEip4844) -> (transaction: Self) {
        Transaction::Eip4844(tx)
    }
}

impl vstd::std_specs::convert::FromSpecImpl<TxEip4844> for Transaction {
    open spec fn obeys_from_spec() -> bool {
        true
    }

    open spec fn from_spec(tx: TxEip4844) -> Self {
        Transaction::Eip4844(tx)
    }
}

impl From<TxEip7702> for Transaction {
    fn from(tx: TxEip7702) -> (transaction: Self) {
        Transaction::Eip7702(tx)
    }
}

impl vstd::std_specs::convert::FromSpecImpl<TxEip7702> for Transaction {
    open spec fn obeys_from_spec() -> bool {
        true
    }

    open spec fn from_spec(tx: TxEip7702) -> Self {
        Transaction::Eip7702(tx)
    }
}

impl From<TxMlDsa> for Transaction {
    fn from(tx: TxMlDsa) -> (transaction: Self) {
        Transaction::MlDsa(tx)
    }
}

impl vstd::std_specs::convert::FromSpecImpl<TxMlDsa> for Transaction {
    open spec fn obeys_from_spec() -> bool {
        true
    }

    open spec fn from_spec(tx: TxMlDsa) -> Self {
        Transaction::MlDsa(tx)
    }
}

impl TxFields {
    /// The transaction type.
    pub open spec fn tx_type(self) -> DiesisTxType {
        match self {
            TxFields::Legacy(_) => DiesisTxType::Legacy,
            TxFields::Eip2930(_) => DiesisTxType::Eip2930,
            TxFields::Eip1559(_) => DiesisTxType::Eip1559,
            TxFields::Eip4844(_) => DiesisTxType::Eip4844,
            TxFields::Eip7702(_) => DiesisTxType::Eip7702,
            TxFields::MlDsa(_) => DiesisTxType::MlDsa,
        }
    }

    /// The chain that the transaction is for; a legacy transaction may leave it open.
    pub open spec fn chain_id(self) -> Option<ChainId> {
        match self {
            TxFields::Legacy(tx) => tx.chain_id,
            TxFields::Eip2930(tx) => Some(tx.chain_id),
            TxFields::Eip1559(tx) => Some(tx.chain_id),
            TxFields::Eip4844(tx) => Some(tx.chain_id),
            TxFields::Eip7702(tx) => Some(tx.chain_id),
            TxFields::MlDsa(tx) => Some(tx.chain_id),
        }
    }

    /// The nonce.
    pub open spec fn nonce(self) -> u64 {
        match self {
            TxFields::Legacy(tx) => tx.nonce,
            TxFields::Eip2930(tx) => tx.nonce,
            TxFields::Eip1559(tx) => tx.nonce,
            TxFields::Eip4844(tx) => tx.nonce,
            TxFields::Eip7702(tx) => tx.nonce,
            TxFields::MlDsa(tx) => tx.nonce,
        }
    }

    /// The gas limit.
    pub open spec fn gas_limit(self) -> u64 {
        match self {
            TxFields::Legacy(tx) => tx.gas_limit,
            TxFields::Eip2930(tx) => tx.gas_limit,
            TxFields::Eip1559(tx) => tx.gas_limit,
            TxFields::Eip4844(tx) => tx.gas_limit,
            TxFields::Eip7702(tx) => tx.gas_limit,
            TxFields::MlDsa(tx) => tx.gas_limit,
        }
    }

    /// The gas price, where it is fixed.
    pub open spec fn gas_price(self) -> Option<u128> {
        match self {
            TxFields::Legacy(tx) => Some(tx.gas_price),
            TxFields::Eip2930(tx) => Some(tx.gas_price),
            TxFields::Eip1559(_) => None,
            TxFields::Eip4844(_) => None,
            TxFields::Eip7702(_) => None,
            TxFields::MlDsa(_) => None,
        }
    }

    /// The fee cap; the gas price, where that is fixed.
    pub open spec fn max_fee_per_gas(self) -> u128 {
        match self {
            TxFields::Legacy(tx) => tx.gas_price,
            TxFields::Eip2930(tx) => tx.gas_price,
            TxFields::Eip1559(tx) => tx.max_fee_per_gas,
            TxFields::Eip4844(tx) => tx.max_fee_per_gas,
            TxFields::Eip7702(tx) => tx.max_fee_per_gas,
            TxFields::MlDsa(tx) => tx.max_fee_per_gas,
        }
    }

    /// The tip cap, where fees are dynamic.
    pub open spec fn max_priority_fee_per_gas(self) -> Option<u128> {
        match self {
            TxFields::Legacy(_) => None,
            TxFields::Eip2930(_) => None,
            TxFields::Eip1559(tx) => Some(tx.max_priority_fee_per_gas),
            TxFields::Eip4844(tx) => Some(tx.max_priority_fee_per_gas),
            TxFields::Eip7702(tx) => Some(tx.max_priority_fee_per_gas),
            TxFields::MlDsa(tx) => Some(tx.max_priority_fee_per_gas),
        }
    }

    /// The blob fee cap of a blob transaction.
    pub open spec fn max_fee_per_blob_gas(self) -> Option<u128> {
        match self {
            TxFields::Legacy(_) => None,
            TxFields::Eip2930(_) => None,
            TxFields::Eip1559(_) => None,
            TxFields::Eip4844(tx) => Some(tx.max_fee_per_blob_gas),
            TxFields::Eip7702(_) => None,
            TxFields::MlDsa(_) => None,
        }
    }

    /// The tip cap, or the gas price where that is fixed.
    pub open spec fn priority_fee_or_price(self) -> u128 {
        match self {
            TxFields::Legacy(tx) => tx.gas_price,
            TxFields::Eip2930(tx) => tx.gas_price,
            TxFields::Eip1559(tx) => tx.max_priority_fee_per_gas,
            TxFields::Eip4844(tx) => tx.max_priority_fee_per_gas,
            TxFields::Eip7702(tx) => tx.max_priority_fee_per_gas,
            TxFields::MlDsa(tx) => tx.max_priority_fee_per_gas,
        }
    }

    /// Whether fees are dynamic.
    pub open spec fn is_dynamic_fee(self) -> bool {
        match self {
            TxFields::Legacy(_) => false,
            TxFields::Eip2930(_) => false,
            TxFields::Eip1559(_) => true,
            TxFields::Eip4844(_) => true,
            TxFields::Eip7702(_) => true,
            TxFields::MlDsa(_) => true,
        }
    }

    /// The destination.
    pub open spec fn kind(self) -> TxKind {
        match self {
            TxFields::Legacy(tx) => tx.to,
            TxFields::Eip2930(tx) => tx.to,
            TxFields::Eip1559(tx) => tx.to,
            TxFields::Eip4844(tx) => TxKind::Call(tx.to),
            TxFields::Eip7702(tx) => TxKind::Call(tx.to),
            TxFields::MlDsa(tx) => tx.to,
        }
    }

    /// The value transferred.
    pub open spec fn value(self) -> U256 {
        match self {
            TxFields::Legacy(tx) => tx.value,
            TxFields::Eip2930(tx) => tx.value,
            TxFields::Eip1559(tx) => tx.value,
            TxFields::Eip4844(tx) => tx.value,
            TxFields::Eip7702(tx) => tx.value,
            TxFields::MlDsa(tx) => tx.value,
        }
    }

    /// The calldata or init code.
    pub open spec fn input(self) -> Seq<u8> {
        match self {
            TxFields::Legacy(tx) => tx.input,
            TxFields::Eip2930(tx) => tx.input,
            TxFields::Eip1559(tx) => tx.input,
            TxFields::Eip4844(tx) => tx.input,
            TxFields::Eip7702(tx) => tx.input,
            TxFields::MlDsa(tx) => tx.input,
        }
    }

    /// The access list, where the type has one.
    pub open spec fn access_list(self) -> Option<Seq<AccessListEntry>> {
        match self {
            TxFields::Legacy(_) => None,
            TxFields::Eip2930(tx) => Some(tx.access_list),
            TxFields::Eip1559(tx) => Some(tx.access_list),
            TxFields::Eip4844(tx) => Some(tx.access_list),
            TxFields::Eip7702(tx) => Some(tx.access_list),
            TxFields::MlDsa(tx) => Some(tx.access_list),
        }
    }

    /// The blob hashes of a blob transaction.
    pub open spec fn blob_versioned_hashes(self) -> Option<Seq<B256>> {
        match self {
            TxFields::Legacy(_) => None,
            TxFields::Eip2930(_) => None,
            TxFields::Eip1559(_) => None,
            TxFields::Eip4844(tx) => Some(tx.blob_versioned_hashes),
            TxFields::Eip7702(_) => None,
            TxFields::MlDsa(_) => None,
        }
    }

    /// The authorizations of a set-code transaction.
    pub open spec fn authorization_list(self) -> Option<Seq<SignedAuthorization>> {
        match self {
            TxFields::Legacy(_) => None,
            TxFields::Eip2930(_) => None,
            TxFields::Eip1559(_) => None,
            TxFields::Eip4844(_) => None,
            TxFields::Eip7702(tx) => Some(tx.authorization_list),
            TxFields::MlDsa(_) => None,
        }
    }

    /// The price paid for a unit of gas under the given base fee.
    pub open spec fn effective_gas_price(self, base_fee: Option<u64>) -> int {
        if self.is_dynamic_fee() {
            effective_price(self.max_fee_per_gas(), self.priority_fee_or_price(), base_fee)
        } else {
            self.max_fee_per_gas() as int
        }
    }

    /// The same transaction for another chain.
    pub open spec fn with_chain_id(self, chain_id: u64) -> TxFields {
        match self {
            TxFields::Legacy(tx) => TxFields::Legacy(
                LegacyFields { chain_id: Some(chain_id), ..tx },
            ),
            TxFields::Eip2930(tx) => TxFields::Eip2930(Eip2930Fields { chain_id, ..tx }),
            TxFields::Eip1559(tx) => TxFields::Eip1559(Eip1559Fields { chain_id, ..tx }),
            TxFields::Eip4844(tx) => TxFields::Eip4844(Eip4844Fields { chain_id, ..tx }),
            TxFields::Eip7702(tx) => TxFields::Eip7702(Eip7702Fields { chain_id, ..tx }),
            TxFields::MlDsa(tx) => TxFields::MlDsa(MlDsaFields { chain_id, ..tx }),
        }
    }

    /// The same transaction with another input.
    pub open spec fn with_input(self, input: Seq<u8>) -> TxFields {
        match self {
            TxFields::Legacy(tx) => TxFields::Legacy(LegacyFields { input, ..tx }),
            TxFields::Eip2930(tx) => TxFields::Eip2930(Eip2930Fields { input, ..tx }),
            TxFields::Eip1559(tx) => TxFields::Eip1559(Eip1559Fields { input, ..tx }),
            TxFields::Eip4844(tx) => TxFields::Eip4844(Eip4844Fields { input, ..tx }),
            TxFields::Eip7702(tx) => TxFields::Eip7702(Eip7702Fields { input, ..tx }),
            TxFields::MlDsa(tx) => TxFields::MlDsa(MlDsaFields { input, ..tx }),
        }
    }

    /// The encodings of the fields, one after the other.
    pub open spec fn fields(self) -> Seq<u8> {
        match self {
            TxFields::Legacy(tx) => tx.fields(),
            TxFields::Eip2930(tx) => tx.fields(),
            TxFields::Eip1559(tx) => tx.fields(),
            TxFields::Eip4844(tx) => tx.fields(),
            TxFields::Eip7702(tx) => tx.fields(),
            TxFields::MlDsa(tx) => tx.all_fields(),
        }
    }

    /// What is hashed for signing.
    pub open spec fn signing_payload(self) -> Seq<u8> {
        match self {
            TxFields::Legacy(tx) => tx.signing_payload(),
            TxFields::Eip2930(tx) => tx.signing_payload(),
            TxFields::Eip1559(tx) => tx.signing_payload(),
            TxFields::Eip4844(tx) => tx.signing_payload(),
            TxFields::Eip7702(tx) => tx.signing_payload(),
            TxFields::MlDsa(tx) => tx.signing_payload(),
        }
    }

    /// The EIP-2718 encoding with the given signature: the type byte, which legacy transactions
    /// lack, and the list of fields and signature. An ML-DSA transaction holds its signature
    /// itself, and ignores the one given.
    pub open spec fn encoded(self, signature: Signature) -> Seq<u8> {
        match self {
            TxFields::Legacy(tx) => (tx, signature).rlp(),
            TxFields::Eip2930(tx) => seq![1u8] + (tx, signature).rlp(),
            TxFields::Eip1559(tx) => seq![2u8] + (tx, signature).rlp(),
            TxFields::Eip4844(tx) => seq![3u8] + (tx, signature).rlp(),
            TxFields::Eip7702(tx) => seq![4u8] + (tx, signature).rlp(),
            TxFields::MlDsa(tx) => tx.encoded(),
        }
    }

    /// The form in which the raw transaction goes over the network with the given signature: an
    /// ML-DSA transaction as its EIP-2718 encoding, the others as that encoding in an RLP string,
    /// a legacy one without the string.
    pub open spec fn network_encoded(self, signature: Signature) -> Seq<u8> {
        if self is MlDsa {
            self.encoded(signature)
        } else {
            network_form(self, signature)
        }
    }
}

impl Transaction {
    /// The transaction type.
    pub fn tx_type(&self) -> (result: DiesisTxType)
        ensures
            result == self@.tx_type(),
    {
        match self {
            Transaction::Legacy(_) => DiesisTxType::Legacy,
            Transaction::Eip2930(_) => DiesisTxType::Eip2930,
            Transaction::Eip1559(_) => DiesisTxType::Eip1559,
            Transaction::Eip4844(_) => DiesisTxType::Eip4844,
            Transaction::Eip7702(_) => DiesisTxType::Eip7702,
            Transaction::MlDsa(_) => DiesisTxType::MlDsa,
        }
    }

    /// The chain that the transaction is for; a legacy transaction may leave it open.
    pub fn chain_id(&self) -> (result: Option<ChainId>)
        ensures
            result == self@.chain_id(),
    {
        match self {
            Transaction::Legacy(tx) => tx.chain_id,
            Transaction::Eip2930(tx) => Some(tx.chain_id),
            Transaction::Eip1559(tx) => Some(tx.chain_id),
            Transaction::Eip4844(tx) => Some(tx.chain_id),
            Transaction::Eip7702(tx) => Some(tx.chain_id),
            Transaction::MlDsa(tx) => Some(tx.chain_id),
        }
    }

    /// The nonce.
    pub fn nonce(&self) -> (result: u64)
        ensures
            result == self@.nonce(),
    {
        match self {
            Transaction::Legacy(tx) => tx.nonce,
            Transaction::Eip2930(tx) => tx.nonce,
            Transaction::Eip1559(tx) => tx.nonce,
            Transaction::Eip4844(tx) => tx.nonce,
            Transaction::Eip7702(tx) => tx.nonce,
            Transaction::MlDsa(tx) => tx.nonce,
        }
    }

    /// The gas limit.
    pub fn gas_limit(&self) -> (result: u64)
        ensures
            result == self@.gas_limit(),
    {
        match self {
            Transaction::Legacy(tx) => tx.gas_limit,
            Transaction::Eip2930(tx) => tx.gas_limit,
            Transaction::Eip1559(tx) => tx.gas_limit,
            Transaction::Eip4844(tx) => tx.gas_limit,
            Transaction::Eip7702(tx) => tx.gas_limit,
            Transaction::MlDsa(tx) => tx.gas_limit,
        }
    }

    /// The gas price, where it is fixed.
    pub fn gas_price(&self) -> (result: Option<u128>)
        ensures
            result == self@.gas_price(),
    {
        match self {
            Transaction::Legacy(tx) => Some(tx.gas_price),
            Transaction::Eip2930(tx) => Some(tx.gas_price),
            Transaction::Eip1559(_) => None,
            Transaction::Eip4844(_) => None,
            Transaction::Eip7702(_) => None,
            Transaction::MlDsa(_) => None,
        }
    }

    /// The fee cap; the gas price, where that is fixed.
    pub fn max_fee_per_gas(&self) -> (result: u128)
        ensures
            result == self@.max_fee_per_gas(),
    {
        match self {
            Transaction::Legacy(tx) => tx.gas_price,
            Transaction::Eip2930(tx) => tx.gas_price,
            Transaction::Eip1559(tx) => tx.max_fee_per_gas,
            Transaction::Eip4844(tx) => tx.max_fee_per_gas,
            Transaction::Eip7702(tx) => tx.max_fee_per_gas,
            Transaction::MlDsa(tx) => tx.max_fee_per_gas,
        }
    }

    /// The tip cap, where fees are dynamic.
    pub fn max_priority_fee_per_gas(&self) -> (result: Option<u128>)
        ensures
            result == self@.max_priority_fee_per_gas(),
    {
        match self {
            Transaction::Legacy(_) => None,
            Transaction::Eip2930(_) => None,
            Transaction::Eip1559(tx) => Some(tx.max_priority_fee_per_gas),
            Transaction::Eip4844(tx) => Some(tx.max_priority_fee_per_gas),
            Transaction::Eip7702(tx) => Some(tx.max_priority_fee_per_gas),
            Transaction::MlDsa(tx) => Some(tx.max_priority_fee_per_gas),
        }
    }

    /// The blob fee cap of a blob transaction.
    pub fn max_fee_per_blob_gas(&self) -> (result: Option<u128>)
        ensures
            result == self@.max_fee_per_blob_gas(),
    {
        match self {
            Transaction::Legacy(_) => None,
            Transaction::Eip2930(_) => None,
            Transaction::Eip1559(_) => None,
            Transaction::Eip4844(tx) => Some(tx.max_fee_per_blob_gas),
            Transaction::Eip7702(_) => None,
            Transaction::MlDsa(_) => None,
        }
    }

    /// The tip cap, or the gas price where that is fixed.
    pub fn priority_fee_or_price(&self) -> (result: u128)
        ensures
            result == self@.priority_fee_or_price(),
    {
        match self {
            Transaction::Legacy(tx) => tx.gas_price,
            Transaction::Eip2930(tx) => tx.gas_price,
            Transaction::Eip1559(tx) => tx.max_priority_fee_per_gas,
            Transaction::Eip4844(tx) => tx.max_priority_fee_per_gas,
            Transaction::Eip7702(tx) => tx.max_priority_fee_per_gas,
            Transaction::MlDsa(tx) => tx.max_priority_fee_per_gas,
        }
    }

    /// Whether fees are dynamic.
    pub fn is_dynamic_fee(&self) -> (result: bool)
        ensures
            result == self@.is_dynamic_fee(),
    {
        match self {
            Transaction::Legacy(_) => false,
            Transaction::Eip2930(_) => false,
            Transaction::Eip1559(_) => true,
            Transaction::Eip4844(_) => true,
            Transaction::Eip7702(_) => true,
            Transaction::MlDsa(_) => true,
        }
    }

    /// The destination.
    pub fn kind(&self) -> (result: TxKind)
        ensures
            result == self@.kind(),
    {
        match self {
            Transaction::Legacy(tx) => tx.to,
            Transaction::Eip2930(tx) => tx.to,
            Transaction::Eip1559(tx) => tx.to,
            Transaction::Eip4844(tx) => TxKind::Call(tx.to),
            Transaction::Eip7702(tx) => TxKind::Call(tx.to),
            Transaction::MlDsa(tx) => tx.to,
        }
    }

    /// The value transferred.
    pub fn value(&self) -> (result: U256)
        ensures
            result == self@.value(),
    {
        match self {
            Transaction::Legacy(tx) => tx.value,
            Transaction::Eip2930(tx) => tx.value,
            Transaction::Eip1559(tx) => tx.value,
            Transaction::Eip4844(tx) => tx.value,
            Transaction::Eip7702(tx) => tx.value,
            Transaction::MlDsa(tx) => tx.value,
        }
    }

    /// The calldata or init code.
    pub fn input(&self) -> (result: &Bytes)
        ensures
            result@ == self@.input(),
    {
        match self {
            Transaction::Legacy(tx) => &tx.input,
            Transaction::Eip2930(tx) => &tx.input,
            Transaction::Eip1559(tx) => &tx.input,
            Transaction::Eip4844(tx) => &tx.input,
            Transaction::Eip7702(tx) => &tx.input,
            Transaction::MlDsa(tx) => &tx.input,
        }
    }

    /// The access list, where the type has one.
    pub fn access_list(&self) -> (result: Option<&AccessList>)
        ensures
            result is Some <==> self@.access_list() is Some,
            result is Some ==> result->Some_0@ == self@.access_list()->Some_0,
    {
        match self {
            Transaction::Legacy(_) => None,
            Transaction::Eip2930(tx) => Some(&tx.access_list),
            Transaction::Eip1559(tx) => Some(&tx.access_list),
            Transaction::Eip4844(tx) => Some(&tx.access_list),
            Transaction::Eip7702(tx) => Some(&tx.access_list),
            Transaction::MlDsa(tx) => Some(&tx.access_list),
        }
    }

    /// The blob hashes of a blob transaction.
    pub fn blob_versioned_hashes(&self) -> (result: Option<&[B256]>)
        ensures
            result is Some <==> self@.blob_versioned_hashes() is Some,
            result is Some ==> result->Some_0@ == self@.blob_versioned_hashes()->Some_0,
    {
        match self {
            Transaction::Legacy(_) => None,
            Transaction::Eip2930(_) => None,
            Transaction::Eip1559(_) => None,
            Transaction::Eip4844(tx) => Some(tx.blob_versioned_hashes.as_slice()),
            Transaction::Eip7702(_) => None,
            Transaction::MlDsa(_) => None,
        }
    }

    /// The authorizations of a set-code transaction.
    pub fn authorization_list(&self) -> (result: Option<&[SignedAuthorization]>)
        ensures
            result is Some <==> self@.authorization_list() is Some,
            result is Some ==> result->Some_0@ == self@.authorization_list()->Some_0,
    {
        match self {
            Transaction::Legacy(_) => None,
            Transaction::Eip2930(_) => None,
            Transaction::Eip1559(_) => None,
            Transaction::Eip4844(_) => None,
            Transaction::Eip7702(tx) => Some(tx.authorization_list.as_slice()),
            Transaction::MlDsa(_) => None,
        }
    }

    /// The type byte.
    pub fn ty(&self) -> (ty: u8)
        ensures
            ty == self@.tx_type().byte(),
    {
        self.tx_type().ty()
    }

    /// Whether this is a legacy transaction.
    pub fn is_legacy(&self) -> (b: bool)
        ensures
            b == (self@ is Legacy),
    {
        matches!(self, Transaction::Legacy(_))
    }

    /// Returns the standard Ethereum type for non-Diesis transactions, and `None` for ML-DSA
    /// transactions, which Ethereum has no type for.
    pub fn standard_tx_type(&self) -> (ty: Option<TxType>)
        ensures
            ty == self@.tx_type().standard(),
    {
        self.tx_type().ethereum()
    }

    /// Returns the Ethereum transaction type when this transaction is not a Diesis-only
    /// extension.
    pub fn ethereum_tx_type(&self) -> (ty: Option<TxType>)
        ensures
            ty == self@.tx_type().standard(),
    {
        self.tx_type().ethereum()
    }

    /// The price paid for a unit of gas under the given base fee.
    pub fn effective_gas_price(&self, base_fee: Option<u64>) -> (price: u128)
        ensures
            price == self@.effective_gas_price(base_fee),
    {
        match self {
            Transaction::Legacy(tx) => tx.gas_price,
            Transaction::Eip2930(tx) => tx.gas_price,
            Transaction::Eip1559(tx) => alloy_eips::eip1559::calc_effective_gas_price(
                tx.max_fee_per_gas,
                tx.max_priority_fee_per_gas,
                base_fee,
            ),
            Transaction::Eip4844(tx) => alloy_eips::eip1559::calc_effective_gas_price(
                tx.max_fee_per_gas,
                tx.max_priority_fee_per_gas,
                base_fee,
            ),
            Transaction::Eip7702(tx) => alloy_eips::eip1559::calc_effective_gas_price(
                tx.max_fee_per_gas,
                tx.max_priority_fee_per_gas,
                base_fee,
            ),
            Transaction::MlDsa(tx) => tx.effective_gas_price(base_fee),
        }
    }

    /// Whether the transaction creates a contract.
    pub fn is_create(&self) -> (b: bool)
        ensures
            b == (self@.kind() is Create),
    {
        self.kind().is_create()
    }

    /// Changes the chain that the transaction is for.
    pub fn set_chain_id(&mut self, chain_id: ChainId)
        ensures
            final(self)@ == old(self)@.with_chain_id(chain_id),
    {
        match self {
            Transaction::Legacy(tx) => { tx.chain_id = Some(chain_id); },
            Transaction::Eip2930(tx) => { tx.chain_id = chain_id; },
            Transaction::Eip1559(tx) => { tx.chain_id = chain_id; },
            Transaction::Eip4844(tx) => { tx.chain_id = chain_id; },
            Transaction::Eip7702(tx) => { tx.chain_id = chain_id; },
            Transaction::MlDsa(tx) => { tx.set_chain_id(chain_id); },
        }
    }

    /// Returns a mutable reference to the input.
    pub fn input_mut(&mut self) -> (input: &mut Bytes)
        ensures
            input@ == old(self)@.input(),
            final(self)@ == old(self)@.with_input(final(input)@),
    {
        match self {
            Transaction::Legacy(tx) => &mut tx.input,
            Transaction::Eip2930(tx) => &mut tx.input,
            Transaction::Eip1559(tx) => &mut tx.input,
            Transaction::Eip4844(tx) => &mut tx.input,
            Transaction::Eip7702(tx) => &mut tx.input,
            Transaction::MlDsa(tx) => &mut tx.input,
        }
    }

    /// Appends what is hashed for signing.
    pub fn encode_for_signing(&self, out: &mut Vec<u8>)
        ensures
            final(out)@ == old(out)@ + self@.signing_payload(),
    {
        match self {
            Transaction::MlDsa(tx) => tx.encode_for_signing(out),
            _ => ecdsa_encode_for_signing(self, out),
        }
    }

    /// Length of what is hashed for signing.
    pub fn payload_len_for_signature(&self) -> (n: usize)
        requires
            self@.signing_payload().len() <= usize::MAX,
        ensures
            n == self@.signing_payload().len(),
    {
        match self {
            Transaction::MlDsa(tx) => tx.payload_len_for_signature(),
            _ => ecdsa_payload_len_for_signature(self),
        }
    }

    /// The hash that is signed.
    pub fn signature_hash(&self) -> (hash: B256)
        ensures
            hash == keccak(self@.signing_payload()),
    {
        let mut buf: Vec<u8> = Vec::new();
        self.encode_for_signing(&mut buf);
        assert(buf@ =~= self@.signing_payload());
        keccak256(buf.as_slice())
    }

    /// Adds the signature and the hash. The outer signature of an ML-DSA transaction, which the
    /// hash does not depend on, becomes the dummy.
    pub fn into_signed(self, signature: Signature) -> (signed: Signed<Transaction>)
        ensures
            signed.tx == self,
            signed.signature == canonical_signature(self@, signature),
            signed.hash == keccak(self@.encoded(signature)),
    {
        let (signature, tx_hash) = match &self {
            Transaction::MlDsa(tx) => (ml_dsa_dummy_signature(), tx.tx_hash()),
            _ => (signature, ecdsa_tx_hash(&self, &signature)),
        };
        Signed::new_unchecked(self, signature, tx_hash)
    }

    /// Length of the encodings of the fields.
    pub fn rlp_encoded_fields_length(&self) -> (n: usize)
        requires
            self@.fields().len() <= usize::MAX,
        ensures
            n == self@.fields().len(),
    {
        match self {
            Transaction::MlDsa(tx) => tx.rlp_encoded_fields_length(),
            _ => ecdsa_fields_length(self),
        }
    }

    /// Appends the encodings of the fields.
    pub fn rlp_encode_fields(&self, out: &mut Vec<u8>)
        ensures
            final(out)@ == old(out)@ + self@.fields(),
    {
        match self {
            Transaction::MlDsa(tx) => tx.rlp_encode_fields(out),
            _ => ecdsa_encode_fields(self, out),
        }
    }

    /// Appends the EIP-2718 encoding with the signature. The type byte given is not used: the
    /// transaction has its own.
    pub fn eip2718_encode_with_type(&self, signature: &Signature, ty: u8, out: &mut Vec<u8>)
        ensures
            final(out)@ == old(out)@ + self@.encoded(*signature),
    {
        self.eip2718_encode(signature, out)
    }

    /// Appends the EIP-2718 encoding with the signature, which an ML-DSA transaction ignores: it
    /// carries its own.
    pub fn eip2718_encode(&self, signature: &Signature, out: &mut Vec<u8>)
        ensures
            final(out)@ == old(out)@ + self@.encoded(*signature),
    {
        match self {
            Transaction::MlDsa(tx) => tx.eip2718_encode(out),
            _ => ecdsa_encode(self, signature, out),
        }
    }

    /// Length of the EIP-2718 encoding with the signature.
    pub fn eip2718_encoded_length(&self, signature: &Signature) -> (n: usize)
        requires
            self@.encoded(*signature).len() <= usize::MAX,
        ensures
            n == self@.encoded(*signature).len(),
    {
        match self {
            Transaction::MlDsa(tx) => tx.eip2718_encoded_length(),
            Transaction::Legacy(tx) => legacy_encoded_length(tx, signature),
            _ => typed_encoded_length(self, signature),
        }
    }

    /// Appends the network form with the signature. The type byte given is not used: the
    /// transaction has its own.
    pub fn network_encode_with_type(&self, signature: &Signature, ty: u8, out: &mut Vec<u8>)
        ensures
            final(out)@ == old(out)@ + self@.network_encoded(*signature),
    {
        self.network_encode(signature, out)
    }

    /// Appends the network form with the signature.
    pub fn network_encode(&self, signature: &Signature, out: &mut Vec<u8>)
        ensures
            final(out)@ == old(out)@ + self@.network_encoded(*signature),
    {
        match self {
            Transaction::MlDsa(tx) => tx.eip2718_encode(out),
            _ => ecdsa_network_encode(self, signature, out),
        }
    }

    /// The hash of the EIP-2718 encoding with the signature. The type byte given is not used: the
    /// transaction has its own.
    pub fn tx_hash_with_type(&self, signature: &Signature, ty: u8) -> (hash: TxHash)
        ensures
            hash == keccak(self@.encoded(*signature)),
    {
        self.tx_hash(signature)
    }

    /// The hash of the EIP-2718 encoding with the signature.
    pub fn tx_hash(&self, signature: &Signature) -> (hash: TxHash)
        ensures
            hash == keccak(self@.encoded(*signature)),
    {
        match self {
            Transaction::MlDsa(tx) => tx.tx_hash(),
            _ => ecdsa_tx_hash(self, signature),
        }
    }
}

/// The outer signature of ML-DSA transactions: all zero.
pub open spec fn dummy_signature() -> Signature {
    Signature {
        r: U256 { w0: 0, w1: 0, w2: 0, w3: 0 },
        s: U256 { w0: 0, w1: 0, w2: 0, w3: 0 },
        y_parity: false,
    }
}

/// The outer signature that a transaction keeps of the one given: an ML-DSA transaction, which
/// has its signature in its body, keeps the dummy.
pub open spec fn canonical_signature(tx: TxFields, signature: Signature) -> Signature {
    if tx is MlDsa {
        dummy_signature()
    } else {
        signature
    }
}

/// The outer signature of ML-DSA transactions.
pub fn ml_dsa_dummy_signature() -> (signature: Signature)
    ensures
        signature == dummy_signature(),
{
    Signature { r: U256::zero(), s: U256::zero(), y_parity: false }
}

/// The encodings of an ML-DSA transaction do not depend on the outer signature.
pub proof fn law_outer_signature_is_irrelevant(tx: TxFields, a: Signature, b: Signature)
    requires
        tx is MlDsa,
    ensures
        tx.encoded(a) == tx.encoded(b),
        tx.network_encoded(a) == tx.network_encoded(b),
        canonical_signature(tx, a) == canonical_signature(tx, b),
{
}

/// The first byte of a typed transaction's encoding is its type byte; a legacy transaction's
/// encoding starts with a byte above all type bytes.
pub proof fn law_encoding_shows_type(tx: TxFields, signature: Signature)
    requires
        tx.encoded(signature).len() < LENGTH_LIMIT,
    ensures
        tx.encoded(signature).len() > 0,
        tx is Legacy ==> tx.encoded(signature)[0] >= 0xC0,
        !(tx is Legacy) ==> tx.encoded(signature)[0] == tx.tx_type().byte(),
        tx.tx_type().byte() < 0x80,
{
    if tx is Legacy {
        let f = tx->Legacy_0;
        let payload = f.fields_before(
            rlp_uint(eip155_value(signature.y_parity, f.chain_id)) + signature.scalars(),
        );
        lemma_be_len(payload.len());
    }
}

/// Around the fields there are at most 256 more bytes: in the signing payload, and with any
/// signature in the EIP-2718 encoding and the network form.
pub proof fn law_encoding_overhead(tx: TxFields, signature: Signature)
    requires
        tx.fields().len() + 256 < LENGTH_LIMIT,
    ensures
        tx.signing_payload().len() <= tx.fields().len() + 256,
        tx.encoded(signature).len() <= tx.fields().len() + 256,
        tx.network_encoded(signature).len() <= tx.fields().len() + 256,
{
    let n = tx.fields().len();
    lemma_small_items(signature);
    match tx {
        TxFields::Legacy(f) => {
            let v = eip155_value(signature.y_parity, f.chain_id) as u128;
            lemma_uint_len(v as nat);
            lemma_uint_len(0);
            f.lemma_fields_before(v.rlp() + signature.scalars());
            lemma_list_len(n + v.rlp().len() + signature.scalars().len());
            lemma_list_len(n);
            if f.chain_id is Some {
                let id = f.chain_id->Some_0;
                lemma_uint_len(id as nat);
                f.lemma_fields_before(id.rlp() + (rlp_uint(0) + rlp_uint(0)));
                lemma_list_len(n + id.rlp().len() + rlp_uint(0).len() + rlp_uint(0).len());
            }
        },
        TxFields::Eip2930(f) => {
            f.lemma_fields_before(signature.parity_and_scalars());
        },
        TxFields::Eip1559(f) => {
            f.lemma_fields_before(signature.parity_and_scalars());
        },
        TxFields::Eip4844(f) => {
            f.lemma_fields_before(signature.parity_and_scalars());
        },
        TxFields::Eip7702(f) => {
            f.lemma_fields_before(signature.parity_and_scalars());
        },
        TxFields::MlDsa(f) => {
            lemma_list_len(f.signing_fields().len());
        },
    }
    lemma_list_len(n + signature.parity_and_scalars().len());
    lemma_list_len(n);
    lemma_list_len(tx.encoded(signature).len());
}

/// A number of at most 256 bits takes at most 33 bytes.
proof fn lemma_uint_len(n: nat)
    requires
        n < 0x1_0000_0000_0000_0000_0000_0000_0000_0000_0000_0000_0000_0000_0000_0000_0000_0000,
    ensures
        0 < rlp_uint(n).len() <= 33,
{
    lemma_be_len(n);
}

/// A header takes at most 9 bytes.
proof fn lemma_list_len(n: nat)
    requires
        n < LENGTH_LIMIT,
    ensures
        rlp_header(true, n).len() <= 9,
        rlp_header(false, n).len() <= 9,
{
    lemma_be_len(n);
}

/// A signature takes at most 99 bytes.
proof fn lemma_small_items(signature: Signature)
    ensures
        signature.scalars().len() <= 66,
        signature.parity_and_scalars().len() <= 99,
{
    lemma_u256_bound(signature.r);
    lemma_u256_bound(signature.s);
    lemma_uint_len(signature.r.as_nat());
    lemma_uint_len(signature.s.as_nat());
    lemma_uint_len(1);
    lemma_uint_len(0);
}

} // verus!
