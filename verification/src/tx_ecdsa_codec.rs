//! Encoding, decoding and hashing of Ethereum's own transactions, through `alloy_consensus`.
//!
//! The functions here hand a transaction to the method of the same name that `alloy_consensus` has
//! for it. What an encoding is stands with the transactions; decoders succeed on exactly the
//! inputs that start with a signed transaction, and the error on the others has a name. As with
//! `Vec::push`, a buffer that memory cannot hold ends the program.

use alloy_consensus::transaction::{RlpEcdsaDecodableTx, RlpEcdsaEncodableTx};
use alloy_consensus::{
    EthereumTypedTransaction, SignableTransaction, TxEip1559 as AlloyTxEip1559,
    TxEip2930 as AlloyTxEip2930, TxEip4844 as AlloyTxEip4844, TxEip7702 as AlloyTxEip7702,
    TxLegacy as AlloyTxLegacy,
};
use alloy_eips::eip7702::{
    Authorization as AlloyAuthorization, SignedAuthorization as AlloySignedAuthorization,
};
use alloy_primitives::Signature as AlloySignature;
use vstd::prelude::*;

use crate::crypto::keccak;
use crate::primitives::{Address, Signature, SignedAuthorization, B256};
use crate::rlp::{is_tail, rlp_header, split_item, RlpError};
use crate::rlp_codec::{
    alloy_access_list, alloy_kind, alloy_u256, own_access_list, own_kind, own_u256, rlp_error,
};
use crate::transaction::{Transaction, TxFields};
use crate::tx_ecdsa::{
    Eip1559Fields, Eip2930Fields, Eip4844Fields, Eip7702Fields, LegacyFields, TxEip1559, TxEip2930,
    TxEip4844, TxEip7702, TxLegacy,
};

verus! {

/// The transaction type of `alloy_consensus`.
#[verifier::external_type_specification]
#[verifier::external_body]
pub struct ExAlloyTxLegacy(AlloyTxLegacy);

/// The transaction type of `alloy_consensus`.
#[verifier::external_type_specification]
#[verifier::external_body]
pub struct ExAlloyTxEip2930(AlloyTxEip2930);

/// The transaction type of `alloy_consensus`.
#[verifier::external_type_specification]
#[verifier::external_body]
pub struct ExAlloyTxEip1559(AlloyTxEip1559);

/// The transaction type of `alloy_consensus`.
#[verifier::external_type_specification]
#[verifier::external_body]
pub struct ExAlloyTxEip4844(AlloyTxEip4844);

/// The transaction type of `alloy_consensus`.
#[verifier::external_type_specification]
#[verifier::external_body]
pub struct ExAlloyTxEip7702(AlloyTxEip7702);

/// The authorization type of `alloy_eips`.
#[verifier::external_type_specification]
#[verifier::external_body]
pub struct ExAuthorization(AlloyAuthorization);

/// The signed authorization type of `alloy_eips`.
#[verifier::external_type_specification]
#[verifier::external_body]
pub struct ExSignedAuthorization(AlloySignedAuthorization);

/// The signature type of `alloy_primitives`.
#[verifier::external_type_specification]
#[verifier::external_body]
pub struct ExSignature(AlloySignature);

/// The unsigned transaction type of `alloy_consensus`.
#[verifier::external_type_specification]
#[verifier::external_body]
#[verifier::reject_recursive_types(Eip4844)]
pub struct ExEthereumTypedTransaction<Eip4844>(EthereumTypedTransaction<Eip4844>);

/// The same signature as an `alloy_primitives::Signature`.
#[verifier::external_body]
pub(crate) fn alloy_signature(signature: Signature) -> AlloySignature {
    AlloySignature::new(alloy_u256(signature.r), alloy_u256(signature.s), signature.y_parity)
}

/// The same signature as a [`Signature`] of this library.
#[verifier::external_body]
pub(crate) fn own_signature(signature: AlloySignature) -> Signature {
    Signature {
        r: own_u256(signature.r()),
        s: own_u256(signature.s()),
        y_parity: signature.v(),
    }
}

/// The same authorization as an `alloy_eips::eip7702::SignedAuthorization`.
#[verifier::external_body]
pub(crate) fn alloy_authorization(auth: &SignedAuthorization) -> AlloySignedAuthorization {
    AlloySignedAuthorization::new_unchecked(
        AlloyAuthorization {
            chain_id: alloy_u256(auth.chain_id),
            address: alloy_primitives::Address::from(auth.address.bytes),
            nonce: auth.nonce,
        },
        auth.y_parity,
        alloy_u256(auth.r),
        alloy_u256(auth.s),
    )
}

/// The same authorization as a [`SignedAuthorization`] of this library.
#[verifier::external_body]
pub(crate) fn own_authorization(auth: &AlloySignedAuthorization) -> SignedAuthorization {
    SignedAuthorization {
        chain_id: own_u256(auth.chain_id),
        address: Address { bytes: auth.address.into() },
        nonce: auth.nonce,
        y_parity: auth.y_parity(),
        r: own_u256(auth.r()),
        s: own_u256(auth.s()),
    }
}

/// The same transaction as an `alloy_consensus::TxLegacy`.
#[verifier::external_body]
pub(crate) fn alloy_legacy(tx: &TxLegacy) -> AlloyTxLegacy {
    AlloyTxLegacy {
        chain_id: tx.chain_id,
        nonce: tx.nonce,
        gas_price: tx.gas_price,
        gas_limit: tx.gas_limit,
        to: alloy_kind(tx.to),
        value: alloy_u256(tx.value),
        input: alloy_primitives::Bytes::copy_from_slice(&tx.input),
    }
}

/// The same transaction as a [`TxLegacy`] of this library.
#[verifier::external_body]
pub(crate) fn own_legacy(tx: AlloyTxLegacy) -> TxLegacy {
    TxLegacy {
        chain_id: tx.chain_id,
        nonce: tx.nonce,
        gas_price: tx.gas_price,
        gas_limit: tx.gas_limit,
        to: own_kind(tx.to),
        value: own_u256(tx.value),
        input: tx.input.to_vec(),
    }
}

/// The same transaction as an `alloy_consensus::TxEip2930`.
#[verifier::external_body]
pub(crate) fn alloy_eip2930(tx: &TxEip2930) -> AlloyTxEip2930 {
    AlloyTxEip2930 {
        chain_id: tx.chain_id,
        nonce: tx.nonce,
        gas_price: tx.gas_price,
        gas_limit: tx.gas_limit,
        to: alloy_kind(tx.to),
        value: alloy_u256(tx.value),
        access_list: alloy_access_list(&tx.access_list),
        input: alloy_primitives::Bytes::copy_from_slice(&tx.input),
    }
}

/// The same transaction as a [`TxEip2930`] of this library.
#[verifier::external_body]
pub(crate) fn own_eip2930(tx: AlloyTxEip2930) -> TxEip2930 {
    TxEip2930 {
        chain_id: tx.chain_id,
        nonce: tx.nonce,
        gas_price: tx.gas_price,
        gas_limit: tx.gas_limit,
        to: own_kind(tx.to),
        value: own_u256(tx.value),
        access_list: own_access_list(tx.access_list),
        input: tx.input.to_vec(),
    }
}

/// The same transaction as an `alloy_consensus::TxEip1559`.
#[verifier::external_body]
pub(crate) fn alloy_eip1559(tx: &TxEip1559) -> AlloyTxEip1559 {
    AlloyTxEip1559 {
        chain_id: tx.chain_id,
        nonce: tx.nonce,
        gas_limit: tx.gas_limit,
        max_fee_per_gas: tx.max_fee_per_gas,
        max_priority_fee_per_gas: tx.max_priority_fee_per_gas,
        to: alloy_kind(tx.to),
        value: alloy_u256(tx.value),
        access_list: alloy_access_list(&tx.access_list),
        input: alloy_primitives::Bytes::copy_from_slice(&tx.input),
    }
}

/// The same transaction as a [`TxEip1559`] of this library.
#[verifier::external_body]
pub(crate) fn own_eip1559(tx: AlloyTxEip1559) -> TxEip1559 {
    TxEip1559 {
        chain_id: tx.chain_id,
        nonce: tx.nonce,
        gas_limit: tx.gas_limit,
        max_fee_per_gas: tx.max_fee_per_gas,
        max_priority_fee_per_gas: tx.max_priority_fee_per_gas,
        to: own_kind(tx.to),
        value: own_u256(tx.value),
        access_list: own_access_list(tx.access_list),
        input: tx.input.to_vec(),
    }
}

/// The same transaction as an `alloy_consensus::TxEip4844`.
#[verifier::external_body]
pub(crate) fn alloy_eip4844(tx: &TxEip4844) -> AlloyTxEip4844 {
    AlloyTxEip4844 {
        chain_id: tx.chain_id,
        nonce: tx.nonce,
        gas_limit: tx.gas_limit,
        max_fee_per_gas: tx.max_fee_per_gas,
        max_priority_fee_per_gas: tx.max_priority_fee_per_gas,
        to: alloy_primitives::Address::from(tx.to.bytes),
        value: alloy_u256(tx.value),
        access_list: alloy_access_list(&tx.access_list),
        blob_versioned_hashes: tx.blob_versioned_hashes.iter().map(
            |hash| alloy_primitives::B256::from(hash.bytes),
        ).collect(),
        max_fee_per_blob_gas: tx.max_fee_per_blob_gas,
        input: alloy_primitives::Bytes::copy_from_slice(&tx.input),
    }
}

/// The same transaction as a [`TxEip4844`] of this library.
#[verifier::external_body]
pub(crate) fn own_eip4844(tx: AlloyTxEip4844) -> TxEip4844 {
    TxEip4844 {
        chain_id: tx.chain_id,
        nonce: tx.nonce,
        gas_limit: tx.gas_limit,
        max_fee_per_gas: tx.max_fee_per_gas,
        max_priority_fee_per_gas: tx.max_priority_fee_per_gas,
        to: Address { bytes: tx.to.into() },
        value: own_u256(tx.value),
        access_list: own_access_list(tx.access_list),
        blob_versioned_hashes: tx.blob_versioned_hashes.iter().map(
            |hash| B256 { bytes: hash.0 },
        ).collect(),
        max_fee_per_blob_gas: tx.max_fee_per_blob_gas,
        input: tx.input.to_vec(),
    }
}

/// The same transaction as an `alloy_consensus::TxEip7702`.
#[verifier::external_body]
pub(crate) fn alloy_eip7702(tx: &TxEip7702) -> AlloyTxEip7702 {
    AlloyTxEip7702 {
        chain_id: tx.chain_id,
        nonce: tx.nonce,
        gas_limit: tx.gas_limit,
        max_fee_per_gas: tx.max_fee_per_gas,
        max_priority_fee_per_gas: tx.max_priority_fee_per_gas,
        to: alloy_primitives::Address::from(tx.to.bytes),
        value: alloy_u256(tx.value),
        access_list: alloy_access_list(&tx.access_list),
        authorization_list: tx.authorization_list.iter().map(alloy_authorization).collect(),
        input: alloy_primitives::Bytes::copy_from_slice(&tx.input),
    }
}

/// The same transaction as a [`TxEip7702`] of this library.
#[verifier::external_body]
pub(crate) fn own_eip7702(tx: AlloyTxEip7702) -> TxEip7702 {
    TxEip7702 {
        chain_id: tx.chain_id,
        nonce: tx.nonce,
        gas_limit: tx.gas_limit,
        max_fee_per_gas: tx.max_fee_per_gas,
        max_priority_fee_per_gas: tx.max_priority_fee_per_gas,
        to: Address { bytes: tx.to.into() },
        value: own_u256(tx.value),
        access_list: own_access_list(tx.access_list),
        authorization_list: tx.authorization_list.iter().map(own_authorization).collect(),
        input: tx.input.to_vec(),
    }
}

/// The same transaction as one of `alloy_consensus`, which has none for ML-DSA.
#[verifier::external_body]
pub(crate) fn alloy_typed(tx: &Transaction) -> Option<EthereumTypedTransaction<AlloyTxEip4844>> {
    match tx {
        Transaction::Legacy(tx) => Some(EthereumTypedTransaction::Legacy(alloy_legacy(tx))),
        Transaction::Eip2930(tx) => Some(EthereumTypedTransaction::Eip2930(alloy_eip2930(tx))),
        Transaction::Eip1559(tx) => Some(EthereumTypedTransaction::Eip1559(alloy_eip1559(tx))),
        Transaction::Eip4844(tx) => Some(EthereumTypedTransaction::Eip4844(alloy_eip4844(tx))),
        Transaction::Eip7702(tx) => Some(EthereumTypedTransaction::Eip7702(alloy_eip7702(tx))),
        Transaction::MlDsa(_) => None,
    }
}

/// The network form of an ECDSA-signed transaction: the EIP-2718 encoding as an RLP string, and
/// for a legacy transaction the encoding itself.
pub open spec fn network_form(tx: TxFields, signature: Signature) -> Seq<u8> {
    let encoded = tx.encoded(signature);
    if tx is Legacy {
        encoded
    } else {
        rlp_header(false, encoded.len()) + encoded
    }
}

/// `SignableTransaction::encode_for_signing` of `alloy_consensus`: appends what is hashed for
/// signing.
#[verifier::external_body]
pub(crate) fn ecdsa_encode_for_signing(tx: &Transaction, out: &mut Vec<u8>)
    requires
        !(tx@ is MlDsa),
    ensures
        final(out)@ == old(out)@ + tx@.signing_payload(),
{
    alloy_typed(tx).unwrap().encode_for_signing(out)
}

/// `SignableTransaction::payload_len_for_signature` of `alloy_consensus`: the length of what is
/// hashed for signing.
#[verifier::external_body]
pub(crate) fn ecdsa_payload_len_for_signature(tx: &Transaction) -> (n: usize)
    requires
        !(tx@ is MlDsa),
        tx@.signing_payload().len() <= usize::MAX,
    ensures
        n == tx@.signing_payload().len(),
{
    alloy_typed(tx).unwrap().payload_len_for_signature()
}

/// `RlpEcdsaEncodableTx::rlp_encode_fields` of `alloy_consensus`: appends the encodings of the
/// fields.
#[verifier::external_body]
pub(crate) fn ecdsa_encode_fields(tx: &Transaction, out: &mut Vec<u8>)
    requires
        !(tx@ is MlDsa),
    ensures
        final(out)@ == old(out)@ + tx@.fields(),
{
    alloy_typed(tx).unwrap().rlp_encode_fields(out)
}

/// `RlpEcdsaEncodableTx::rlp_encoded_fields_length` of `alloy_consensus`: the length of the
/// encodings of the fields.
#[verifier::external_body]
pub(crate) fn ecdsa_fields_length(tx: &Transaction) -> (n: usize)
    requires
        !(tx@ is MlDsa),
        tx@.fields().len() <= usize::MAX,
    ensures
        n == tx@.fields().len(),
{
    alloy_typed(tx).unwrap().rlp_encoded_fields_length()
}

/// `RlpEcdsaEncodableTx::eip2718_encode` of `alloy_consensus`: appends the EIP-2718 encoding of
/// the transaction with the signature.
#[verifier::external_body]
pub(crate) fn ecdsa_encode(tx: &Transaction, signature: &Signature, out: &mut Vec<u8>)
    requires
        !(tx@ is MlDsa),
    ensures
        final(out)@ == old(out)@ + tx@.encoded(*signature),
{
    alloy_typed(tx).unwrap().eip2718_encode(&alloy_signature(*signature), out)
}

/// `RlpEcdsaEncodableTx::network_encode` of `alloy_consensus`: appends the network form of the
/// transaction with the signature.
#[verifier::external_body]
pub(crate) fn ecdsa_network_encode(tx: &Transaction, signature: &Signature, out: &mut Vec<u8>)
    requires
        !(tx@ is MlDsa),
    ensures
        final(out)@ == old(out)@ + network_form(tx@, *signature),
{
    alloy_typed(tx).unwrap().network_encode(&alloy_signature(*signature), out)
}

/// `RlpEcdsaEncodableTx::tx_hash` of `alloy_consensus`: the hash of the EIP-2718 encoding.
#[verifier::external_body]
pub(crate) fn ecdsa_tx_hash(tx: &Transaction, signature: &Signature) -> (hash: B256)
    requires
        !(tx@ is MlDsa),
    ensures
        hash == keccak(tx@.encoded(*signature)),
{
    B256 { bytes: alloy_typed(tx).unwrap().tx_hash(&alloy_signature(*signature)).0 }
}

/// `RlpEcdsaEncodableTx::eip2718_encoded_length` of a typed transaction of `alloy_consensus`: the
/// length of the EIP-2718 encoding.
#[verifier::external_body]
pub(crate) fn typed_encoded_length(tx: &Transaction, signature: &Signature) -> (n: usize)
    requires
        !(tx@ is MlDsa),
        !(tx@ is Legacy),
        tx@.encoded(*signature).len() <= usize::MAX,
    ensures
        n == tx@.encoded(*signature).len(),
{
    alloy_typed(tx).unwrap().eip2718_encoded_length(&alloy_signature(*signature))
}

/// `<alloy_consensus::TxLegacy as RlpEcdsaEncodableTx>::eip2718_encoded_length`: the length of the
/// EIP-2718 encoding.
#[verifier::external_body]
pub(crate) fn legacy_encoded_length(tx: &TxLegacy, signature: &Signature) -> (n: usize)
    requires
        TxFields::Legacy(tx@).encoded(*signature).len() <= usize::MAX,
    ensures
        n == TxFields::Legacy(tx@).encoded(*signature).len(),
{
    alloy_legacy(tx).eip2718_encoded_length(&alloy_signature(*signature))
}

/// The error of `<alloy_consensus::TxLegacy as RlpEcdsaDecodableTx>::rlp_decode_with_signature` on
/// an input that starts with no signed transaction.
pub uninterp spec fn legacy_decode_error(s: Seq<u8>) -> RlpError;

/// `<alloy_consensus::TxLegacy as RlpEcdsaDecodableTx>::rlp_decode_with_signature`: takes the list
/// of fields and signature off the front of the buffer.
#[verifier::external_body]
pub(crate) fn decode_legacy(buf: &mut &[u8]) -> (result: Result<(TxLegacy, Signature), RlpError>)
    ensures
        match split_item::<(LegacyFields, Signature)>(old(buf)@) {
            Some((x, tail)) => result is Ok && (result->Ok_0.0@, result->Ok_0.1) == x
                && final(buf)@ == tail,
            None => result == Err::<(TxLegacy, Signature), RlpError>(
                legacy_decode_error(old(buf)@),
            ),
        },
        is_tail(final(buf)@, old(buf)@),
{
    match AlloyTxLegacy::rlp_decode_with_signature(buf) {
        Ok((tx, signature)) => Ok((own_legacy(tx), own_signature(signature))),
        Err(error) => Err(rlp_error(error)),
    }
}

/// The error of `<alloy_consensus::TxEip2930 as RlpEcdsaDecodableTx>::rlp_decode_with_signature` on
/// an input that starts with no signed transaction.
pub uninterp spec fn eip2930_decode_error(s: Seq<u8>) -> RlpError;

/// `<alloy_consensus::TxEip2930 as RlpEcdsaDecodableTx>::rlp_decode_with_signature`: takes the list
/// of fields and signature off the front of the buffer.
#[verifier::external_body]
pub(crate) fn decode_eip2930(buf: &mut &[u8]) -> (result: Result<(TxEip2930, Signature), RlpError>)
    ensures
        match split_item::<(Eip2930Fields, Signature)>(old(buf)@) {
            Some((x, tail)) => result is Ok && (result->Ok_0.0@, result->Ok_0.1) == x
                && final(buf)@ == tail,
            None => result == Err::<(TxEip2930, Signature), RlpError>(
                eip2930_decode_error(old(buf)@),
            ),
        },
        is_tail(final(buf)@, old(buf)@),
{
    match AlloyTxEip2930::rlp_decode_with_signature(buf) {
        Ok((tx, signature)) => Ok((own_eip2930(tx), own_signature(signature))),
        Err(error) => Err(rlp_error(error)),
    }
}

/// The error of `<alloy_consensus::TxEip1559 as RlpEcdsaDecodableTx>::rlp_decode_with_signature` on
/// an input that starts with no signed transaction.
pub uninterp spec fn eip1559_decode_error(s: Seq<u8>) -> RlpError;

/// `<alloy_consensus::TxEip1559 as RlpEcdsaDecodableTx>::rlp_decode_with_signature`: takes the list
/// of fields and signature off the front of the buffer.
#[verifier::external_body]
pub(crate) fn decode_eip1559(buf: &mut &[u8]) -> (result: Result<(TxEip1559, Signature), RlpError>)
    ensures
        match split_item::<(Eip1559Fields, Signature)>(old(buf)@) {
            Some((x, tail)) => result is Ok && (result->Ok_0.0@, result->Ok_0.1) == x
                && final(buf)@ == tail,
            None => result == Err::<(TxEip1559, Signature), RlpError>(
                eip1559_decode_error(old(buf)@),
            ),
        },
        is_tail(final(buf)@, old(buf)@),
{
    match AlloyTxEip1559::rlp_decode_with_signature(buf) {
        Ok((tx, signature)) => Ok((own_eip1559(tx), own_signature(signature))),
        Err(error) => Err(rlp_error(error)),
    }
}

/// The error of `<alloy_consensus::TxEip4844 as RlpEcdsaDecodableTx>::rlp_decode_with_signature` on
/// an input that starts with no signed transaction.
pub uninterp spec fn eip4844_decode_error(s: Seq<u8>) -> RlpError;

/// `<alloy_consensus::TxEip4844 as RlpEcdsaDecodableTx>::rlp_decode_with_signature`: takes the list
/// of fields and signature off the front of the buffer.
#[verifier::external_body]
pub(crate) fn decode_eip4844(buf: &mut &[u8]) -> (result: Result<(TxEip4844, Signature), RlpError>)
    ensures
        match split_item::<(Eip4844Fields, Signature)>(old(buf)@) {
            Some((x, tail)) => result is Ok && (result->Ok_0.0@, result->Ok_0.1) == x
                && final(buf)@ == tail,
            None => result == Err::<(TxEip4844, Signature), RlpError>(
                eip4844_decode_error(old(buf)@),
            ),
        },
        is_tail(final(buf)@, old(buf)@),
{
    match AlloyTxEip4844::rlp_decode_with_signature(buf) {
        Ok((tx, signature)) => Ok((own_eip4844(tx), own_signature(signature))),
        Err(error) => Err(rlp_error(error)),
    }
}

/// The error of `<alloy_consensus::TxEip7702 as RlpEcdsaDecodableTx>::rlp_decode_with_signature` on
/// an input that starts with no signed transaction.
pub uninterp spec fn eip7702_decode_error(s: Seq<u8>) -> RlpError;

/// `<alloy_consensus::TxEip7702 as RlpEcdsaDecodableTx>::rlp_decode_with_signature`: takes the list
/// of fields and signature off the front of the buffer.
#[verifier::external_body]
pub(crate) fn decode_eip7702(buf: &mut &[u8]) -> (result: Result<(TxEip7702, Signature), RlpError>)
    ensures
        match split_item::<(Eip7702Fields, Signature)>(old(buf)@) {
            Some((x, tail)) => result is Ok && (result->Ok_0.0@, result->Ok_0.1) == x
                && final(buf)@ == tail,
            None => result == Err::<(TxEip7702, Signature), RlpError>(
                eip7702_decode_error(old(buf)@),
            ),
        },
        is_tail(final(buf)@, old(buf)@),
{
    match AlloyTxEip7702::rlp_decode_with_signature(buf) {
        Ok((tx, signature)) => Ok((own_eip7702(tx), own_signature(signature))),
        Err(error) => Err(rlp_error(error)),
    }
}

} // verus!
