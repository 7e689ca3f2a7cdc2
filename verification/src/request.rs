//! Requests for transactions, as they come in over RPC.
//!
//! A request names the fields of a transaction; which type of transaction it makes follows from
//! the fields that are there.

use alloy_consensus::{EthereumTypedTransaction, TxEip4844 as AlloyTxEip4844};
use alloy_eips::eip4844::BlobTransactionSidecar as AlloySidecar;
use alloy_eips::eip7594::{
    BlobTransactionSidecarEip7594 as AlloySidecarEip7594,
    BlobTransactionSidecarVariant as AlloySidecarVariant,
};
use alloy_eips::eip7702::SignedAuthorization as AlloySignedAuthorization;
use alloy_primitives::FixedBytes;
use alloy_rpc_types_eth::{TransactionInput, TransactionRequest as AlloyTransactionRequest};
use vstd::prelude::*;

use crate::crypto::keccak;
use crate::envelope::{hashed, ValueError};
use crate::envelope_codec::unhashed;
use crate::primitives::{
    AccessList, AccessListEntry, Address, Bytes, ChainId, Signature, SignedAuthorization, TxKind,
    B256, U256,
};
use crate::rlp_codec::{
    alloy_access_list, alloy_kind, alloy_u256, own_access_list, own_kind, own_u256,
};
use crate::sidecar::{
    BlobTransactionSidecar, BlobTransactionSidecarEip7594, BlobTransactionSidecarVariant,
    SidecarFields,
};
use crate::transaction::{canonical_signature, dummy_signature, Transaction, TxFields};
use crate::transaction_signed::TransactionSigned;
use crate::tx_ecdsa_codec::{
    alloy_authorization, own_authorization, own_eip1559, own_eip2930, own_eip4844, own_eip7702,
    own_legacy, own_signature,
};

verus! {

/// Reason given where a request lacks fields of the transaction that it asks for.
pub const NOT_BUILDABLE: &'static str = "Transaction is not buildable";

/// A request for a transaction.
#[derive(Debug)]
pub struct TransactionRequest {
    /// Sender.
    pub from: Option<Address>,
    /// Destination.
    pub to: Option<TxKind>,
    /// Gas price.
    pub gas_price: Option<u128>,
    /// Fee cap.
    pub max_fee_per_gas: Option<u128>,
    /// Tip cap.
    pub max_priority_fee_per_gas: Option<u128>,
    /// Blob fee cap.
    pub max_fee_per_blob_gas: Option<u128>,
    /// Gas limit.
    pub gas: Option<u64>,
    /// Value transferred.
    pub value: Option<U256>,
    /// Calldata or init code.
    pub input: Option<Bytes>,
    /// The same under its older name.
    pub data: Option<Bytes>,
    /// Nonce.
    pub nonce: Option<u64>,
    /// Chain.
    pub chain_id: Option<ChainId>,
    /// Access list.
    pub access_list: Option<AccessList>,
    /// Type byte.
    pub transaction_type: Option<u8>,
    /// Blob hashes.
    pub blob_versioned_hashes: Option<Vec<B256>>,
    /// Sidecar of the blobs.
    pub sidecar: Option<BlobTransactionSidecarVariant>,
    /// Authorizations.
    pub authorization_list: Option<Vec<SignedAuthorization>>,
}

/// What a [`TransactionRequest`] holds.
#[verifier::ext_equal]
pub struct RequestFields {
    pub from: Option<Address>,
    pub to: Option<TxKind>,
    pub gas_price: Option<u128>,
    pub max_fee_per_gas: Option<u128>,
    pub max_priority_fee_per_gas: Option<u128>,
    pub max_fee_per_blob_gas: Option<u128>,
    pub gas: Option<u64>,
    pub value: Option<U256>,
    pub input: Option<Seq<u8>>,
    pub data: Option<Seq<u8>>,
    pub nonce: Option<u64>,
    pub chain_id: Option<ChainId>,
    pub access_list: Option<Seq<AccessListEntry>>,
    pub transaction_type: Option<u8>,
    pub blob_versioned_hashes: Option<Seq<B256>>,
    pub sidecar: Option<SidecarFields>,
    pub authorization_list: Option<Seq<SignedAuthorization>>,
}

/// The view of an optional value.
pub open spec fn view_of<T: View>(value: Option<T>) -> Option<T::V> {
    match value {
        Some(value) => Some(value@),
        None => None,
    }
}

impl View for TransactionRequest {
    type V = RequestFields;

    open spec fn view(&self) -> RequestFields {
        RequestFields {
            from: self.from,
            to: self.to,
            gas_price: self.gas_price,
            max_fee_per_gas: self.max_fee_per_gas,
            max_priority_fee_per_gas: self.max_priority_fee_per_gas,
            max_fee_per_blob_gas: self.max_fee_per_blob_gas,
            gas: self.gas,
            value: self.value,
            input: view_of(self.input),
            data: view_of(self.data),
            nonce: self.nonce,
            chain_id: self.chain_id,
            access_list: view_of(self.access_list),
            transaction_type: self.transaction_type,
            blob_versioned_hashes: view_of(self.blob_versioned_hashes),
            sidecar: view_of(self.sidecar),
            authorization_list: view_of(self.authorization_list),
        }
    }
}

/// The transaction request of `alloy_rpc_types_eth`.
#[verifier::external_type_specification]
#[verifier::external_body]
pub struct ExTransactionRequest(AlloyTransactionRequest);

/// The sidecar of `alloy_eips`.
#[verifier::external_type_specification]
#[verifier::external_body]
pub struct ExSidecarVariant(AlloySidecarVariant);

/// The byte array of `alloy_primitives`.
#[verifier::external_type_specification]
#[verifier::external_body]
pub struct ExFixedBytes<const N: usize>(FixedBytes<N>);

/// The same byte arrays as `alloy_primitives::FixedBytes`.
#[verifier::external_body]
fn alloy_arrays<const N: usize>(arrays: &Vec<[u8; N]>) -> Vec<FixedBytes<N>> {
    arrays.iter().map(|array| FixedBytes::from(array)).collect()
}

/// The same byte arrays as arrays.
#[verifier::external_body]
fn own_arrays<const N: usize>(arrays: Vec<FixedBytes<N>>) -> Vec<[u8; N]> {
    arrays.into_iter().map(|array| array.0).collect()
}

/// The same sidecar as an `alloy_eips::eip7594::BlobTransactionSidecarVariant`.
#[verifier::external_body]
fn alloy_sidecar(sidecar: &BlobTransactionSidecarVariant) -> AlloySidecarVariant {
    match sidecar {
        BlobTransactionSidecarVariant::Eip4844(from) => AlloySidecarVariant::Eip4844(
            AlloySidecar {
                blobs: alloy_arrays(&from.blobs), commitments: alloy_arrays(&from.commitments),
                proofs: alloy_arrays(&from.proofs),
            },
        ),
        BlobTransactionSidecarVariant::Eip7594(from) => AlloySidecarVariant::Eip7594(
            AlloySidecarEip7594 {
                blobs: alloy_arrays(&from.blobs), commitments: alloy_arrays(&from.commitments),
                cell_proofs: alloy_arrays(&from.cell_proofs),
            },
        ),
    }
}

/// The same sidecar as a [`BlobTransactionSidecarVariant`] of this library.
#[verifier::external_body]
fn own_sidecar(sidecar: AlloySidecarVariant) -> BlobTransactionSidecarVariant {
    match sidecar {
        AlloySidecarVariant::Eip4844(from) => BlobTransactionSidecarVariant::Eip4844(
            BlobTransactionSidecar {
                blobs: own_arrays(from.blobs), commitments: own_arrays(from.commitments),
                proofs: own_arrays(from.proofs),
            },
        ),
        AlloySidecarVariant::Eip7594(from) => BlobTransactionSidecarVariant::Eip7594(
            BlobTransactionSidecarEip7594 {
                blobs: own_arrays(from.blobs), commitments: own_arrays(from.commitments),
                cell_proofs: own_arrays(from.cell_proofs),
            },
        ),
    }
}

/// What a request has of variable length, in an `alloy_rpc_types_eth::TransactionRequest`.
#[verifier::external_body]
fn alloy_request_lists(request: &TransactionRequest) -> AlloyTransactionRequest {
    AlloyTransactionRequest {
        input: TransactionInput {
            input: request.input.clone().map(alloy_primitives::Bytes::from),
            data: request.data.clone().map(alloy_primitives::Bytes::from),
        },
        access_list: request.access_list.as_ref().map(alloy_access_list),
        blob_versioned_hashes: request.blob_versioned_hashes.as_ref().map(
            |hashes| hashes.iter().map(|hash| FixedBytes::from(hash.bytes)).collect(),
        ),
        sidecar: request.sidecar.as_ref().map(alloy_sidecar),
        authorization_list: request.authorization_list.as_ref().map(
            |list| list.iter().map(alloy_authorization).collect(),
        ),
        ..AlloyTransactionRequest::default()
    }
}

/// The same request as an `alloy_rpc_types_eth::TransactionRequest`.
#[verifier::external_body]
fn alloy_request(request: &TransactionRequest) -> AlloyTransactionRequest {
    AlloyTransactionRequest {
        from: request.from.map(|from| alloy_primitives::Address::from(from.bytes)),
        to: request.to.map(alloy_kind),
        gas_price: request.gas_price,
        max_fee_per_gas: request.max_fee_per_gas,
        max_priority_fee_per_gas: request.max_priority_fee_per_gas,
        max_fee_per_blob_gas: request.max_fee_per_blob_gas,
        gas: request.gas,
        value: request.value.map(alloy_u256),
        nonce: request.nonce,
        chain_id: request.chain_id,
        transaction_type: request.transaction_type,
        ..alloy_request_lists(request)
    }
}

/// The same hashes as hashes of this library.
#[verifier::external_body]
fn own_hashes(hashes: Vec<FixedBytes<32>>) -> Vec<B256> {
    hashes.into_iter().map(|hash| B256 { bytes: hash.0 }).collect()
}

/// The same authorizations as authorizations of this library.
#[verifier::external_body]
fn own_authorizations(list: Vec<AlloySignedAuthorization>) -> Vec<SignedAuthorization> {
    list.iter().map(own_authorization).collect()
}

/// The same request as a [`TransactionRequest`] of this library.
#[verifier::external_body]
fn own_request(from: AlloyTransactionRequest) -> TransactionRequest {
    TransactionRequest {
        from: from.from.map(|from| Address { bytes: from.into() }), to: from.to.map(own_kind),
        gas_price: from.gas_price, max_fee_per_gas: from.max_fee_per_gas,
        max_priority_fee_per_gas: from.max_priority_fee_per_gas,
        max_fee_per_blob_gas: from.max_fee_per_blob_gas,
        gas: from.gas, value: from.value.map(own_u256),
        input: from.input.input.map(Bytes::from), data: from.input.data.map(Bytes::from),
        nonce: from.nonce, chain_id: from.chain_id,
        access_list: from.access_list.map(own_access_list),
        transaction_type: from.transaction_type,
        blob_versioned_hashes: from.blob_versioned_hashes.map(own_hashes),
        sidecar: from.sidecar.map(own_sidecar),
        authorization_list: from.authorization_list.map(own_authorizations),
    }
}

/// The same transaction as a [`Transaction`] of this library, without a sidecar.
#[verifier::external_body]
fn own_typed<E: Into<AlloyTxEip4844>>(tx: EthereumTypedTransaction<E>) -> Transaction {
    match tx {
        EthereumTypedTransaction::Legacy(tx) => Transaction::Legacy(own_legacy(tx)),
        EthereumTypedTransaction::Eip2930(tx) => Transaction::Eip2930(own_eip2930(tx)),
        EthereumTypedTransaction::Eip1559(tx) => Transaction::Eip1559(own_eip1559(tx)),
        EthereumTypedTransaction::Eip4844(tx) => Transaction::Eip4844(own_eip4844(tx.into())),
        EthereumTypedTransaction::Eip7702(tx) => Transaction::Eip7702(own_eip7702(tx)),
    }
}

/// The transaction that a request makes, if it has all that is needed to send it.
pub uninterp spec fn sendable_tx(request: RequestFields) -> Option<TxFields>;

/// `alloy_rpc_types_eth::TransactionRequest::build_typed_tx`: the transaction of one of Ethereum's
/// own types that the request makes. There is none where a field is missing; for blob transactions
/// the sidecar is one of the fields.
#[verifier::external_body]
fn build_typed_tx(request: TransactionRequest) -> (tx: Option<Transaction>)
    ensures
        match tx {
            Some(tx) => sendable_tx(request@) == Some(tx@) && !(tx@ is MlDsa),
            None => sendable_tx(request@) is None,
        },
{
    alloy_request(&request).build_typed_tx().ok().map(own_typed)
}

/// The transaction that a request makes, if it has all that is needed to execute it, or else the
/// request that is handed back.
pub uninterp spec fn executable_tx(request: RequestFields) -> Result<TxFields, RequestFields>;

/// `alloy_rpc_types_eth::TransactionRequest::build_typed_simulate_transaction`: the transaction of
/// one of Ethereum's own types that the request makes, with a dummy signature and its hash. Where a
/// field is missing, a request is handed back. It may lack the sidecar of the one that was given.
#[verifier::external_body]
fn build_typed_simulate_transaction(request: TransactionRequest) -> (result: Result<
    (Transaction, Signature, B256),
    TransactionRequest,
>)
    ensures
        match result {
            Ok((tx, signature, hash)) => {
                &&& executable_tx(request@) == Ok::<TxFields, RequestFields>(tx@)
                &&& !(tx@ is MlDsa)
                &&& signature == dummy_signature()
                &&& hash == keccak(tx@.encoded(signature))
            },
            Err(request_back) => executable_tx(request@) == Err::<TxFields, RequestFields>(
                request_back@,
            ),
        },
{
    match alloy_request(&request).build_typed_simulate_transaction() {
        Ok(envelope) => {
            let signature = own_signature(*envelope.signature());
            let hash = B256 { bytes: envelope.tx_hash().0 };
            Ok((own_typed(envelope.into_typed_transaction()), signature, hash))
        },
        Err(error) => Err(own_request(error.into_value())),
    }
}

/// Why no signed transaction was made of a request.
#[derive(Debug, PartialEq, Eq)]
pub enum SignTxRequestError<E> {
    /// The request lacks a field.
    InvalidTransactionRequest,
    /// The signer failed.
    SignerError(E),
}

impl TransactionRequest {
    /// The transaction to be signed for this request.
    pub fn try_build<E>(self) -> (result: Result<Transaction, SignTxRequestError<E>>)
        ensures
            match sendable_tx(self@) {
                Some(tx) => result is Ok && result->Ok_0@ == tx && !(tx is MlDsa),
                None => result == Err::<Transaction, SignTxRequestError<E>>(
                    SignTxRequestError::InvalidTransactionRequest,
                ),
            },
    {
        match build_typed_tx(self) {
            Some(tx) => Ok(tx),
            None => Err(SignTxRequestError::InvalidTransactionRequest),
        }
    }

    /// The signed transaction, given what the signer made of the transaction for the request.
    pub fn finish_signing<E>(tx: Transaction, signature: Result<Signature, E>) -> (result: Result<
        TransactionSigned,
        SignTxRequestError<E>,
    >)
        ensures
            match signature {
                Ok(signature) => result is Ok && result->Ok_0@ == hashed(
                    unhashed(tx@, canonical_signature(tx@, signature)),
                ),
                Err(error) => result == Err::<TransactionSigned, SignTxRequestError<E>>(
                    SignTxRequestError::SignerError(error),
                ),
            },
    {
        match signature {
            Ok(signature) => Ok(TransactionSigned::from(tx.into_signed(signature))),
            Err(error) => Err(SignTxRequestError::SignerError(error)),
        }
    }

    /// The transaction with which this request is simulated: its signature is a dummy.
    pub fn try_into_sim_tx(self) -> (result: Result<TransactionSigned, ValueError<Self>>)
        ensures
            match executable_tx(self@) {
                Ok(tx) => result is Ok && result->Ok_0@ == hashed(unhashed(tx, dummy_signature()))
                    && !(tx is MlDsa),
                Err(request) => result is Err && result->Err_0.spec_value()@ == request
                    && result->Err_0.spec_msg() == NOT_BUILDABLE,
            },
    {
        match build_typed_simulate_transaction(self) {
            Ok((tx, signature, hash)) => Ok(TransactionSigned::new(tx, signature, hash)),
            Err(request) => Err(ValueError::new_static(request, NOT_BUILDABLE)),
        }
    }
}

} // verus!
