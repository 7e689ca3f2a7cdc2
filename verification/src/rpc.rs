//! Transactions as they are served over RPC.

use alloy_consensus::transaction::{Recovered, TransactionInfo as AlloyTransactionInfo};
use vstd::prelude::*;

use crate::envelope::{
    enveloped, enveloped_bare, hashed, EthereumTxEnvelope, TxEip4844Variant, ValueError,
    ML_DSA_NOT_AN_ETHEREUM_ENVELOPE,
};
use crate::primitives::{Address, Signature, TxHash, B256};
use crate::receipt::EthApiError;
use crate::sidecar::BlobTransactionSidecarVariant;
use crate::transaction::{Transaction, TxFields};
use crate::transaction_signed::{SignedTx, TransactionSigned};
use crate::tx_ecdsa::TxEip4844;
use crate::tx_ecdsa_codec::{alloy_signature, alloy_typed};

verus! {

/// What is known of the place of a transaction in the chain.
#[derive(Clone, Copy, Debug)]
pub struct TransactionInfo {
    pub hash: Option<TxHash>,
    pub index: Option<u64>,
    pub block_hash: Option<B256>,
    pub block_number: Option<u64>,
    pub base_fee: Option<u64>,
    pub block_timestamp: Option<u64>,
}

impl Default for TransactionInfo {
    fn default() -> (info: Self)
        ensures
            info == (TransactionInfo {
                hash: None,
                index: None,
                block_hash: None,
                block_number: None,
                base_fee: None,
                block_timestamp: None,
            }),
    {
        TransactionInfo {
            hash: None,
            index: None,
            block_hash: None,
            block_number: None,
            base_fee: None,
            block_timestamp: None,
        }
    }
}

/// A transaction as it is served, with its sender and its place in the chain.
#[derive(Debug)]
pub struct RpcTransaction {
    pub inner: EthereumTxEnvelope<TxEip4844Variant<BlobTransactionSidecarVariant>>,
    pub signer: Address,
    pub block_hash: Option<B256>,
    pub block_number: Option<u64>,
    pub transaction_index: Option<u64>,
    pub effective_gas_price: Option<u128>,
    pub block_timestamp: Option<u64>,
}

/// The price of gas that is served: the base fee and the tip that the fee cap leaves room for. A
/// transaction whose fee cap is below the base fee is served with the base fee, one without a base
/// fee with its fee cap.
pub open spec fn served_gas_price(tx: TxFields, base_fee: Option<u64>) -> int {
    match base_fee {
        None => tx.max_fee_per_gas() as int,
        Some(base) => if tx.max_fee_per_gas() < base {
            base as int
        } else {
            match tx.max_priority_fee_per_gas() {
                Some(tip) if tip + base < tx.max_fee_per_gas() => tip + base,
                _ => tx.max_fee_per_gas() as int,
            }
        },
    }
}

/// What a transaction is served with, beside itself and its sender.
#[derive(Clone, Copy, Debug)]
struct Place {
    block_hash: Option<B256>,
    block_number: Option<u64>,
    transaction_index: Option<u64>,
    effective_gas_price: Option<u128>,
    block_timestamp: Option<u64>,
}

/// `alloy_rpc_types_eth::Transaction::from_transaction`: puts a transaction and its sender together
/// with its place in the chain and the price of gas that it pays there.
#[verifier::external_body]
fn place_of(
    tx: &Transaction,
    signature: &Signature,
    signer: Address,
    info: TransactionInfo,
) -> (place: Place)
    requires
        !(tx@ is MlDsa),
    ensures
        place.block_hash == info.block_hash,
        place.block_number == info.block_number,
        place.transaction_index == info.index,
        place.block_timestamp == info.block_timestamp,
        place.effective_gas_price is Some,
        place.effective_gas_price->Some_0 == served_gas_price(tx@, info.base_fee),
{
    let envelope = alloy_typed(tx).unwrap().into_envelope(alloy_signature(*signature));
    let tx = alloy_rpc_types_eth::Transaction::from_transaction(
        Recovered::new_unchecked(envelope, signer.bytes.into()),
        alloy_info(info),
    );
    Place {
        block_hash: tx.block_hash.map(|hash| B256 { bytes: hash.0 }),
        block_number: tx.block_number,
        transaction_index: tx.transaction_index,
        effective_gas_price: tx.effective_gas_price,
        block_timestamp: tx.block_timestamp,
    }
}

/// The transaction info of `alloy_consensus`.
#[verifier::external_type_specification]
#[verifier::external_body]
pub struct ExTransactionInfo(AlloyTransactionInfo);

/// The same info as an `alloy_consensus::transaction::TransactionInfo`.
#[verifier::external_body]
fn alloy_info(info: TransactionInfo) -> AlloyTransactionInfo {
    AlloyTransactionInfo {
        hash: info.hash.map(|hash| alloy_primitives::B256::from(hash.bytes)),
        index: info.index,
        block_hash: info.block_hash.map(|hash| alloy_primitives::B256::from(hash.bytes)),
        block_number: info.block_number,
        base_fee: info.base_fee,
        block_timestamp: info.block_timestamp,
    }
}

/// Whether `served` is the signed transaction `tx` with its sender and its place in the chain.
pub open spec fn serves(
    served: RpcTransaction,
    tx: SignedTx,
    signer: Address,
    info: TransactionInfo,
) -> bool {
    &&& enveloped_bare(served.inner, tx)
    &&& served.signer == signer
    &&& served.block_hash == info.block_hash
    &&& served.block_number == info.block_number
    &&& served.transaction_index == info.index
    &&& served.block_timestamp == info.block_timestamp
    &&& served.effective_gas_price is Some
    &&& served.effective_gas_price->Some_0 == served_gas_price(tx.transaction, info.base_fee)
}

impl RpcTransaction {
    /// Prepares a signed transaction to be served. An ML-DSA transaction cannot be; it is handed
    /// back with the reason.
    pub fn from_consensus_tx(
        tx: TransactionSigned,
        signer: Address,
        tx_info: TransactionInfo,
    ) -> (result: Result<Self, ValueError<TransactionSigned>>)
        ensures
            match tx@.transaction {
                TxFields::MlDsa(_) => result is Err && result->Err_0.spec_value()@ == hashed(tx@)
                    && result->Err_0.spec_msg() == ML_DSA_NOT_AN_ETHEREUM_ENVELOPE,
                _ => result is Ok && serves(result->Ok_0, tx@, signer, tx_info),
            },
    {
        let place: Option<Place> = match tx.transaction() {
            Transaction::MlDsa(_) => None,
            transaction => Some(place_of(transaction, tx.signature(), signer, tx_info)),
        };
        match EthereumTxEnvelope::<TxEip4844Variant<BlobTransactionSidecarVariant>>::try_from(tx) {
            Err(error) => Err(error),
            Ok(inner) => {
                let place = place.unwrap();
                Ok(
                    RpcTransaction {
                        inner,
                        signer,
                        block_hash: place.block_hash,
                        block_number: place.block_number,
                        transaction_index: place.transaction_index,
                        effective_gas_price: place.effective_gas_price,
                        block_timestamp: place.block_timestamp,
                    },
                )
            },
        }
    }

    /// Prepares a signed transaction to be served, and names the reason where it cannot be.
    pub fn fill(
        tx: TransactionSigned,
        signer: Address,
        tx_info: TransactionInfo,
    ) -> (result: Result<Self, EthApiError>)
        ensures
            match tx@.transaction {
                TxFields::MlDsa(_) => result == Err::<Self, EthApiError>(
                    EthApiError::Unsupported(ML_DSA_NOT_AN_ETHEREUM_ENVELOPE),
                ),
                _ => result is Ok && serves(result->Ok_0, tx@, signer, tx_info),
            },
    {
        match Self::from_consensus_tx(tx, signer, tx_info) {
            Ok(served) => Ok(served),
            Err(error) => Err(EthApiError::Unsupported(error.message())),
        }
    }
}

/// The blob transaction itself, whether or not its sidecar is with it.
pub open spec fn without_sidecar<T>(tx: TxEip4844Variant<T>) -> TxEip4844 {
    match tx {
        TxEip4844Variant::TxEip4844(tx) => tx,
        TxEip4844Variant::TxEip4844WithSidecar(tx) => tx.tx,
    }
}

/// What is read back from a served transaction is the transaction that was served.
pub proof fn law_served_transaction_reads_back(
    served: RpcTransaction,
    tx: SignedTx,
    signer: Address,
    info: TransactionInfo,
    back: SignedTx,
)
    requires
        serves(served, tx, signer, info),
        match served.inner {
            EthereumTxEnvelope::Eip4844(from) => back == (SignedTx {
                hash: Some(from.hash),
                signature: from.signature,
                transaction: TxFields::Eip4844(without_sidecar(from.tx)@),
            }),
            _ => enveloped(served.inner, back) && back.hash is Some,
        },
    ensures
        back == hashed(tx),
{
}

impl From<RpcTransaction> for TransactionSigned {
    fn from(value: RpcTransaction) -> (signed: Self)
        ensures
            match value.inner {
                EthereumTxEnvelope::Eip4844(from) => signed@ == (SignedTx {
                    hash: Some(from.hash),
                    signature: from.signature,
                    transaction: TxFields::Eip4844(without_sidecar(from.tx)@),
                }),
                _ => enveloped(value.inner, signed@) && signed@.hash is Some,
            },
    {
        TransactionSigned::from(value.inner)
    }
}

impl vstd::std_specs::convert::FromSpecImpl<RpcTransaction> for TransactionSigned {
    open spec fn obeys_from_spec() -> bool {
        false
    }

    open spec fn from_spec(value: RpcTransaction) -> Self {
        arbitrary()
    }
}

} // verus!
