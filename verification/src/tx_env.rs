//! What the virtual machine is told of a transaction.

use alloy_consensus::transaction::Either;
use alloy_consensus::EthereumTypedTransaction;
use alloy_eips::eip7702::{
    RecoveredAuthorization as AlloyRecoveredAuthorization,
    SignedAuthorization as AlloySignedAuthorization,
};
use alloy_evm::{FromRecoveredTx, FromTxWithEncoded};
use revm::context::TxEnv as EvmTxEnv;
use vstd::prelude::*;

use crate::crypto::keccak;
use crate::primitives::{
    copy_bytes, AccessList, AccessListEntry, Address, Bytes, Signature, SignedAuthorization, TxKind,
    B256, U256,
};
use crate::recovery::strict_signer;
use crate::rlp::{rlp_list, RlpItem};
use crate::rlp_codec::{own_access_list, own_kind, own_u256};
use crate::transaction::{Transaction, TxFields};
use crate::transaction_signed::TransactionSigned;
use crate::tx_ecdsa_codec::alloy_typed;
use crate::tx_type::ML_DSA_TX_TYPE_ID;

verus! {

/// An authorization with the account that signed it, if one was recovered.
#[derive(Clone, Copy, Debug)]
pub struct RecoveredAuthorization {
    pub chain_id: U256,
    pub address: Address,
    pub nonce: u64,
    pub authority: Option<Address>,
}

/// What the virtual machine is told of a transaction.
#[derive(Debug)]
pub struct TxEnv {
    /// Type byte.
    pub tx_type: u8,
    /// Sender.
    pub caller: Address,
    /// Gas limit.
    pub gas_limit: u64,
    /// Gas price, or fee cap where fees are dynamic.
    pub gas_price: u128,
    /// Destination.
    pub kind: TxKind,
    /// Value transferred.
    pub value: U256,
    /// Calldata or init code.
    pub data: Bytes,
    /// Nonce.
    pub nonce: u64,
    /// Chain, where it is given.
    pub chain_id: Option<u64>,
    /// Access list.
    pub access_list: AccessList,
    /// Tip cap, where fees are dynamic.
    pub gas_priority_fee: Option<u128>,
    /// Blob hashes.
    pub blob_hashes: Vec<B256>,
    /// Blob fee cap.
    pub max_fee_per_blob_gas: u128,
    /// Authorizations.
    pub authorization_list: Vec<RecoveredAuthorization>,
}

/// What a [`TxEnv`] holds.
#[verifier::ext_equal]
pub struct TxEnvFields {
    pub tx_type: u8,
    pub caller: Address,
    pub gas_limit: u64,
    pub gas_price: u128,
    pub kind: TxKind,
    pub value: U256,
    pub data: Seq<u8>,
    pub nonce: u64,
    pub chain_id: Option<u64>,
    pub access_list: Seq<AccessListEntry>,
    pub gas_priority_fee: Option<u128>,
    pub blob_hashes: Seq<B256>,
    pub max_fee_per_blob_gas: u128,
    pub authorization_list: Seq<RecoveredAuthorization>,
}

impl View for TxEnv {
    type V = TxEnvFields;

    open spec fn view(&self) -> TxEnvFields {
        TxEnvFields {
            tx_type: self.tx_type,
            caller: self.caller,
            gas_limit: self.gas_limit,
            gas_price: self.gas_price,
            kind: self.kind,
            value: self.value,
            data: self.data@,
            nonce: self.nonce,
            chain_id: self.chain_id,
            access_list: self.access_list@,
            gas_priority_fee: self.gas_priority_fee,
            blob_hashes: self.blob_hashes@,
            max_fee_per_blob_gas: self.max_fee_per_blob_gas,
            authorization_list: self.authorization_list@,
        }
    }
}

/// What is signed of an authorization: a byte `0x05` and the list of chain, address and nonce.
pub open spec fn authorization_payload(auth: SignedAuthorization) -> Seq<u8> {
    seq![0x05u8] + rlp_list(auth.chain_id.rlp() + (auth.address.rlp() + auth.nonce.rlp()))
}

/// The account that signed an authorization: none where the parity is neither 0 nor 1, or the
/// signature is malleable.
pub open spec fn authority(auth: SignedAuthorization) -> Option<Address> {
    if auth.y_parity > 1 {
        None
    } else {
        strict_signer(
            Signature { r: auth.r, s: auth.s, y_parity: auth.y_parity == 1 },
            keccak(authorization_payload(auth)),
        )
    }
}

/// An authorization with the account that signed it.
pub open spec fn recovered(auth: SignedAuthorization) -> RecoveredAuthorization {
    RecoveredAuthorization {
        chain_id: auth.chain_id,
        address: auth.address,
        nonce: auth.nonce,
        authority: authority(auth),
    }
}

/// What the virtual machine is told of the transaction `tx` with the given sender. What a type of
/// transaction lacks is empty or zero.
pub open spec fn env_of(tx: TxFields, caller: Address) -> TxEnvFields {
    TxEnvFields {
        tx_type: tx.tx_type().byte(),
        caller,
        gas_limit: tx.gas_limit(),
        gas_price: tx.max_fee_per_gas(),
        kind: tx.kind(),
        value: tx.value(),
        data: tx.input(),
        nonce: tx.nonce(),
        chain_id: tx.chain_id(),
        access_list: match tx.access_list() {
            Some(list) => list,
            None => Seq::empty(),
        },
        gas_priority_fee: tx.max_priority_fee_per_gas(),
        blob_hashes: match tx.blob_versioned_hashes() {
            Some(hashes) => hashes,
            None => Seq::empty(),
        },
        max_fee_per_blob_gas: match tx.max_fee_per_blob_gas() {
            Some(fee) => fee,
            None => 0,
        },
        authorization_list: match tx.authorization_list() {
            Some(list) => list.map_values(|auth: SignedAuthorization| recovered(auth)),
            None => Seq::empty(),
        },
    }
}

/// The transaction environment of `revm`.
#[verifier::external_type_specification]
#[verifier::external_body]
pub struct ExEvmTxEnv(EvmTxEnv);

/// The recovered authorization of `alloy_eips`.
#[verifier::external_type_specification]
#[verifier::external_body]
pub struct ExRecoveredAuthorization(AlloyRecoveredAuthorization);

/// The sum type of the crate `either`.
#[verifier::external_type_specification]
#[verifier::external_body]
#[verifier::reject_recursive_types(L)]
#[verifier::reject_recursive_types(R)]
pub struct ExEither<L, R>(Either<L, R>);

/// The same authorization as a [`RecoveredAuthorization`] of this library. One whose signer was
/// not looked for has none.
#[verifier::external_body]
fn own_recovered(
    auth: Either<AlloySignedAuthorization, AlloyRecoveredAuthorization>,
) -> RecoveredAuthorization {
    let (inner, authority) = match auth {
        Either::Left(auth) => (auth.inner().clone(), None),
        Either::Right(auth) => (auth.clone().into_parts().0, auth.authority()),
    };
    RecoveredAuthorization {
        chain_id: own_u256(inner.chain_id),
        address: Address { bytes: inner.address.into() },
        nonce: inner.nonce,
        authority: authority.map(|address| Address { bytes: address.into() }),
    }
}

/// The same environment as a [`TxEnv`] of this library.
#[verifier::external_body]
fn own_tx_env(env: EvmTxEnv) -> TxEnv {
    let (tx_type, caller, kind) = (env.tx_type, env.caller, own_kind(env.kind));
    TxEnv {
        tx_type, caller: Address { bytes: caller.into() }, kind,
        gas_limit: env.gas_limit, gas_price: env.gas_price, value: own_u256(env.value),
        data: env.data.to_vec(), nonce: env.nonce, chain_id: env.chain_id,
        access_list: own_access_list(env.access_list),
        gas_priority_fee: env.gas_priority_fee,
        blob_hashes: env.blob_hashes.iter().map(|hash| B256 { bytes: hash.0 }).collect(),
        max_fee_per_blob_gas: env.max_fee_per_blob_gas,
        authorization_list: env.authorization_list.into_iter().map(own_recovered).collect(),
    }
}

/// `FromRecoveredTx::from_recovered_tx` of `alloy_evm`, for the environment of `revm` and each of
/// Ethereum's own types of transactions: the fields under their names there, with the signers of
/// the authorizations recovered.
#[verifier::external_body]
fn ecdsa_from_recovered_tx(tx: &Transaction, caller: Address) -> (env: TxEnv)
    requires
        !(tx@ is MlDsa),
    ensures
        env@ == env_of(tx@, caller),
{
    let caller = alloy_primitives::Address::from(caller.bytes);
    own_tx_env(match alloy_typed(tx).unwrap() {
        EthereumTypedTransaction::Legacy(tx) => EvmTxEnv::from_recovered_tx(&tx, caller),
        EthereumTypedTransaction::Eip2930(tx) => EvmTxEnv::from_recovered_tx(&tx, caller),
        EthereumTypedTransaction::Eip1559(tx) => EvmTxEnv::from_recovered_tx(&tx, caller),
        EthereumTypedTransaction::Eip4844(tx) => EvmTxEnv::from_recovered_tx(&tx, caller),
        EthereumTypedTransaction::Eip7702(tx) => EvmTxEnv::from_recovered_tx(&tx, caller),
    })
}

/// `FromTxWithEncoded::from_encoded_tx` of `alloy_evm`, for the environment of `revm` and each of
/// Ethereum's own types of transactions: the same as without the encoding, which is not looked at.
#[verifier::external_body]
fn ecdsa_from_encoded_tx(tx: &Transaction, caller: Address, encoded: Bytes) -> (env: TxEnv)
    requires
        !(tx@ is MlDsa),
    ensures
        env@ == env_of(tx@, caller),
{
    let caller = alloy_primitives::Address::from(caller.bytes);
    let encoded = alloy_primitives::Bytes::from(encoded);
    own_tx_env(match alloy_typed(tx).unwrap() {
        EthereumTypedTransaction::Legacy(tx) => EvmTxEnv::from_encoded_tx(&tx, caller, encoded),
        EthereumTypedTransaction::Eip2930(tx) => EvmTxEnv::from_encoded_tx(&tx, caller, encoded),
        EthereumTypedTransaction::Eip1559(tx) => EvmTxEnv::from_encoded_tx(&tx, caller, encoded),
        EthereumTypedTransaction::Eip4844(tx) => EvmTxEnv::from_encoded_tx(&tx, caller, encoded),
        EthereumTypedTransaction::Eip7702(tx) => EvmTxEnv::from_encoded_tx(&tx, caller, encoded),
    })
}

impl TxEnv {
    /// What the virtual machine is told of a signed transaction whose sender was recovered.
    pub fn from_recovered_tx(tx: &TransactionSigned, caller: Address) -> (env: Self)
        ensures
            env@ == env_of(tx@.transaction, caller),
    {
        match tx.transaction() {
            Transaction::MlDsa(tx) => {
                let env = TxEnv {
                    tx_type: ML_DSA_TX_TYPE_ID,
                    caller,
                    gas_limit: tx.gas_limit,
                    gas_price: tx.max_fee_per_gas,
                    kind: tx.to,
                    value: tx.value,
                    data: copy_bytes(tx.input.as_slice()),
                    nonce: tx.nonce,
                    chain_id: Some(tx.chain_id),
                    access_list: tx.access_list.clone(),
                    gas_priority_fee: Some(tx.max_priority_fee_per_gas),
                    blob_hashes: Vec::new(),
                    max_fee_per_blob_gas: 0,
                    authorization_list: Vec::new(),
                };
                assert(env@ =~= env_of(TxFields::MlDsa(tx@), caller));
                env
            },
            ecdsa => ecdsa_from_recovered_tx(ecdsa, caller),
        }
    }

    /// What the virtual machine is told of a signed transaction whose encoding is at hand.
    pub fn from_encoded_tx(tx: &TransactionSigned, caller: Address, encoded: Bytes) -> (env: Self)
        ensures
            env@ == env_of(tx@.transaction, caller),
    {
        match tx.transaction() {
            Transaction::MlDsa(_) => Self::from_recovered_tx(tx, caller),
            ecdsa => ecdsa_from_encoded_tx(ecdsa, caller, encoded),
        }
    }
}

} // verus!
