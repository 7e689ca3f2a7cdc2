//! What transactions say of themselves, in terms of their own fields.

use vstd::prelude::*;

use crate::primitives::{AccessList, Bytes, ChainId, SignedAuthorization, TxKind, B256, U256};
use crate::transaction::Transaction;
use crate::transaction_signed::TransactionSigned;
use crate::tx_ml_dsa::TxMlDsa;
use crate::tx_type::{DiesisTxType, TxType};

verus! {

/// The type that is told is that of the variant.
pub proof fn law_tx_type(tx: Transaction, result: DiesisTxType)
    requires
        call_ensures(Transaction::tx_type, (&tx,), result),
    ensures
        match tx {
            Transaction::Legacy(tx) => result == DiesisTxType::Legacy,
            Transaction::Eip2930(tx) => result == DiesisTxType::Eip2930,
            Transaction::Eip1559(tx) => result == DiesisTxType::Eip1559,
            Transaction::Eip4844(tx) => result == DiesisTxType::Eip4844,
            Transaction::Eip7702(tx) => result == DiesisTxType::Eip7702,
            Transaction::MlDsa(tx) => result == DiesisTxType::MlDsa,
        },
{
}

/// The type byte is that of the variant.
pub proof fn law_ty(tx: Transaction, result: u8)
    requires
        call_ensures(Transaction::ty, (&tx,), result),
    ensures
        match tx {
            Transaction::Legacy(tx) => result == 0,
            Transaction::Eip2930(tx) => result == 1,
            Transaction::Eip1559(tx) => result == 2,
            Transaction::Eip4844(tx) => result == 3,
            Transaction::Eip7702(tx) => result == 4,
            Transaction::MlDsa(tx) => result == 0x70,
        },
{
}

/// Only a legacy transaction is one.
pub proof fn law_is_legacy(tx: Transaction, result: bool)
    requires
        call_ensures(Transaction::is_legacy, (&tx,), result),
    ensures
        match tx {
            Transaction::Legacy(tx) => result,
            Transaction::Eip2930(tx) => !result,
            Transaction::Eip1559(tx) => !result,
            Transaction::Eip4844(tx) => !result,
            Transaction::Eip7702(tx) => !result,
            Transaction::MlDsa(tx) => !result,
        },
{
}

/// The chain is the one that the transaction names; a legacy transaction need not name one.
pub proof fn law_chain_id(tx: Transaction, result: Option<ChainId>)
    requires
        call_ensures(Transaction::chain_id, (&tx,), result),
    ensures
        match tx {
            Transaction::Legacy(tx) => result == tx.chain_id,
            Transaction::Eip2930(tx) => result == Some(tx.chain_id),
            Transaction::Eip1559(tx) => result == Some(tx.chain_id),
            Transaction::Eip4844(tx) => result == Some(tx.chain_id),
            Transaction::Eip7702(tx) => result == Some(tx.chain_id),
            Transaction::MlDsa(tx) => result == Some(tx.chain_id),
        },
{
}

/// The nonce is the one in the transaction.
pub proof fn law_nonce(tx: Transaction, result: u64)
    requires
        call_ensures(Transaction::nonce, (&tx,), result),
    ensures
        match tx {
            Transaction::Legacy(tx) => result == tx.nonce,
            Transaction::Eip2930(tx) => result == tx.nonce,
            Transaction::Eip1559(tx) => result == tx.nonce,
            Transaction::Eip4844(tx) => result == tx.nonce,
            Transaction::Eip7702(tx) => result == tx.nonce,
            Transaction::MlDsa(tx) => result == tx.nonce,
        },
{
}

/// The gas limit is the one in the transaction.
pub proof fn law_gas_limit(tx: Transaction, result: u64)
    requires
        call_ensures(Transaction::gas_limit, (&tx,), result),
    ensures
        match tx {
            Transaction::Legacy(tx) => result == tx.gas_limit,
            Transaction::Eip2930(tx) => result == tx.gas_limit,
            Transaction::Eip1559(tx) => result == tx.gas_limit,
            Transaction::Eip4844(tx) => result == tx.gas_limit,
            Transaction::Eip7702(tx) => result == tx.gas_limit,
            Transaction::MlDsa(tx) => result == tx.gas_limit,
        },
{
}

/// A gas price is told exactly where it is fixed.
pub proof fn law_gas_price(tx: Transaction, result: Option<u128>)
    requires
        call_ensures(Transaction::gas_price, (&tx,), result),
    ensures
        match tx {
            Transaction::Legacy(tx) => result == Some(tx.gas_price),
            Transaction::Eip2930(tx) => result == Some(tx.gas_price),
            Transaction::Eip1559(tx) => result is None,
            Transaction::Eip4844(tx) => result is None,
            Transaction::Eip7702(tx) => result is None,
            Transaction::MlDsa(tx) => result is None,
        },
{
}

/// The fee cap is the one in the transaction, or the gas price where that is fixed.
pub proof fn law_max_fee_per_gas(tx: Transaction, result: u128)
    requires
        call_ensures(Transaction::max_fee_per_gas, (&tx,), result),
    ensures
        match tx {
            Transaction::Legacy(tx) => result == tx.gas_price,
            Transaction::Eip2930(tx) => result == tx.gas_price,
            Transaction::Eip1559(tx) => result == tx.max_fee_per_gas,
            Transaction::Eip4844(tx) => result == tx.max_fee_per_gas,
            Transaction::Eip7702(tx) => result == tx.max_fee_per_gas,
            Transaction::MlDsa(tx) => result == tx.max_fee_per_gas,
        },
{
}

/// The tip cap is the one in the transaction; where the gas price is fixed there is none.
pub proof fn law_max_priority_fee_per_gas(tx: Transaction, result: Option<u128>)
    requires
        call_ensures(Transaction::max_priority_fee_per_gas, (&tx,), result),
    ensures
        match tx {
            Transaction::Legacy(tx) => result is None,
            Transaction::Eip2930(tx) => result is None,
            Transaction::Eip1559(tx) => result == Some(tx.max_priority_fee_per_gas),
            Transaction::Eip4844(tx) => result == Some(tx.max_priority_fee_per_gas),
            Transaction::Eip7702(tx) => result == Some(tx.max_priority_fee_per_gas),
            Transaction::MlDsa(tx) => result == Some(tx.max_priority_fee_per_gas),
        },
{
}

/// Only a blob transaction has a blob fee cap.
pub proof fn law_max_fee_per_blob_gas(tx: Transaction, result: Option<u128>)
    requires
        call_ensures(Transaction::max_fee_per_blob_gas, (&tx,), result),
    ensures
        match tx {
            Transaction::Legacy(tx) => result is None,
            Transaction::Eip2930(tx) => result is None,
            Transaction::Eip1559(tx) => result is None,
            Transaction::Eip4844(tx) => result == Some(tx.max_fee_per_blob_gas),
            Transaction::Eip7702(tx) => result is None,
            Transaction::MlDsa(tx) => result is None,
        },
{
}

/// The tip cap, or the gas price where that is fixed.
pub proof fn law_priority_fee_or_price(tx: Transaction, result: u128)
    requires
        call_ensures(Transaction::priority_fee_or_price, (&tx,), result),
    ensures
        match tx {
            Transaction::Legacy(tx) => result == tx.gas_price,
            Transaction::Eip2930(tx) => result == tx.gas_price,
            Transaction::Eip1559(tx) => result == tx.max_priority_fee_per_gas,
            Transaction::Eip4844(tx) => result == tx.max_priority_fee_per_gas,
            Transaction::Eip7702(tx) => result == tx.max_priority_fee_per_gas,
            Transaction::MlDsa(tx) => result == tx.max_priority_fee_per_gas,
        },
{
}

/// Fees are dynamic exactly where the gas price is not fixed.
pub proof fn law_is_dynamic_fee(tx: Transaction, result: bool)
    requires
        call_ensures(Transaction::is_dynamic_fee, (&tx,), result),
    ensures
        match tx {
            Transaction::Legacy(tx) => !result,
            Transaction::Eip2930(tx) => !result,
            Transaction::Eip1559(tx) => result,
            Transaction::Eip4844(tx) => result,
            Transaction::Eip7702(tx) => result,
            Transaction::MlDsa(tx) => result,
        },
{
}

/// The destination is the one in the transaction; blob and set-code transactions always call.
pub proof fn law_kind(tx: Transaction, result: TxKind)
    requires
        call_ensures(Transaction::kind, (&tx,), result),
    ensures
        match tx {
            Transaction::Legacy(tx) => result == tx.to,
            Transaction::Eip2930(tx) => result == tx.to,
            Transaction::Eip1559(tx) => result == tx.to,
            Transaction::Eip4844(tx) => result == TxKind::Call(tx.to),
            Transaction::Eip7702(tx) => result == TxKind::Call(tx.to),
            Transaction::MlDsa(tx) => result == tx.to,
        },
{
}

/// A transaction creates a contract exactly where its destination says so.
pub proof fn law_is_create(tx: Transaction, result: bool)
    requires
        call_ensures(Transaction::is_create, (&tx,), result),
    ensures
        match tx {
            Transaction::Legacy(tx) => result == (tx.to is Create),
            Transaction::Eip2930(tx) => result == (tx.to is Create),
            Transaction::Eip1559(tx) => result == (tx.to is Create),
            Transaction::Eip4844(tx) => !result,
            Transaction::Eip7702(tx) => !result,
            Transaction::MlDsa(tx) => result == (tx.to is Create),
        },
{
}

/// The value is the one in the transaction.
pub proof fn law_value(tx: Transaction, result: U256)
    requires
        call_ensures(Transaction::value, (&tx,), result),
    ensures
        match tx {
            Transaction::Legacy(tx) => result == tx.value,
            Transaction::Eip2930(tx) => result == tx.value,
            Transaction::Eip1559(tx) => result == tx.value,
            Transaction::Eip4844(tx) => result == tx.value,
            Transaction::Eip7702(tx) => result == tx.value,
            Transaction::MlDsa(tx) => result == tx.value,
        },
{
}

/// The input is the one in the transaction.
pub proof fn law_input(tx: Transaction, result: &Bytes)
    requires
        call_ensures(Transaction::input, (&tx,), result),
    ensures
        match tx {
            Transaction::Legacy(tx) => result@ == tx.input@,
            Transaction::Eip2930(tx) => result@ == tx.input@,
            Transaction::Eip1559(tx) => result@ == tx.input@,
            Transaction::Eip4844(tx) => result@ == tx.input@,
            Transaction::Eip7702(tx) => result@ == tx.input@,
            Transaction::MlDsa(tx) => result@ == tx.input@,
        },
{
}

/// The access list is the one in the transaction; a legacy transaction has none.
pub proof fn law_access_list(tx: Transaction, result: Option<&AccessList>)
    requires
        call_ensures(Transaction::access_list, (&tx,), result),
    ensures
        match tx {
            Transaction::Legacy(tx) => result is None,
            Transaction::Eip2930(tx) => result is Some && result->Some_0@ == tx.access_list@,
            Transaction::Eip1559(tx) => result is Some && result->Some_0@ == tx.access_list@,
            Transaction::Eip4844(tx) => result is Some && result->Some_0@ == tx.access_list@,
            Transaction::Eip7702(tx) => result is Some && result->Some_0@ == tx.access_list@,
            Transaction::MlDsa(tx) => result is Some && result->Some_0@ == tx.access_list@,
        },
{
}

/// Only a blob transaction has blob hashes.
pub proof fn law_blob_versioned_hashes(tx: Transaction, result: Option<&[B256]>)
    requires
        call_ensures(Transaction::blob_versioned_hashes, (&tx,), result),
    ensures
        match tx {
            Transaction::Legacy(tx) => result is None,
            Transaction::Eip2930(tx) => result is None,
            Transaction::Eip1559(tx) => result is None,
            Transaction::Eip4844(tx) => result is Some && result->Some_0@
                == tx.blob_versioned_hashes@,
            Transaction::Eip7702(tx) => result is None,
            Transaction::MlDsa(tx) => result is None,
        },
{
}

/// Only a set-code transaction has authorizations.
pub proof fn law_authorization_list(tx: Transaction, result: Option<&[SignedAuthorization]>)
    requires
        call_ensures(Transaction::authorization_list, (&tx,), result),
    ensures
        match tx {
            Transaction::Legacy(tx) => result is None,
            Transaction::Eip2930(tx) => result is None,
            Transaction::Eip1559(tx) => result is None,
            Transaction::Eip4844(tx) => result is None,
            Transaction::Eip7702(tx) => result is Some && result->Some_0@ == tx.authorization_list@,
            Transaction::MlDsa(tx) => result is None,
        },
{
}

/// Every type but ML-DSA is one of Ethereum's own.
pub proof fn law_standard_tx_type(tx: Transaction, result: Option<TxType>)
    requires
        call_ensures(Transaction::standard_tx_type, (&tx,), result),
    ensures
        match tx {
            Transaction::Legacy(_) => result == Some(TxType::Legacy),
            Transaction::Eip2930(_) => result == Some(TxType::Eip2930),
            Transaction::Eip1559(_) => result == Some(TxType::Eip1559),
            Transaction::Eip4844(_) => result == Some(TxType::Eip4844),
            Transaction::Eip7702(_) => result == Some(TxType::Eip7702),
            Transaction::MlDsa(_) => result is None,
        },
{
}

/// Every type but ML-DSA is one of Ethereum's own.
pub proof fn law_ethereum_tx_type(tx: Transaction, result: Option<TxType>)
    requires
        call_ensures(Transaction::ethereum_tx_type, (&tx,), result),
    ensures
        match tx {
            Transaction::Legacy(_) => result == Some(TxType::Legacy),
            Transaction::Eip2930(_) => result == Some(TxType::Eip2930),
            Transaction::Eip1559(_) => result == Some(TxType::Eip1559),
            Transaction::Eip4844(_) => result == Some(TxType::Eip4844),
            Transaction::Eip7702(_) => result == Some(TxType::Eip7702),
            Transaction::MlDsa(_) => result is None,
        },
{
}

/// A signed transaction has the type of the transaction in it.
pub proof fn law_signed_tx_type(
    signed: TransactionSigned,
    tx: Transaction,
    a: DiesisTxType,
    b: DiesisTxType,
)
    requires
        signed@.transaction == tx@,
        call_ensures(TransactionSigned::tx_type, (&signed,), a),
        call_ensures(Transaction::tx_type, (&tx,), b),
    ensures
        a == b,
{
}

/// A signed transaction has the type byte of the transaction in it.
pub proof fn law_signed_ty(
    signed: TransactionSigned,
    tx: Transaction,
    a: u8,
    b: u8,
)
    requires
        signed@.transaction == tx@,
        call_ensures(TransactionSigned::ty, (&signed,), a),
        call_ensures(Transaction::ty, (&tx,), b),
    ensures
        a == b,
{
}

/// A signed transaction has the chain of the transaction in it.
pub proof fn law_signed_chain_id(
    signed: TransactionSigned,
    tx: Transaction,
    a: Option<ChainId>,
    b: Option<ChainId>,
)
    requires
        signed@.transaction == tx@,
        call_ensures(TransactionSigned::chain_id, (&signed,), a),
        call_ensures(Transaction::chain_id, (&tx,), b),
    ensures
        a == b,
{
}

/// A signed transaction has the nonce of the transaction in it.
pub proof fn law_signed_nonce(
    signed: TransactionSigned,
    tx: Transaction,
    a: u64,
    b: u64,
)
    requires
        signed@.transaction == tx@,
        call_ensures(TransactionSigned::nonce, (&signed,), a),
        call_ensures(Transaction::nonce, (&tx,), b),
    ensures
        a == b,
{
}

/// A signed transaction has the gas limit of the transaction in it.
pub proof fn law_signed_gas_limit(
    signed: TransactionSigned,
    tx: Transaction,
    a: u64,
    b: u64,
)
    requires
        signed@.transaction == tx@,
        call_ensures(TransactionSigned::gas_limit, (&signed,), a),
        call_ensures(Transaction::gas_limit, (&tx,), b),
    ensures
        a == b,
{
}

/// A signed transaction has the fixed gas price of the transaction in it.
pub proof fn law_signed_gas_price(
    signed: TransactionSigned,
    tx: Transaction,
    a: Option<u128>,
    b: Option<u128>,
)
    requires
        signed@.transaction == tx@,
        call_ensures(TransactionSigned::gas_price, (&signed,), a),
        call_ensures(Transaction::gas_price, (&tx,), b),
    ensures
        a == b,
{
}

/// A signed transaction has the fee cap of the transaction in it.
pub proof fn law_signed_max_fee_per_gas(
    signed: TransactionSigned,
    tx: Transaction,
    a: u128,
    b: u128,
)
    requires
        signed@.transaction == tx@,
        call_ensures(TransactionSigned::max_fee_per_gas, (&signed,), a),
        call_ensures(Transaction::max_fee_per_gas, (&tx,), b),
    ensures
        a == b,
{
}

/// A signed transaction has the tip cap of the transaction in it.
pub proof fn law_signed_max_priority_fee_per_gas(
    signed: TransactionSigned,
    tx: Transaction,
    a: Option<u128>,
    b: Option<u128>,
)
    requires
        signed@.transaction == tx@,
        call_ensures(TransactionSigned::max_priority_fee_per_gas, (&signed,), a),
        call_ensures(Transaction::max_priority_fee_per_gas, (&tx,), b),
    ensures
        a == b,
{
}

/// A signed transaction has the blob fee cap of the transaction in it.
pub proof fn law_signed_max_fee_per_blob_gas(
    signed: TransactionSigned,
    tx: Transaction,
    a: Option<u128>,
    b: Option<u128>,
)
    requires
        signed@.transaction == tx@,
        call_ensures(TransactionSigned::max_fee_per_blob_gas, (&signed,), a),
        call_ensures(Transaction::max_fee_per_blob_gas, (&tx,), b),
    ensures
        a == b,
{
}

/// A signed transaction has the tip cap or fixed gas price of the transaction in it.
pub proof fn law_signed_priority_fee_or_price(
    signed: TransactionSigned,
    tx: Transaction,
    a: u128,
    b: u128,
)
    requires
        signed@.transaction == tx@,
        call_ensures(TransactionSigned::priority_fee_or_price, (&signed,), a),
        call_ensures(Transaction::priority_fee_or_price, (&tx,), b),
    ensures
        a == b,
{
}

/// The fees of a signed transaction are dynamic exactly where those of the transaction in it are.
pub proof fn law_signed_is_dynamic_fee(
    signed: TransactionSigned,
    tx: Transaction,
    a: bool,
    b: bool,
)
    requires
        signed@.transaction == tx@,
        call_ensures(TransactionSigned::is_dynamic_fee, (&signed,), a),
        call_ensures(Transaction::is_dynamic_fee, (&tx,), b),
    ensures
        a == b,
{
}

/// A signed transaction has the destination of the transaction in it.
pub proof fn law_signed_kind(
    signed: TransactionSigned,
    tx: Transaction,
    a: TxKind,
    b: TxKind,
)
    requires
        signed@.transaction == tx@,
        call_ensures(TransactionSigned::kind, (&signed,), a),
        call_ensures(Transaction::kind, (&tx,), b),
    ensures
        a == b,
{
}

/// A signed transaction creates a contract exactly where the transaction in it does.
pub proof fn law_signed_is_create(
    signed: TransactionSigned,
    tx: Transaction,
    a: bool,
    b: bool,
)
    requires
        signed@.transaction == tx@,
        call_ensures(TransactionSigned::is_create, (&signed,), a),
        call_ensures(Transaction::is_create, (&tx,), b),
    ensures
        a == b,
{
}

/// A signed transaction has the value of the transaction in it.
pub proof fn law_signed_value(
    signed: TransactionSigned,
    tx: Transaction,
    a: U256,
    b: U256,
)
    requires
        signed@.transaction == tx@,
        call_ensures(TransactionSigned::value, (&signed,), a),
        call_ensures(Transaction::value, (&tx,), b),
    ensures
        a == b,
{
}

/// A signed transaction has the input of the transaction in it.
pub proof fn law_signed_input(
    signed: TransactionSigned,
    tx: Transaction,
    a: &Bytes,
    b: &Bytes,
)
    requires
        signed@.transaction == tx@,
        call_ensures(TransactionSigned::input, (&signed,), a),
        call_ensures(Transaction::input, (&tx,), b),
    ensures
        a@ == b@,
{
}

/// A signed transaction has the access list of the transaction in it.
pub proof fn law_signed_access_list(
    signed: TransactionSigned,
    tx: Transaction,
    a: Option<&AccessList>,
    b: Option<&AccessList>,
)
    requires
        signed@.transaction == tx@,
        call_ensures(TransactionSigned::access_list, (&signed,), a),
        call_ensures(Transaction::access_list, (&tx,), b),
    ensures
        a is Some <==> b is Some,
        a is Some ==> a->Some_0@ == b->Some_0@,
{
}

/// A signed transaction has the blob hashes of the transaction in it.
pub proof fn law_signed_blob_versioned_hashes(
    signed: TransactionSigned,
    tx: Transaction,
    a: Option<&[B256]>,
    b: Option<&[B256]>,
)
    requires
        signed@.transaction == tx@,
        call_ensures(TransactionSigned::blob_versioned_hashes, (&signed,), a),
        call_ensures(Transaction::blob_versioned_hashes, (&tx,), b),
    ensures
        a is Some <==> b is Some,
        a is Some ==> a->Some_0@ == b->Some_0@,
{
}

/// A signed transaction has the authorizations of the transaction in it.
pub proof fn law_signed_authorization_list(
    signed: TransactionSigned,
    tx: Transaction,
    a: Option<&[SignedAuthorization]>,
    b: Option<&[SignedAuthorization]>,
)
    requires
        signed@.transaction == tx@,
        call_ensures(TransactionSigned::authorization_list, (&signed,), a),
        call_ensures(Transaction::authorization_list, (&tx,), b),
    ensures
        a is Some <==> b is Some,
        a is Some ==> a->Some_0@ == b->Some_0@,
{
}

/// The type byte of an ML-DSA transaction is `0x70`.
pub proof fn law_ml_dsa_ty(tx: TxMlDsa, result: u8)
    requires
        call_ensures(TxMlDsa::ty, (&tx,), result),
    ensures
        result == 0x70,
{
}

/// The chain of an ML-DSA transaction is the one in its fields.
pub proof fn law_ml_dsa_chain_id(tx: TxMlDsa, result: Option<ChainId>)
    requires
        call_ensures(TxMlDsa::chain_id, (&tx,), result),
    ensures
        result == Some(tx.chain_id),
{
}

/// The nonce of an ML-DSA transaction is the one in its fields.
pub proof fn law_ml_dsa_nonce(tx: TxMlDsa, result: u64)
    requires
        call_ensures(TxMlDsa::nonce, (&tx,), result),
    ensures
        result == tx.nonce,
{
}

/// The gas limit of an ML-DSA transaction is the one in its fields.
pub proof fn law_ml_dsa_gas_limit(tx: TxMlDsa, result: u64)
    requires
        call_ensures(TxMlDsa::gas_limit, (&tx,), result),
    ensures
        result == tx.gas_limit,
{
}

/// An ML-DSA transaction has no fixed gas price.
pub proof fn law_ml_dsa_gas_price(tx: TxMlDsa, result: Option<u128>)
    requires
        call_ensures(TxMlDsa::gas_price, (&tx,), result),
    ensures
        result is None,
{
}

/// The fee cap of an ML-DSA transaction is the one in its fields.
pub proof fn law_ml_dsa_max_fee_per_gas(tx: TxMlDsa, result: u128)
    requires
        call_ensures(TxMlDsa::max_fee_per_gas, (&tx,), result),
    ensures
        result == tx.max_fee_per_gas,
{
}

/// The tip cap of an ML-DSA transaction is the one in its fields.
pub proof fn law_ml_dsa_max_priority_fee_per_gas(tx: TxMlDsa, result: Option<u128>)
    requires
        call_ensures(TxMlDsa::max_priority_fee_per_gas, (&tx,), result),
    ensures
        result == Some(tx.max_priority_fee_per_gas),
{
}

/// An ML-DSA transaction has no blob fee cap.
pub proof fn law_ml_dsa_max_fee_per_blob_gas(tx: TxMlDsa, result: Option<u128>)
    requires
        call_ensures(TxMlDsa::max_fee_per_blob_gas, (&tx,), result),
    ensures
        result is None,
{
}

/// Where a tip cap or a fixed price is asked for, an ML-DSA transaction tells its tip cap.
pub proof fn law_ml_dsa_priority_fee_or_price(tx: TxMlDsa, result: u128)
    requires
        call_ensures(TxMlDsa::priority_fee_or_price, (&tx,), result),
    ensures
        result == tx.max_priority_fee_per_gas,
{
}

/// The fees of an ML-DSA transaction are dynamic.
pub proof fn law_ml_dsa_is_dynamic_fee(tx: TxMlDsa, result: bool)
    requires
        call_ensures(TxMlDsa::is_dynamic_fee, (&tx,), result),
    ensures
        result,
{
}

/// The destination of an ML-DSA transaction is the one in its fields.
pub proof fn law_ml_dsa_kind(tx: TxMlDsa, result: TxKind)
    requires
        call_ensures(TxMlDsa::kind, (&tx,), result),
    ensures
        result == tx.to,
{
}

/// An ML-DSA transaction creates a contract exactly where its destination says so.
pub proof fn law_ml_dsa_is_create(tx: TxMlDsa, result: bool)
    requires
        call_ensures(TxMlDsa::is_create, (&tx,), result),
    ensures
        result == (tx.to is Create),
{
}

/// The value of an ML-DSA transaction is the one in its fields.
pub proof fn law_ml_dsa_value(tx: TxMlDsa, result: U256)
    requires
        call_ensures(TxMlDsa::value, (&tx,), result),
    ensures
        result == tx.value,
{
}

/// The input of an ML-DSA transaction is the one in its fields.
pub proof fn law_ml_dsa_input(tx: TxMlDsa, result: &Bytes)
    requires
        call_ensures(TxMlDsa::input, (&tx,), result),
    ensures
        result@ == tx.input@,
{
}

/// The access list of an ML-DSA transaction is the one in its fields.
pub proof fn law_ml_dsa_access_list(tx: TxMlDsa, result: Option<&AccessList>)
    requires
        call_ensures(TxMlDsa::access_list, (&tx,), result),
    ensures
        result is Some && result->Some_0@ == tx.access_list@,
{
}

/// An ML-DSA transaction has no blob hashes.
pub proof fn law_ml_dsa_blob_versioned_hashes(tx: TxMlDsa, result: Option<&[B256]>)
    requires
        call_ensures(TxMlDsa::blob_versioned_hashes, (&tx,), result),
    ensures
        result is None,
{
}

/// An ML-DSA transaction has no authorizations.
pub proof fn law_ml_dsa_authorization_list(tx: TxMlDsa, result: Option<&[SignedAuthorization]>)
    requires
        call_ensures(TxMlDsa::authorization_list, (&tx,), result),
    ensures
        result is None,
{
}

/// Setting the chain changes the chain and nothing else.
pub proof fn law_set_chain_id(tx: &mut Transaction, chain_id: ChainId)
    requires
        call_ensures(Transaction::set_chain_id, (tx, chain_id), ()),
    ensures
        match (*old(tx), *final(tx)) {
            (Transaction::Legacy(a), Transaction::Legacy(b)) => {
                &&& b.chain_id == Some(chain_id)
                &&& a.nonce == b.nonce
                &&& a.gas_price == b.gas_price
                &&& a.gas_limit == b.gas_limit
                &&& a.to == b.to
                &&& a.value == b.value
                &&& a.input@ == b.input@
            },
            (Transaction::Eip2930(a), Transaction::Eip2930(b)) => {
                &&& b.chain_id == chain_id
                &&& a.nonce == b.nonce
                &&& a.gas_price == b.gas_price
                &&& a.gas_limit == b.gas_limit
                &&& a.to == b.to
                &&& a.value == b.value
                &&& a.input@ == b.input@
                &&& a.access_list@ == b.access_list@
            },
            (Transaction::Eip1559(a), Transaction::Eip1559(b)) => {
                &&& b.chain_id == chain_id
                &&& a.nonce == b.nonce
                &&& a.max_fee_per_gas == b.max_fee_per_gas
                &&& a.max_priority_fee_per_gas == b.max_priority_fee_per_gas
                &&& a.gas_limit == b.gas_limit
                &&& a.to == b.to
                &&& a.value == b.value
                &&& a.input@ == b.input@
                &&& a.access_list@ == b.access_list@
            },
            (Transaction::Eip4844(a), Transaction::Eip4844(b)) => {
                &&& b.chain_id == chain_id
                &&& a.nonce == b.nonce
                &&& a.max_fee_per_gas == b.max_fee_per_gas
                &&& a.max_priority_fee_per_gas == b.max_priority_fee_per_gas
                &&& a.max_fee_per_blob_gas == b.max_fee_per_blob_gas
                &&& a.gas_limit == b.gas_limit
                &&& a.to == b.to
                &&& a.value == b.value
                &&& a.input@ == b.input@
                &&& a.access_list@ == b.access_list@
                &&& a.blob_versioned_hashes@ == b.blob_versioned_hashes@
            },
            (Transaction::Eip7702(a), Transaction::Eip7702(b)) => {
                &&& b.chain_id == chain_id
                &&& a.nonce == b.nonce
                &&& a.max_fee_per_gas == b.max_fee_per_gas
                &&& a.max_priority_fee_per_gas == b.max_priority_fee_per_gas
                &&& a.gas_limit == b.gas_limit
                &&& a.to == b.to
                &&& a.value == b.value
                &&& a.input@ == b.input@
                &&& a.access_list@ == b.access_list@
                &&& a.authorization_list@ == b.authorization_list@
            },
            (Transaction::MlDsa(a), Transaction::MlDsa(b)) => only_chain_differs(a, b, chain_id),
            _ => false,
        },
{
}

/// Setting the chain of an ML-DSA transaction changes the chain and nothing else.
pub proof fn law_ml_dsa_set_chain_id(tx: &mut TxMlDsa, chain_id: ChainId)
    requires
        call_ensures(TxMlDsa::set_chain_id, (tx, chain_id), ()),
    ensures
        only_chain_differs(*old(tx), *final(tx), chain_id),
{
}

/// Whether `b` is `a` for the given chain.
pub open spec fn only_chain_differs(a: TxMlDsa, b: TxMlDsa, chain_id: ChainId) -> bool {
    &&& b.chain_id == chain_id
    &&& a.nonce == b.nonce
    &&& a.max_priority_fee_per_gas == b.max_priority_fee_per_gas
    &&& a.max_fee_per_gas == b.max_fee_per_gas
    &&& a.gas_limit == b.gas_limit
    &&& a.to == b.to
    &&& a.value == b.value
    &&& a.input@ == b.input@
    &&& a.access_list@ == b.access_list@
    &&& a.sender == b.sender
    &&& a.ml_dsa_level == b.ml_dsa_level
    &&& a.pubkey@ == b.pubkey@
    &&& a.ml_dsa_signature@ == b.ml_dsa_signature@
}

/// The input is handed out to be changed, and nothing else changes with it.
pub proof fn law_input_mut(tx: &mut Transaction, input: &mut Bytes)
    requires
        call_ensures(Transaction::input_mut, (tx,), input),
    ensures
        match (*old(tx), *final(tx)) {
            (Transaction::Legacy(a), Transaction::Legacy(b)) => old(input)@ == a.input@
                && final(input)@ == b.input@ && a.nonce == b.nonce && a.to == b.to && a.value
                == b.value && a.gas_price == b.gas_price && a.gas_limit == b.gas_limit
                && a.chain_id == b.chain_id,
            (Transaction::Eip2930(a), Transaction::Eip2930(b)) => old(input)@ == a.input@
                && final(input)@ == b.input@ && a.nonce == b.nonce && a.to == b.to && a.value
                == b.value,
            (Transaction::Eip1559(a), Transaction::Eip1559(b)) => old(input)@ == a.input@
                && final(input)@ == b.input@ && a.nonce == b.nonce && a.to == b.to && a.value
                == b.value,
            (Transaction::Eip4844(a), Transaction::Eip4844(b)) => old(input)@ == a.input@
                && final(input)@ == b.input@ && a.nonce == b.nonce && a.to == b.to && a.value
                == b.value,
            (Transaction::Eip7702(a), Transaction::Eip7702(b)) => old(input)@ == a.input@
                && final(input)@ == b.input@ && a.nonce == b.nonce && a.to == b.to && a.value
                == b.value,
            (Transaction::MlDsa(a), Transaction::MlDsa(b)) => old(input)@ == a.input@
                && final(input)@ == b.input@ && a.nonce == b.nonce && a.to == b.to && a.value
                == b.value && a.sender == b.sender,
            _ => false,
        },
{
}

} // verus!
