//! Ethereum's envelopes of signed transactions.

use vstd::prelude::*;

use crate::envelope::{
    EthereumTxEnvelope, TxEip4844Variant, TxEip4844WithSidecar, ValueError, MISSING_SIDECAR,
    ML_DSA_NOT_AN_ETHEREUM_ENVELOPE, ML_DSA_NOT_POOLABLE, NOT_A_BLOB_TRANSACTION,
};
use crate::primitives::{Signature, B256};
use crate::signed::Signed;
use crate::transaction::{Transaction, TxFields};
use crate::transaction_signed::{SignedTx, TransactionSigned};
use crate::tx_ecdsa::{TxEip1559, TxEip2930, TxEip4844, TxEip7702, TxLegacy};
use crate::tx_ml_dsa::TxMlDsa;

verus! {

/// Whether an envelope with the given content holds the signed transaction `signed`, whose hash is
/// `hash`: the same transaction, signature and hash.
pub open spec fn holds(
    signed: SignedTx,
    hash: B256,
    tx: TxFields,
    signature: Signature,
    held: B256,
) -> bool {
    signed.transaction == tx && signed.signature == signature && hash == held
}

/// Whether a conversion was refused in the given words, and the signed transaction handed back with
/// its hash.
pub open spec fn refused_with(
    error: ValueError<TransactionSigned>,
    signed: SignedTx,
    hash: B256,
    words: Seq<char>,
) -> bool {
    &&& error.spec_msg()@ == words
    &&& error.spec_value()@.transaction == signed.transaction
    &&& error.spec_value()@.signature == signed.signature
    &&& error.spec_value()@.hash == Some(hash)
}

/// The reasons in words.
pub proof fn law_reasons()
    ensures
        ML_DSA_NOT_AN_ETHEREUM_ENVELOPE@
            == "ML-DSA transactions are not representable as Ethereum transaction envelopes"@,
        ML_DSA_NOT_POOLABLE@
            == "ML-DSA transactions are not representable as pooled Ethereum transactions"@,
        MISSING_SIDECAR@ == "EIP-4844 transaction is missing its blob sidecar"@,
        NOT_A_BLOB_TRANSACTION@ == "Expected 4844 transaction"@,
{
}

/// What an error is made of is what it tells.
pub proof fn law_value_error<T>(
    value: T,
    msg: &'static str,
    error: ValueError<T>,
    by_ref: &T,
    told: &'static str,
    back: T,
)
    requires
        call_ensures(ValueError::<T>::new_static, (value, msg), error),
        call_ensures(ValueError::<T>::value, (&error,), by_ref),
        call_ensures(ValueError::<T>::message, (&error,), told),
        call_ensures(ValueError::<T>::into_value, (error,), back),
    ensures
        *by_ref == value,
        told == msg,
        back == value,
{
}

/// Every transaction but an ML-DSA transaction has an envelope, which holds it; an ML-DSA
/// transaction is handed back.
pub proof fn law_to_envelope(
    signed: TransactionSigned,
    hash: B256,
    result: Result<EthereumTxEnvelope<TxEip4844>, ValueError<TransactionSigned>>,
)
    requires
        call_ensures(TransactionSigned::hash, (&signed,), hash),
        call_ensures(
            <EthereumTxEnvelope<TxEip4844> as TryFrom<TransactionSigned>>::try_from,
            (signed,),
            result,
        ),
    ensures
        result is Err <==> signed@.transaction is MlDsa,
        match result {
            Ok(EthereumTxEnvelope::Legacy(inner)) => holds(
                signed@,
                hash,
                TxFields::Legacy(inner.tx@),
                inner.signature,
                inner.hash,
            ),
            Ok(EthereumTxEnvelope::Eip2930(inner)) => holds(
                signed@,
                hash,
                TxFields::Eip2930(inner.tx@),
                inner.signature,
                inner.hash,
            ),
            Ok(EthereumTxEnvelope::Eip1559(inner)) => holds(
                signed@,
                hash,
                TxFields::Eip1559(inner.tx@),
                inner.signature,
                inner.hash,
            ),
            Ok(EthereumTxEnvelope::Eip4844(inner)) => holds(
                signed@,
                hash,
                TxFields::Eip4844(inner.tx@),
                inner.signature,
                inner.hash,
            ),
            Ok(EthereumTxEnvelope::Eip7702(inner)) => holds(
                signed@,
                hash,
                TxFields::Eip7702(inner.tx@),
                inner.signature,
                inner.hash,
            ),
            Err(error) => refused_with(
                error,
                signed@,
                hash,
                "ML-DSA transactions are not representable as Ethereum transaction envelopes"@,
            ),
        },
{
    law_reasons();
}

/// The same where the envelope has room for the sidecar of a blob transaction: it is left out.
pub proof fn law_to_envelope_with_room<T>(
    signed: TransactionSigned,
    hash: B256,
    result: Result<
        EthereumTxEnvelope<TxEip4844Variant<T>>,
        ValueError<TransactionSigned>,
    >,
)
    requires
        call_ensures(TransactionSigned::hash, (&signed,), hash),
        call_ensures(
            <EthereumTxEnvelope<TxEip4844Variant<T>> as TryFrom<TransactionSigned>>::try_from,
            (signed,),
            result,
        ),
    ensures
        result is Err <==> signed@.transaction is MlDsa,
        match result {
            Ok(EthereumTxEnvelope::Legacy(inner)) => holds(
                signed@,
                hash,
                TxFields::Legacy(inner.tx@),
                inner.signature,
                inner.hash,
            ),
            Ok(EthereumTxEnvelope::Eip2930(inner)) => holds(
                signed@,
                hash,
                TxFields::Eip2930(inner.tx@),
                inner.signature,
                inner.hash,
            ),
            Ok(EthereumTxEnvelope::Eip1559(inner)) => holds(
                signed@,
                hash,
                TxFields::Eip1559(inner.tx@),
                inner.signature,
                inner.hash,
            ),
            Ok(EthereumTxEnvelope::Eip4844(inner)) => {
                &&& inner.tx matches TxEip4844Variant::TxEip4844(bare)
                &&& holds(
                    signed@,
                    hash,
                    TxFields::Eip4844(bare@),
                    inner.signature,
                    inner.hash,
                )
            },
            Ok(EthereumTxEnvelope::Eip7702(inner)) => holds(
                signed@,
                hash,
                TxFields::Eip7702(inner.tx@),
                inner.signature,
                inner.hash,
            ),
            Err(error) => refused_with(
                error,
                signed@,
                hash,
                "ML-DSA transactions are not representable as Ethereum transaction envelopes"@,
            ),
        },
{
    law_reasons();
}

/// Neither an ML-DSA transaction nor a blob transaction without its sidecar can be pooled; every
/// other transaction can.
pub proof fn law_to_pool<T>(
    signed: TransactionSigned,
    hash: B256,
    result: Result<
        EthereumTxEnvelope<TxEip4844WithSidecar<T>>,
        ValueError<TransactionSigned>,
    >,
)
    requires
        call_ensures(TransactionSigned::hash, (&signed,), hash),
        call_ensures(
            <EthereumTxEnvelope<TxEip4844WithSidecar<T>> as TryFrom<TransactionSigned>>::try_from,
            (signed,),
            result,
        ),
    ensures
        result is Err <==> signed@.transaction is MlDsa || signed@.transaction is Eip4844,
        match result {
            Ok(EthereumTxEnvelope::Legacy(inner)) => holds(
                signed@,
                hash,
                TxFields::Legacy(inner.tx@),
                inner.signature,
                inner.hash,
            ),
            Ok(EthereumTxEnvelope::Eip2930(inner)) => holds(
                signed@,
                hash,
                TxFields::Eip2930(inner.tx@),
                inner.signature,
                inner.hash,
            ),
            Ok(EthereumTxEnvelope::Eip1559(inner)) => holds(
                signed@,
                hash,
                TxFields::Eip1559(inner.tx@),
                inner.signature,
                inner.hash,
            ),
            Ok(EthereumTxEnvelope::Eip4844(_)) => false,
            Ok(EthereumTxEnvelope::Eip7702(inner)) => holds(
                signed@,
                hash,
                TxFields::Eip7702(inner.tx@),
                inner.signature,
                inner.hash,
            ),
            Err(error) => refused_with(
                error,
                signed@,
                hash,
                if signed@.transaction is MlDsa {
                    "ML-DSA transactions are not representable as pooled Ethereum transactions"@
                } else {
                    "EIP-4844 transaction is missing its blob sidecar"@
                },
            ),
        },
{
    law_reasons();
}

/// A blob transaction is pooled with the sidecar that is given; no other transaction takes one.
pub proof fn law_to_pool_with_sidecar<T>(
    signed: TransactionSigned,
    hash: B256,
    sidecar: T,
    result: Result<
        EthereumTxEnvelope<TxEip4844WithSidecar<T>>,
        ValueError<TransactionSigned>,
    >,
)
    requires
        call_ensures(TransactionSigned::hash, (&signed,), hash),
        call_ensures(TransactionSigned::try_into_pooled_eip4844::<T>, (signed, sidecar), result),
    ensures
        result is Ok <==> signed@.transaction is Eip4844,
        match result {
            Ok(EthereumTxEnvelope::Eip4844(inner)) => inner.tx.sidecar == sidecar && holds(
                signed@,
                hash,
                TxFields::Eip4844(inner.tx.tx@),
                inner.signature,
                inner.hash,
            ),
            Ok(_) => false,
            Err(error) => refused_with(error, signed@, hash, "Expected 4844 transaction"@),
        },
{
    law_reasons();
}

/// What comes out of an envelope is the transaction in it, with its signature and hash; a sidecar
/// is dropped.
pub proof fn law_from_envelope_plain(
    envelope: EthereumTxEnvelope<TxEip4844>,
    signed: TransactionSigned,
    hash: B256,
)
    requires
        call_ensures(
            <TransactionSigned as From<EthereumTxEnvelope<TxEip4844>>>::from,
            (envelope,),
            signed,
        ),
        call_ensures(TransactionSigned::hash, (&signed,), hash),
    ensures
        match envelope {
            EthereumTxEnvelope::Legacy(inner) => holds(
                signed@,
                hash,
                TxFields::Legacy(inner.tx@),
                inner.signature,
                inner.hash,
            ),
            EthereumTxEnvelope::Eip2930(inner) => holds(
                signed@,
                hash,
                TxFields::Eip2930(inner.tx@),
                inner.signature,
                inner.hash,
            ),
            EthereumTxEnvelope::Eip1559(inner) => holds(
                signed@,
                hash,
                TxFields::Eip1559(inner.tx@),
                inner.signature,
                inner.hash,
            ),
            EthereumTxEnvelope::Eip4844(inner) => holds(
                signed@,
                hash,
                TxFields::Eip4844(inner.tx@),
                inner.signature,
                inner.hash,
            ),
            EthereumTxEnvelope::Eip7702(inner) => holds(
                signed@,
                hash,
                TxFields::Eip7702(inner.tx@),
                inner.signature,
                inner.hash,
            ),
        },
{
}

/// What comes out of an envelope is the transaction in it, with its signature and hash; a sidecar
/// is dropped.
pub proof fn law_from_envelope_with_room<T>(
    envelope: EthereumTxEnvelope<TxEip4844Variant<T>>,
    signed: TransactionSigned,
    hash: B256,
)
    requires
        call_ensures(
            <TransactionSigned as From<EthereumTxEnvelope<TxEip4844Variant<T>>>>::from,
            (envelope,),
            signed,
        ),
        call_ensures(TransactionSigned::hash, (&signed,), hash),
    ensures
        match envelope {
            EthereumTxEnvelope::Legacy(inner) => holds(
                signed@,
                hash,
                TxFields::Legacy(inner.tx@),
                inner.signature,
                inner.hash,
            ),
            EthereumTxEnvelope::Eip2930(inner) => holds(
                signed@,
                hash,
                TxFields::Eip2930(inner.tx@),
                inner.signature,
                inner.hash,
            ),
            EthereumTxEnvelope::Eip1559(inner) => holds(
                signed@,
                hash,
                TxFields::Eip1559(inner.tx@),
                inner.signature,
                inner.hash,
            ),
            EthereumTxEnvelope::Eip4844(inner) => holds(
                signed@,
                hash,
                TxFields::Eip4844((match inner.tx {
                    TxEip4844Variant::TxEip4844(tx) => tx,
                    TxEip4844Variant::TxEip4844WithSidecar(tx) => tx.tx,
                })@),
                inner.signature,
                inner.hash,
            ),
            EthereumTxEnvelope::Eip7702(inner) => holds(
                signed@,
                hash,
                TxFields::Eip7702(inner.tx@),
                inner.signature,
                inner.hash,
            ),
        },
{
}

/// What comes out of an envelope is the transaction in it, with its signature and hash; a sidecar
/// is dropped.
pub proof fn law_from_envelope_with_sidecar<T>(
    envelope: EthereumTxEnvelope<TxEip4844WithSidecar<T>>,
    signed: TransactionSigned,
    hash: B256,
)
    requires
        call_ensures(
            <TransactionSigned as From<EthereumTxEnvelope<TxEip4844WithSidecar<T>>>>::from,
            (envelope,),
            signed,
        ),
        call_ensures(TransactionSigned::hash, (&signed,), hash),
    ensures
        match envelope {
            EthereumTxEnvelope::Legacy(inner) => holds(
                signed@,
                hash,
                TxFields::Legacy(inner.tx@),
                inner.signature,
                inner.hash,
            ),
            EthereumTxEnvelope::Eip2930(inner) => holds(
                signed@,
                hash,
                TxFields::Eip2930(inner.tx@),
                inner.signature,
                inner.hash,
            ),
            EthereumTxEnvelope::Eip1559(inner) => holds(
                signed@,
                hash,
                TxFields::Eip1559(inner.tx@),
                inner.signature,
                inner.hash,
            ),
            EthereumTxEnvelope::Eip4844(inner) => holds(
                signed@,
                hash,
                TxFields::Eip4844(inner.tx.tx@),
                inner.signature,
                inner.hash,
            ),
            EthereumTxEnvelope::Eip7702(inner) => holds(
                signed@,
                hash,
                TxFields::Eip7702(inner.tx@),
                inner.signature,
                inner.hash,
            ),
        },
{
}

/// A transaction with signature and hash becomes a signed transaction with the same.
pub proof fn law_from_signed_legacy(
    from: Signed<TxLegacy>,
    signed: TransactionSigned,
    hash: B256,
)
    requires
        call_ensures(<TransactionSigned as From<Signed<TxLegacy>>>::from, (from,), signed),
        call_ensures(TransactionSigned::hash, (&signed,), hash),
    ensures
        holds(signed@, hash, TxFields::Legacy(from.tx@), from.signature, from.hash),
{
}

/// A transaction of one type stands for itself among all transactions.
pub proof fn law_from_legacy(
    from: TxLegacy,
    tx: Transaction,
)
    requires
        call_ensures(<Transaction as From<TxLegacy>>::from, (from,), tx),
    ensures
        tx == Transaction::Legacy(from),
{
}

/// A transaction with signature and hash becomes a signed transaction with the same.
pub proof fn law_from_signed_eip2930(
    from: Signed<TxEip2930>,
    signed: TransactionSigned,
    hash: B256,
)
    requires
        call_ensures(<TransactionSigned as From<Signed<TxEip2930>>>::from, (from,), signed),
        call_ensures(TransactionSigned::hash, (&signed,), hash),
    ensures
        holds(signed@, hash, TxFields::Eip2930(from.tx@), from.signature, from.hash),
{
}

/// A transaction of one type stands for itself among all transactions.
pub proof fn law_from_eip2930(
    from: TxEip2930,
    tx: Transaction,
)
    requires
        call_ensures(<Transaction as From<TxEip2930>>::from, (from,), tx),
    ensures
        tx == Transaction::Eip2930(from),
{
}

/// A transaction with signature and hash becomes a signed transaction with the same.
pub proof fn law_from_signed_eip1559(
    from: Signed<TxEip1559>,
    signed: TransactionSigned,
    hash: B256,
)
    requires
        call_ensures(<TransactionSigned as From<Signed<TxEip1559>>>::from, (from,), signed),
        call_ensures(TransactionSigned::hash, (&signed,), hash),
    ensures
        holds(signed@, hash, TxFields::Eip1559(from.tx@), from.signature, from.hash),
{
}

/// A transaction of one type stands for itself among all transactions.
pub proof fn law_from_eip1559(
    from: TxEip1559,
    tx: Transaction,
)
    requires
        call_ensures(<Transaction as From<TxEip1559>>::from, (from,), tx),
    ensures
        tx == Transaction::Eip1559(from),
{
}

/// A transaction with signature and hash becomes a signed transaction with the same.
pub proof fn law_from_signed_eip4844(
    from: Signed<TxEip4844>,
    signed: TransactionSigned,
    hash: B256,
)
    requires
        call_ensures(<TransactionSigned as From<Signed<TxEip4844>>>::from, (from,), signed),
        call_ensures(TransactionSigned::hash, (&signed,), hash),
    ensures
        holds(signed@, hash, TxFields::Eip4844(from.tx@), from.signature, from.hash),
{
}

/// A transaction of one type stands for itself among all transactions.
pub proof fn law_from_eip4844(
    from: TxEip4844,
    tx: Transaction,
)
    requires
        call_ensures(<Transaction as From<TxEip4844>>::from, (from,), tx),
    ensures
        tx == Transaction::Eip4844(from),
{
}

/// A transaction with signature and hash becomes a signed transaction with the same.
pub proof fn law_from_signed_eip7702(
    from: Signed<TxEip7702>,
    signed: TransactionSigned,
    hash: B256,
)
    requires
        call_ensures(<TransactionSigned as From<Signed<TxEip7702>>>::from, (from,), signed),
        call_ensures(TransactionSigned::hash, (&signed,), hash),
    ensures
        holds(signed@, hash, TxFields::Eip7702(from.tx@), from.signature, from.hash),
{
}

/// A transaction of one type stands for itself among all transactions.
pub proof fn law_from_eip7702(
    from: TxEip7702,
    tx: Transaction,
)
    requires
        call_ensures(<Transaction as From<TxEip7702>>::from, (from,), tx),
    ensures
        tx == Transaction::Eip7702(from),
{
}

/// A transaction of one type stands for itself among all transactions.
pub proof fn law_from_ml_dsa(
    from: TxMlDsa,
    tx: Transaction,
)
    requires
        call_ensures(<Transaction as From<TxMlDsa>>::from, (from,), tx),
    ensures
        tx == Transaction::MlDsa(from),
{
}

/// A raw transaction with signature and hash becomes a signed transaction as if made of the three.
pub proof fn law_from_signed_transaction(
    from: Signed<Transaction>,
    a: TransactionSigned,
    b: TransactionSigned,
)
    requires
        call_ensures(<TransactionSigned as From<Signed<Transaction>>>::from, (from,), a),
        call_ensures(TransactionSigned::new, (from.tx, from.signature, from.hash), b),
    ensures
        a@ == b@,
{
}

} // verus!
