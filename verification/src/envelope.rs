//! Ethereum transaction envelopes, and the conversions between them and signed transactions.

use vstd::prelude::*;
use vstd::std_specs::convert::{FromSpecImpl, TryFromSpecImpl};

use crate::sidecar::BlobTransactionSidecarVariant;
use crate::signed::Signed;
use crate::transaction::{canonical_signature, Transaction, TxFields};
use crate::transaction_signed::{canonical_hash, SignedTx, TransactionSigned};
use crate::tx_ecdsa::{TxEip1559, TxEip2930, TxEip4844, TxEip7702, TxLegacy};

verus! {

/// A signed transaction of one of Ethereum's own types, with `E` for blob transactions.
#[derive(Debug)]
pub enum EthereumTxEnvelope<E> {
    /// Legacy transaction.
    Legacy(Signed<TxLegacy>),
    /// EIP-2930 transaction.
    Eip2930(Signed<TxEip2930>),
    /// EIP-1559 transaction.
    Eip1559(Signed<TxEip1559>),
    /// EIP-4844 transaction.
    Eip4844(Signed<E>),
    /// EIP-7702 transaction.
    Eip7702(Signed<TxEip7702>),
}

/// A blob transaction with its sidecar.
#[derive(Debug)]
pub struct TxEip4844WithSidecar<T> {
    pub tx: TxEip4844,
    pub sidecar: T,
}

/// A blob transaction with or without its sidecar.
#[derive(Debug)]
pub enum TxEip4844Variant<T> {
    /// Without the sidecar.
    TxEip4844(TxEip4844),
    /// With the sidecar.
    TxEip4844WithSidecar(TxEip4844WithSidecar<T>),
}

/// A transaction as it is gossiped between transaction pools: blob transactions have their
/// sidecar.
pub type PooledTransactionVariant = EthereumTxEnvelope<
    TxEip4844WithSidecar<BlobTransactionSidecarVariant>,
>;

/// A value that could not be converted, with the reason.
#[derive(Debug)]
pub struct ValueError<T> {
    value: T,
    msg: &'static str,
}

/// Reason given where an ML-DSA transaction is converted to an Ethereum-only representation.
pub const ML_DSA_NOT_AN_ETHEREUM_ENVELOPE: &'static str =
    "ML-DSA transactions are not representable as Ethereum transaction envelopes";

/// Reason given where an ML-DSA transaction is offered to the pool.
pub const ML_DSA_NOT_POOLABLE: &'static str =
    "ML-DSA transactions are not representable as pooled Ethereum transactions";

/// Reason given where a blob transaction is offered to the pool without its sidecar.
pub const MISSING_SIDECAR: &'static str = "EIP-4844 transaction is missing its blob sidecar";

/// Reason given where a sidecar is added to another transaction than a blob transaction.
pub const NOT_A_BLOB_TRANSACTION: &'static str = "Expected 4844 transaction";

impl<T> ValueError<T> {
    /// The value that could not be converted.
    pub closed spec fn spec_value(self) -> T {
        self.value
    }

    /// The reason.
    pub closed spec fn spec_msg(self) -> &'static str {
        self.msg
    }

    /// Creates the error.
    pub fn new_static(value: T, msg: &'static str) -> (error: Self)
        ensures
            error.spec_value() == value,
            error.spec_msg() == msg,
    {
        ValueError { value, msg }
    }

    /// Returns the value.
    pub fn into_value(self) -> (value: T)
        ensures
            value == self.spec_value(),
    {
        self.value
    }

    /// Returns a reference to the value.
    pub fn value(&self) -> (value: &T)
        ensures
            *value == self.spec_value(),
    {
        &self.value
    }

    /// The reason, in words.
    pub fn message(&self) -> (msg: &'static str)
        ensures
            msg == self.spec_msg(),
    {
        self.msg
    }
}

/// What a signed transaction is once its hash is computed.
pub open spec fn hashed(tx: SignedTx) -> SignedTx {
    SignedTx { hash: Some(tx.tx_hash()), ..tx }
}

/// Whether `signed` is the transaction `tx` with the signature and hash of `value`.
pub open spec fn signed_of<T: View>(signed: Signed<T>, tx: T::V, value: SignedTx) -> bool {
    &&& signed.tx@ == tx
    &&& signed.signature == value.signature
    &&& signed.hash == value.tx_hash()
}

/// Whether `envelope` is the signed transaction `value`, of one of the types that do not differ
/// between envelopes.
pub open spec fn enveloped<E>(envelope: EthereumTxEnvelope<E>, value: SignedTx) -> bool {
    match envelope {
        EthereumTxEnvelope::Legacy(signed) => value.transaction matches TxFields::Legacy(tx)
            && signed_of(signed, tx, value),
        EthereumTxEnvelope::Eip2930(signed) => value.transaction matches TxFields::Eip2930(tx)
            && signed_of(signed, tx, value),
        EthereumTxEnvelope::Eip1559(signed) => value.transaction matches TxFields::Eip1559(tx)
            && signed_of(signed, tx, value),
        EthereumTxEnvelope::Eip7702(signed) => value.transaction matches TxFields::Eip7702(tx)
            && signed_of(signed, tx, value),
        EthereumTxEnvelope::Eip4844(_) => false,
    }
}

/// Whether `envelope` is the signed transaction `value`, a blob transaction without its sidecar.
pub open spec fn enveloped_bare<T>(
    envelope: EthereumTxEnvelope<TxEip4844Variant<T>>,
    value: SignedTx,
) -> bool {
    match envelope {
        EthereumTxEnvelope::Eip4844(signed) => {
            &&& signed.tx matches TxEip4844Variant::TxEip4844(bare)
            &&& value.transaction matches TxFields::Eip4844(tx)
            &&& bare@ == tx
            &&& signed.signature == value.signature
            &&& signed.hash == value.tx_hash()
        },
        _ => enveloped(envelope, value),
    }
}

/// Whether `envelope` is the signed transaction `value`, a blob transaction by itself.
pub open spec fn enveloped_plain(
    envelope: EthereumTxEnvelope<TxEip4844>,
    value: SignedTx,
) -> bool {
    match envelope {
        EthereumTxEnvelope::Eip4844(signed) => value.transaction matches TxFields::Eip4844(tx)
            && signed_of(signed, tx, value),
        _ => enveloped(envelope, value),
    }
}

/// Whether `envelope` is the signed transaction `value`, a blob transaction with some sidecar.
pub open spec fn enveloped_pooled<T>(
    envelope: EthereumTxEnvelope<TxEip4844WithSidecar<T>>,
    value: SignedTx,
) -> bool {
    match envelope {
        EthereumTxEnvelope::Eip4844(signed) => {
            &&& value.transaction matches TxFields::Eip4844(tx)
            &&& signed.tx.tx@ == tx
            &&& signed.signature == value.signature
            &&& signed.hash == value.tx_hash()
        },
        _ => enveloped(envelope, value),
    }
}

/// Whether a conversion of `value` failed for the reason `msg` and handed the value back, with its
/// hash computed.
pub open spec fn refused<E>(
    result: Result<EthereumTxEnvelope<E>, ValueError<TransactionSigned>>,
    value: SignedTx,
    msg: &'static str,
) -> bool {
    result is Err && result->Err_0.spec_value()@ == hashed(value) && result->Err_0.spec_msg()
        == msg
}

/// An ML-DSA transaction has no Ethereum envelope; every other transaction has.
impl TryFrom<TransactionSigned> for EthereumTxEnvelope<TxEip4844> {
    type Error = ValueError<TransactionSigned>;

    fn try_from(value: TransactionSigned) -> (result: Result<
        Self,
        ValueError<TransactionSigned>,
    >)
        ensures
            match value@.transaction {
                TxFields::MlDsa(_) => refused(result, value@, ML_DSA_NOT_AN_ETHEREUM_ENVELOPE),
                _ => result is Ok && enveloped_plain(result->Ok_0, value@),
            },
    {
        proof {
            use_type_invariant(&value);
        }
        let (tx, signature, hash) = value.into_parts();
        match tx {
            Transaction::Legacy(tx) => Ok(
                EthereumTxEnvelope::Legacy(Signed::new_unchecked(tx, signature, hash)),
            ),
            Transaction::Eip2930(tx) => Ok(
                EthereumTxEnvelope::Eip2930(Signed::new_unchecked(tx, signature, hash)),
            ),
            Transaction::Eip1559(tx) => Ok(
                EthereumTxEnvelope::Eip1559(Signed::new_unchecked(tx, signature, hash)),
            ),
            Transaction::Eip4844(tx) => Ok(
                EthereumTxEnvelope::Eip4844(Signed::new_unchecked(tx, signature, hash)),
            ),
            Transaction::Eip7702(tx) => Ok(
                EthereumTxEnvelope::Eip7702(Signed::new_unchecked(tx, signature, hash)),
            ),
            Transaction::MlDsa(tx) => {
                let value = TransactionSigned::new(Transaction::MlDsa(tx), signature, hash);
                Err(ValueError::new_static(value, ML_DSA_NOT_AN_ETHEREUM_ENVELOPE))
            },
        }
    }
}

impl TryFromSpecImpl<TransactionSigned> for EthereumTxEnvelope<TxEip4844> {
    open spec fn obeys_try_from_spec() -> bool {
        false
    }

    open spec fn try_from_spec(value: TransactionSigned) -> Result<
        Self,
        ValueError<TransactionSigned>,
    > {
        arbitrary()
    }
}

/// An ML-DSA transaction has no Ethereum envelope; every other transaction has, a blob transaction
/// as one without its sidecar.
impl<T> TryFrom<TransactionSigned> for EthereumTxEnvelope<TxEip4844Variant<T>> {
    type Error = ValueError<TransactionSigned>;

    fn try_from(value: TransactionSigned) -> (result: Result<
        Self,
        ValueError<TransactionSigned>,
    >)
        ensures
            match value@.transaction {
                TxFields::MlDsa(_) => refused(result, value@, ML_DSA_NOT_AN_ETHEREUM_ENVELOPE),
                _ => result is Ok && enveloped_bare(result->Ok_0, value@),
            },
    {
        proof {
            use_type_invariant(&value);
        }
        let (tx, signature, hash) = value.into_parts();
        match tx {
            Transaction::Legacy(tx) => Ok(
                EthereumTxEnvelope::Legacy(Signed::new_unchecked(tx, signature, hash)),
            ),
            Transaction::Eip2930(tx) => Ok(
                EthereumTxEnvelope::Eip2930(Signed::new_unchecked(tx, signature, hash)),
            ),
            Transaction::Eip1559(tx) => Ok(
                EthereumTxEnvelope::Eip1559(Signed::new_unchecked(tx, signature, hash)),
            ),
            Transaction::Eip4844(tx) => Ok(
                EthereumTxEnvelope::Eip4844(
                    Signed::new_unchecked(TxEip4844Variant::TxEip4844(tx), signature, hash),
                ),
            ),
            Transaction::Eip7702(tx) => Ok(
                EthereumTxEnvelope::Eip7702(Signed::new_unchecked(tx, signature, hash)),
            ),
            Transaction::MlDsa(tx) => {
                let value = TransactionSigned::new(Transaction::MlDsa(tx), signature, hash);
                Err(ValueError::new_static(value, ML_DSA_NOT_AN_ETHEREUM_ENVELOPE))
            },
        }
    }
}

impl<T> TryFromSpecImpl<TransactionSigned> for EthereumTxEnvelope<TxEip4844Variant<T>> {
    open spec fn obeys_try_from_spec() -> bool {
        false
    }

    open spec fn try_from_spec(value: TransactionSigned) -> Result<
        Self,
        ValueError<TransactionSigned>,
    > {
        arbitrary()
    }
}

/// Neither an ML-DSA transaction nor a blob transaction without its sidecar can be pooled; every
/// other transaction can.
impl<T> TryFrom<TransactionSigned> for EthereumTxEnvelope<TxEip4844WithSidecar<T>> {
    type Error = ValueError<TransactionSigned>;

    fn try_from(value: TransactionSigned) -> (result: Result<
        Self,
        ValueError<TransactionSigned>,
    >)
        ensures
            match value@.transaction {
                TxFields::MlDsa(_) => refused(result, value@, ML_DSA_NOT_POOLABLE),
                TxFields::Eip4844(tx) => refused(result, value@, MISSING_SIDECAR),
                _ => result is Ok && enveloped_pooled(result->Ok_0, value@),
            },
    {
        proof {
            use_type_invariant(&value);
        }
        let (tx, signature, hash) = value.into_parts();
        match tx {
            Transaction::Legacy(tx) => Ok(
                EthereumTxEnvelope::Legacy(Signed::new_unchecked(tx, signature, hash)),
            ),
            Transaction::Eip2930(tx) => Ok(
                EthereumTxEnvelope::Eip2930(Signed::new_unchecked(tx, signature, hash)),
            ),
            Transaction::Eip1559(tx) => Ok(
                EthereumTxEnvelope::Eip1559(Signed::new_unchecked(tx, signature, hash)),
            ),
            Transaction::Eip4844(tx) => {
                let value = TransactionSigned::new(Transaction::Eip4844(tx), signature, hash);
                Err(ValueError::new_static(value, MISSING_SIDECAR))
            },
            Transaction::Eip7702(tx) => Ok(
                EthereumTxEnvelope::Eip7702(Signed::new_unchecked(tx, signature, hash)),
            ),
            Transaction::MlDsa(tx) => {
                let value = TransactionSigned::new(Transaction::MlDsa(tx), signature, hash);
                Err(ValueError::new_static(value, ML_DSA_NOT_POOLABLE))
            },
        }
    }
}

impl<T> TryFromSpecImpl<TransactionSigned> for EthereumTxEnvelope<TxEip4844WithSidecar<T>> {
    open spec fn obeys_try_from_spec() -> bool {
        false
    }

    open spec fn try_from_spec(value: TransactionSigned) -> Result<
        Self,
        ValueError<TransactionSigned>,
    > {
        arbitrary()
    }
}

/// Converting a signed transaction to an envelope and back gives it back, with its hash known: the
/// same transaction, signature and hash.
pub proof fn law_envelope_conversion_roundtrip(
    envelope: EthereumTxEnvelope<TxEip4844>,
    value: SignedTx,
    back: SignedTx,
)
    requires
        enveloped_plain(envelope, value),
        unwrapped(envelope, back),
    ensures
        back == hashed(value),
{
}

/// The same where the envelope has room for the sidecar of a blob transaction.
pub proof fn law_bare_conversion_roundtrip<T>(
    envelope: EthereumTxEnvelope<TxEip4844Variant<T>>,
    value: SignedTx,
    back: SignedTx,
)
    requires
        enveloped_bare(envelope, value),
        unwrapped(envelope, back),
    ensures
        back == hashed(value),
{
}

/// The same where a blob transaction is with its sidecar: the sidecar is dropped.
pub proof fn law_pooled_conversion_roundtrip<T>(
    envelope: EthereumTxEnvelope<TxEip4844WithSidecar<T>>,
    value: SignedTx,
    back: SignedTx,
)
    requires
        enveloped_pooled(envelope, value),
        unwrapped(envelope, back),
    ensures
        back == hashed(value),
{
}

impl TransactionSigned {
    /// Converts this transaction into a pooled EIP-4844 envelope with the given sidecar.
    pub fn try_into_pooled_eip4844<T>(self, sidecar: T) -> (result: Result<
        EthereumTxEnvelope<TxEip4844WithSidecar<T>>,
        ValueError<Self>,
    >)
        ensures
            match self@.transaction {
                TxFields::Eip4844(_) => {
                    &&& result matches Ok(EthereumTxEnvelope::Eip4844(signed))
                    &&& signed.tx.sidecar == sidecar
                    &&& enveloped_pooled(result->Ok_0, self@)
                },
                _ => refused(result, self@, NOT_A_BLOB_TRANSACTION),
            },
    {
        proof {
            use_type_invariant(&self);
        }
        let (tx, signature, hash) = self.into_parts();
        match tx {
            Transaction::Eip4844(tx) => Ok(
                EthereumTxEnvelope::Eip4844(
                    Signed::new_unchecked(TxEip4844WithSidecar { tx, sidecar }, signature, hash),
                ),
            ),
            tx => Err(
                ValueError::new_static(Self::new(tx, signature, hash), NOT_A_BLOB_TRANSACTION),
            ),
        }
    }
}

impl From<Signed<Transaction>> for TransactionSigned {
    fn from(value: Signed<Transaction>) -> (signed: Self)
        ensures
            signed@ == (SignedTx {
                hash: Some(canonical_hash(value.tx@, value.hash)),
                signature: canonical_signature(value.tx@, value.signature),
                transaction: value.tx@,
            }),
    {
        let (tx, signature, hash) = value.into_parts();
        Self::new(tx, signature, hash)
    }
}

impl FromSpecImpl<Signed<Transaction>> for TransactionSigned {
    open spec fn obeys_from_spec() -> bool {
        false
    }

    open spec fn from_spec(value: Signed<Transaction>) -> Self {
        arbitrary()
    }
}

impl From<Signed<TxLegacy>> for TransactionSigned {
    fn from(value: Signed<TxLegacy>) -> (signed: Self)
        ensures
            signed@ == (SignedTx {
                hash: Some(value.hash),
                signature: value.signature,
                transaction: TxFields::Legacy(value.tx@),
            }),
    {
        let (tx, signature, hash) = value.into_parts();
        Self::new(Transaction::Legacy(tx), signature, hash)
    }
}

impl FromSpecImpl<Signed<TxLegacy>> for TransactionSigned {
    open spec fn obeys_from_spec() -> bool {
        false
    }

    open spec fn from_spec(value: Signed<TxLegacy>) -> Self {
        arbitrary()
    }
}

impl From<Signed<TxEip2930>> for TransactionSigned {
    fn from(value: Signed<TxEip2930>) -> (signed: Self)
        ensures
            signed@ == (SignedTx {
                hash: Some(value.hash),
                signature: value.signature,
                transaction: TxFields::Eip2930(value.tx@),
            }),
    {
        let (tx, signature, hash) = value.into_parts();
        Self::new(Transaction::Eip2930(tx), signature, hash)
    }
}

impl FromSpecImpl<Signed<TxEip2930>> for TransactionSigned {
    open spec fn obeys_from_spec() -> bool {
        false
    }

    open spec fn from_spec(value: Signed<TxEip2930>) -> Self {
        arbitrary()
    }
}

impl From<Signed<TxEip1559>> for TransactionSigned {
    fn from(value: Signed<TxEip1559>) -> (signed: Self)
        ensures
            signed@ == (SignedTx {
                hash: Some(value.hash),
                signature: value.signature,
                transaction: TxFields::Eip1559(value.tx@),
            }),
    {
        let (tx, signature, hash) = value.into_parts();
        Self::new(Transaction::Eip1559(tx), signature, hash)
    }
}

impl FromSpecImpl<Signed<TxEip1559>> for TransactionSigned {
    open spec fn obeys_from_spec() -> bool {
        false
    }

    open spec fn from_spec(value: Signed<TxEip1559>) -> Self {
        arbitrary()
    }
}

impl From<Signed<TxEip4844>> for TransactionSigned {
    fn from(value: Signed<TxEip4844>) -> (signed: Self)
        ensures
            signed@ == (SignedTx {
                hash: Some(value.hash),
                signature: value.signature,
                transaction: TxFields::Eip4844(value.tx@),
            }),
    {
        let (tx, signature, hash) = value.into_parts();
        Self::new(Transaction::Eip4844(tx), signature, hash)
    }
}

impl FromSpecImpl<Signed<TxEip4844>> for TransactionSigned {
    open spec fn obeys_from_spec() -> bool {
        false
    }

    open spec fn from_spec(value: Signed<TxEip4844>) -> Self {
        arbitrary()
    }
}

impl From<Signed<TxEip7702>> for TransactionSigned {
    fn from(value: Signed<TxEip7702>) -> (signed: Self)
        ensures
            signed@ == (SignedTx {
                hash: Some(value.hash),
                signature: value.signature,
                transaction: TxFields::Eip7702(value.tx@),
            }),
    {
        let (tx, signature, hash) = value.into_parts();
        Self::new(Transaction::Eip7702(tx), signature, hash)
    }
}

impl FromSpecImpl<Signed<TxEip7702>> for TransactionSigned {
    open spec fn obeys_from_spec() -> bool {
        false
    }

    open spec fn from_spec(value: Signed<TxEip7702>) -> Self {
        arbitrary()
    }
}

impl<T> From<TxEip4844WithSidecar<T>> for TxEip4844 {
    fn from(value: TxEip4844WithSidecar<T>) -> (tx: Self) {
        value.tx
    }
}

impl<T> FromSpecImpl<TxEip4844WithSidecar<T>> for TxEip4844 {
    open spec fn obeys_from_spec() -> bool {
        true
    }

    open spec fn from_spec(value: TxEip4844WithSidecar<T>) -> Self {
        value.tx
    }
}

impl<T> From<TxEip4844Variant<T>> for TxEip4844 {
    fn from(value: TxEip4844Variant<T>) -> (tx: Self) {
        match value {
            TxEip4844Variant::TxEip4844(tx) => tx,
            TxEip4844Variant::TxEip4844WithSidecar(tx) => tx.tx,
        }
    }
}

impl<T> FromSpecImpl<TxEip4844Variant<T>> for TxEip4844 {
    open spec fn obeys_from_spec() -> bool {
        true
    }

    open spec fn from_spec(value: TxEip4844Variant<T>) -> Self {
        match value {
            TxEip4844Variant::TxEip4844(tx) => tx,
            TxEip4844Variant::TxEip4844WithSidecar(tx) => tx.tx,
        }
    }
}

/// `<T as core::convert::From<T>>::from`: the argument, unchanged.
pub assume_specification<Any>[ <Any as std::convert::From<Any>>::from ](value: Any) -> (same: Any)
    ensures
        same == value,
;

/// Whether `signed` is the signed transaction in the envelope, with its hash known. A blob
/// transaction is converted to one without its sidecar.
pub open spec fn unwrapped<E: Into<TxEip4844>>(
    envelope: EthereumTxEnvelope<E>,
    signed: SignedTx,
) -> bool {
    match envelope {
        EthereumTxEnvelope::Eip4844(from) => {
            &&& signed.hash == Some(from.hash)
            &&& signed.signature == from.signature
            &&& exists|tx: TxEip4844|
                #![trigger tx@]
                call_ensures(<E as Into<TxEip4844>>::into, (from.tx,), tx) && signed.transaction
                    == TxFields::Eip4844(tx@)
        },
        _ => enveloped(envelope, signed) && signed.hash is Some,
    }
}

impl<E> From<EthereumTxEnvelope<E>> for TransactionSigned where E: Into<TxEip4844> {
    fn from(value: EthereumTxEnvelope<E>) -> (signed: Self)
        ensures
            unwrapped(value, signed@),
    {
        match value {
            EthereumTxEnvelope::Legacy(signed) => {
                let (tx, signature, hash) = signed.into_parts();
                Self::new(Transaction::Legacy(tx), signature, hash)
            },
            EthereumTxEnvelope::Eip2930(signed) => {
                let (tx, signature, hash) = signed.into_parts();
                Self::new(Transaction::Eip2930(tx), signature, hash)
            },
            EthereumTxEnvelope::Eip1559(signed) => {
                let (tx, signature, hash) = signed.into_parts();
                Self::new(Transaction::Eip1559(tx), signature, hash)
            },
            EthereumTxEnvelope::Eip4844(signed) => {
                let (tx, signature, hash) = signed.into_parts();
                let tx: TxEip4844 = tx.into();
                Self::new(Transaction::Eip4844(tx), signature, hash)
            },
            EthereumTxEnvelope::Eip7702(signed) => {
                let (tx, signature, hash) = signed.into_parts();
                Self::new(Transaction::Eip7702(tx), signature, hash)
            },
        }
    }
}

impl<E> FromSpecImpl<EthereumTxEnvelope<E>> for TransactionSigned where E: Into<TxEip4844> {
    open spec fn obeys_from_spec() -> bool {
        false
    }

    open spec fn from_spec(value: EthereumTxEnvelope<E>) -> Self {
        arbitrary()
    }
}

} // verus!
