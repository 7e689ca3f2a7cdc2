//! Signed transactions.

use vstd::prelude::*;

use crate::crypto::{keccak, keccak256};
use crate::hashing::{feed_signature, feed_transaction};
use crate::primitives::{
    AccessList, Bytes, ChainId, Signature, SignedAuthorization, TxHash, TxKind, B256, U256,
};
use crate::signed::Signed;
use crate::transaction::{
    canonical_signature, dummy_signature, ml_dsa_dummy_signature, Transaction, TxFields,
};
use crate::tx_ecdsa::TxEip4844;
use crate::tx_type::DiesisTxType;

verus! {

/// A transaction with its signature.
///
/// The hash may be given, or left open until it is asked for. An ML-DSA transaction, whose
/// signature is part of its body, always has the dummy outer signature and the hash of its own
/// encoding.
#[derive(Debug, Eq)]
pub struct TransactionSigned {
    /// Transaction hash, where it is already known.
    hash: Option<B256>,
    /// The outer signature.
    signature: Signature,
    /// The transaction itself.
    transaction: Transaction,
}

/// What a [`TransactionSigned`] holds.
#[verifier::ext_equal]
pub struct SignedTx {
    /// The hash, where it is already known.
    pub hash: Option<B256>,
    pub signature: Signature,
    pub transaction: TxFields,
}

impl SignedTx {
    /// What holds of every signed transaction: ML-DSA transactions have the dummy signature and
    /// the hash of their encoding.
    pub open spec fn valid(self) -> bool {
        &&& self.transaction is MlDsa ==> self.signature == dummy_signature()
        &&& self.transaction is MlDsa && self.hash is Some ==> self.hash == Some(
            keccak(self.encoded()),
        )
    }

    /// The EIP-2718 encoding.
    pub open spec fn encoded(self) -> Seq<u8> {
        self.transaction.encoded(self.signature)
    }

    /// The hash: that given, or else that of the encoding.
    pub open spec fn tx_hash(self) -> B256 {
        match self.hash {
            Some(hash) => hash,
            None => keccak(self.encoded()),
        }
    }

    /// What hash tables hash of the signed transaction: the canonical signature, then the
    /// transaction.
    pub open spec fn hash_key(self) -> (Signature, TxFields) {
        (canonical_signature(self.transaction, self.signature), self.transaction)
    }

    /// Whether two signed transactions count as the same: they have the same transaction, the same
    /// canonical signature and the same hash.
    pub open spec fn same_as(self, other: SignedTx) -> bool {
        &&& canonical_signature(self.transaction, self.signature) == canonical_signature(
            other.transaction,
            other.signature,
        )
        &&& self.transaction == other.transaction
        &&& self.tx_hash() == other.tx_hash()
    }
}

impl View for TransactionSigned {
    type V = SignedTx;

    closed spec fn view(&self) -> SignedTx {
        SignedTx {
            hash: self.hash,
            signature: self.signature,
            transaction: self.transaction@,
        }
    }
}

/// The hash that a transaction keeps of the one given: that of its own encoding, for ML-DSA.
pub open spec fn canonical_hash(tx: TxFields, hash: B256) -> B256 {
    match tx {
        TxFields::MlDsa(tx) => keccak(tx.encoded()),
        _ => hash,
    }
}

impl TransactionSigned {
    /// Every signed transaction is valid.
    #[verifier::type_invariant]
    pub open spec fn well_formed(&self) -> bool {
        self@.valid()
    }

    fn canonical_signature(transaction: &Transaction, signature: Signature) -> (kept: Signature)
        ensures
            kept == canonical_signature(transaction@, signature),
    {
        if matches!(transaction, Transaction::MlDsa(_)) {
            ml_dsa_dummy_signature()
        } else {
            signature
        }
    }

    fn canonical_hash(transaction: &Transaction, hash: B256) -> (kept: B256)
        ensures
            kept == canonical_hash(transaction@, hash),
    {
        match transaction {
            Transaction::MlDsa(tx) => tx.tx_hash(),
            _ => hash,
        }
    }

    /// Creates a new signed transaction from the given transaction, signature and hash.
    pub fn new(transaction: Transaction, signature: Signature, hash: B256) -> (signed: Self)
        ensures
            signed@ == (SignedTx {
                hash: Some(canonical_hash(transaction@, hash)),
                signature: canonical_signature(transaction@, signature),
                transaction: transaction@,
            }),
    {
        let signature = Self::canonical_signature(&transaction, signature);
        let hash = Self::canonical_hash(&transaction, hash);
        Self { hash: Some(hash), signature, transaction }
    }

    /// Creates a new signed transaction and computes the hash when it is asked for.
    pub fn new_unhashed(transaction: Transaction, signature: Signature) -> (signed: Self)
        ensures
            signed@ == (SignedTx {
                hash: None,
                signature: canonical_signature(transaction@, signature),
                transaction: transaction@,
            }),
    {
        let signature = Self::canonical_signature(&transaction, signature);
        Self { hash: None, signature, transaction }
    }

    fn recalculate_hash(&self) -> (hash: B256)
        ensures
            hash == keccak(self@.encoded()),
    {
        let encoded = self.encoded_2718();
        keccak256(encoded.as_slice())
    }

    /// What hash tables hash of the signed transaction. The stored hash is not part of it, so that
    /// it makes no difference whether it is already known.
    pub fn hash_key(&self) -> (key: (Signature, &Transaction))
        ensures
            (key.0, key.1@) == self@.hash_key(),
    {
        (Self::canonical_signature(&self.transaction, self.signature), &self.transaction)
    }

    /// Returns the transaction hash.
    pub fn hash(&self) -> (hash: B256)
        ensures
            hash == self@.tx_hash(),
    {
        proof {
            use_type_invariant(self);
        }
        match self.hash {
            Some(hash) => hash,
            None => self.recalculate_hash(),
        }
    }

    /// Returns the transaction hash.
    pub fn tx_hash(&self) -> (hash: TxHash)
        ensures
            hash == self@.tx_hash(),
    {
        self.hash()
    }

    /// The outer signature.
    pub fn signature(&self) -> (signature: &Signature)
        ensures
            *signature == self@.signature,
    {
        &self.signature
    }

    /// The transaction itself.
    pub fn transaction(&self) -> (transaction: &Transaction)
        ensures
            transaction@ == self@.transaction,
    {
        &self.transaction
    }

    /// Splits the transaction into parts.
    pub fn into_parts(self) -> (parts: (Transaction, Signature, B256))
        ensures
            parts.0@ == self@.transaction,
            parts.1 == self@.signature,
            parts.2 == self@.tx_hash(),
    {
        let hash = self.hash();
        (self.transaction, self.signature, hash)
    }

    /// Returns the EIP-4844 transaction as a signed value if this is an EIP-4844 envelope.
    pub fn as_eip4844(&self) -> (signed: Option<Signed<TxEip4844>>)
        ensures
            match self@.transaction {
                TxFields::Eip4844(tx) => signed is Some && signed->Some_0.tx@ == tx
                    && signed->Some_0.signature == self@.signature && signed->Some_0.hash
                    == self@.tx_hash(),
                _ => signed is None,
            },
    {
        match &self.transaction {
            Transaction::Eip4844(tx) => Some(
                Signed::new_unchecked(tx.clone(), self.signature, self.hash()),
            ),
            _ => None,
        }
    }

    /// Appends the EIP-2718 encoding.
    pub fn encode_2718(&self, out: &mut Vec<u8>)
        ensures
            final(out)@ == old(out)@ + self@.encoded(),
    {
        self.transaction.eip2718_encode(&self.signature, out)
    }

    /// Length of the EIP-2718 encoding.
    pub fn encode_2718_len(&self) -> (n: usize)
        requires
            self@.encoded().len() <= usize::MAX,
        ensures
            n == self@.encoded().len(),
    {
        self.transaction.eip2718_encoded_length(&self.signature)
    }

    /// The EIP-2718 encoding.
    pub fn encoded_2718(&self) -> (out: Vec<u8>)
        ensures
            out@ == self@.encoded(),
    {
        let mut out: Vec<u8> = Vec::new();
        self.encode_2718(&mut out);
        assert(out@ =~= self@.encoded());
        out
    }

    /// The hash under which the transaction stands in a block's transaction trie.
    pub fn trie_hash(&self) -> (hash: B256)
        ensures
            hash == self@.tx_hash(),
    {
        self.tx_hash()
    }

    /// The type byte that starts the EIP-2718 encoding; legacy transactions have none.
    pub fn type_flag(&self) -> (flag: Option<u8>)
        ensures
            flag == if self@.transaction is Legacy {
                None::<u8>
            } else {
                Some(self@.transaction.tx_type().byte())
            },
    {
        if self.transaction.is_legacy() {
            None
        } else {
            Some(self.transaction.ty())
        }
    }

    /// The type byte.
    pub fn ty(&self) -> (ty: u8)
        ensures
            ty == self@.transaction.tx_type().byte(),
    {
        self.transaction.ty()
    }

    /// The price paid for a unit of gas under the given base fee.
    pub fn effective_gas_price(&self, base_fee: Option<u64>) -> (price: u128)
        ensures
            price == self@.transaction.effective_gas_price(base_fee),
    {
        self.transaction.effective_gas_price(base_fee)
    }

    /// Whether the transaction creates a contract.
    pub fn is_create(&self) -> (b: bool)
        ensures
            b == (self@.transaction.kind() is Create),
    {
        self.transaction.is_create()
    }

    /// The transaction type.
    pub fn tx_type(&self) -> (result: DiesisTxType)
        ensures
            result == self@.transaction.tx_type(),
    {
        self.transaction.tx_type()
    }

    /// The chain that the transaction is for; a legacy transaction may leave it open.
    pub fn chain_id(&self) -> (result: Option<ChainId>)
        ensures
            result == self@.transaction.chain_id(),
    {
        self.transaction.chain_id()
    }

    /// The nonce.
    pub fn nonce(&self) -> (result: u64)
        ensures
            result == self@.transaction.nonce(),
    {
        self.transaction.nonce()
    }

    /// The gas limit.
    pub fn gas_limit(&self) -> (result: u64)
        ensures
            result == self@.transaction.gas_limit(),
    {
        self.transaction.gas_limit()
    }

    /// The gas price, where it is fixed.
    pub fn gas_price(&self) -> (result: Option<u128>)
        ensures
            result == self@.transaction.gas_price(),
    {
        self.transaction.gas_price()
    }

    /// The fee cap; the gas price, where that is fixed.
    pub fn max_fee_per_gas(&self) -> (result: u128)
        ensures
            result == self@.transaction.max_fee_per_gas(),
    {
        self.transaction.max_fee_per_gas()
    }

    /// The tip cap, where fees are dynamic.
    pub fn max_priority_fee_per_gas(&self) -> (result: Option<u128>)
        ensures
            result == self@.transaction.max_priority_fee_per_gas(),
    {
        self.transaction.max_priority_fee_per_gas()
    }

    /// The blob fee cap of a blob transaction.
    pub fn max_fee_per_blob_gas(&self) -> (result: Option<u128>)
        ensures
            result == self@.transaction.max_fee_per_blob_gas(),
    {
        self.transaction.max_fee_per_blob_gas()
    }

    /// The tip cap, or the gas price where that is fixed.
    pub fn priority_fee_or_price(&self) -> (result: u128)
        ensures
            result == self@.transaction.priority_fee_or_price(),
    {
        self.transaction.priority_fee_or_price()
    }

    /// Whether fees are dynamic.
    pub fn is_dynamic_fee(&self) -> (result: bool)
        ensures
            result == self@.transaction.is_dynamic_fee(),
    {
        self.transaction.is_dynamic_fee()
    }

    /// The destination.
    pub fn kind(&self) -> (result: TxKind)
        ensures
            result == self@.transaction.kind(),
    {
        self.transaction.kind()
    }

    /// The value transferred.
    pub fn value(&self) -> (result: U256)
        ensures
            result == self@.transaction.value(),
    {
        self.transaction.value()
    }

    /// The calldata or init code.
    pub fn input(&self) -> (result: &Bytes)
        ensures
            result@ == self@.transaction.input(),
    {
        self.transaction.input()
    }

    /// The access list, where the type has one.
    pub fn access_list(&self) -> (result: Option<&AccessList>)
        ensures
            result is Some <==> self@.transaction.access_list() is Some,
            result is Some ==> result->Some_0@ == self@.transaction.access_list()->Some_0,
    {
        self.transaction.access_list()
    }

    /// The blob hashes of a blob transaction.
    pub fn blob_versioned_hashes(&self) -> (result: Option<&[B256]>)
        ensures
            result is Some <==> self@.transaction.blob_versioned_hashes() is Some,
            result is Some ==> result->Some_0@ == self@.transaction.blob_versioned_hashes()->Some_0,
    {
        self.transaction.blob_versioned_hashes()
    }

    /// The authorizations of a set-code transaction.
    pub fn authorization_list(&self) -> (result: Option<&[SignedAuthorization]>)
        ensures
            result is Some <==> self@.transaction.authorization_list() is Some,
            result is Some ==> result->Some_0@ == self@.transaction.authorization_list()->Some_0,
    {
        self.transaction.authorization_list()
    }
}

impl PartialEq for TransactionSigned {
    fn eq(&self, other: &Self) -> (same: bool) {
        Self::canonical_signature(&self.transaction, self.signature) == Self::canonical_signature(
            &other.transaction,
            other.signature,
        ) && self.transaction == other.transaction && self.tx_hash() == other.tx_hash()
    }
}

impl vstd::std_specs::cmp::PartialEqSpecImpl for TransactionSigned {
    open spec fn obeys_eq_spec() -> bool {
        true
    }

    open spec fn eq_spec(&self, other: &Self) -> bool {
        self@.same_as(other@)
    }
}

impl Clone for TransactionSigned {
    fn clone(&self) -> (copy: Self)
        ensures
            copy@ == self@,
    {
        proof {
            use_type_invariant(self);
        }
        Self {
            hash: self.hash,
            signature: self.signature,
            transaction: self.transaction.clone(),
        }
    }
}

impl core::hash::Hash for TransactionSigned {
    fn hash<H: core::hash::Hasher>(&self, state: &mut H) {
        let (signature, transaction) = self.hash_key();
        feed_signature(signature, state);
        feed_transaction(transaction, state);
    }
}

/// Counting as the same is an equivalence, and does not depend on whether the hash was already
/// computed.
pub proof fn law_equality_is_an_equivalence(a: SignedTx, b: SignedTx, c: SignedTx)
    ensures
        a.same_as(a),
        a.same_as(b) ==> b.same_as(a),
        a.same_as(b) && b.same_as(c) ==> a.same_as(c),
        a.same_as(SignedTx { hash: Some(a.tx_hash()), ..a }),
{
}

/// Signed transactions that count as the same are hashed from the same values.
pub proof fn law_equal_means_same_hash_key(a: SignedTx, b: SignedTx)
    requires
        a.same_as(b),
    ensures
        a.hash_key() == b.hash_key(),
{
}

/// The outer signature of an ML-DSA transaction makes no difference: whichever was given, the
/// signed transactions count as the same, have the same hash and the same encoding.
pub proof fn law_ml_dsa_outer_signature(tx: TxFields, a: Signature, b: Signature)
    requires
        tx is MlDsa,
    ensures
        ({
            let x = SignedTx { hash: None, signature: canonical_signature(tx, a), transaction: tx };
            let y = SignedTx { hash: None, signature: canonical_signature(tx, b), transaction: tx };
            &&& x == y
            &&& x.same_as(y)
            &&& x.signature == dummy_signature()
        }),
{
}

} // verus!
