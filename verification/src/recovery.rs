//! Recovery of the sender from an ECDSA signature.
//!
//! ML-DSA signatures do not show their key, so that no sender is ever recovered from them here.

use alloy_consensus::crypto::RecoveryError as AlloyRecoveryError;
use vstd::prelude::*;

use crate::crypto::{keccak, keccak256};
use crate::primitives::{Address, Signature, B256, U256};
use crate::rlp::RlpError;
use crate::transaction::{Transaction, TxFields};
use crate::transaction_signed::TransactionSigned;
use crate::tx_ecdsa_codec::alloy_signature;
use crate::tx_ml_dsa::{fields_verdict, MlDsaFields};

verus! {

/// Why no sender was recovered.
#[derive(Clone, Copy, Debug, PartialEq, Eq)]
pub enum RecoveryError {
    /// No sender can be had from the signature.
    Failed,
    /// The key material of an ML-DSA transaction has not even the lengths that it must have.
    KeyMaterial(RlpError),
}

/// The recovery error of `alloy_consensus`.
#[verifier::external_type_specification]
#[verifier::external_body]
pub struct ExRecoveryError(AlloyRecoveryError);

/// The address whose key made the signature over the hash, if there is one.
pub uninterp spec fn signer(signature: Signature, hash: B256) -> Option<Address>;

/// Half the order of the curve group: signatures with a greater `s` are malleable (EIP-2).
pub open spec fn secp256k1_half_order() -> nat {
    U256 {
        w0: 0xDFE92F46_681B20A0,
        w1: 0x5D576E73_57A4501D,
        w2: 0xFFFFFFFF_FFFFFFFF,
        w3: 0x7FFFFFFF_FFFFFFFF,
    }.as_nat()
}

/// The signer, where the signature is not malleable.
pub open spec fn strict_signer(signature: Signature, hash: B256) -> Option<Address> {
    if signature.s.as_nat() > secp256k1_half_order() {
        None
    } else {
        signer(signature, hash)
    }
}

/// `reth_primitives_traits::crypto::secp256k1::recover_signer_unchecked`, which is that of
/// `alloy_consensus`: the signer of the hash.
#[verifier::external_body]
fn secp256k1_recover_unchecked(signature: &Signature, hash: B256) -> (result: Result<
    Address,
    AlloyRecoveryError,
>)
    ensures
        result is Ok <==> signer(*signature, hash) is Some,
        result is Ok ==> signer(*signature, hash) == Some(result->Ok_0),
{
    reth_primitives_traits::crypto::secp256k1::recover_signer_unchecked(
        &alloy_signature(*signature),
        alloy_primitives::B256::from(hash.bytes),
    ).map(|address| Address { bytes: address.into() })
}

/// `reth_primitives_traits::crypto::secp256k1::recover_signer`, which is that of `alloy_consensus`:
/// the signer of the hash, unless the signature is malleable.
#[verifier::external_body]
fn secp256k1_recover(signature: &Signature, hash: B256) -> (result: Result<
    Address,
    AlloyRecoveryError,
>)
    ensures
        result is Ok <==> strict_signer(*signature, hash) is Some,
        result is Ok ==> strict_signer(*signature, hash) == Some(result->Ok_0),
{
    reth_primitives_traits::crypto::secp256k1::recover_signer(
        &alloy_signature(*signature),
        alloy_primitives::B256::from(hash.bytes),
    ).map(|address| Address { bytes: address.into() })
}

/// What recovery makes of the signer, if there is one.
pub open spec fn recovery(signer: Option<Address>) -> Result<Address, RecoveryError> {
    match signer {
        Some(address) => Ok(address),
        None => Err(RecoveryError::Failed),
    }
}

/// What recovery makes of an ML-DSA transaction: an error, and one that names what is wrong with
/// the lengths of the key material, if anything is.
pub open spec fn ml_dsa_recovery(tx: MlDsaFields) -> Result<Address, RecoveryError> {
    match fields_verdict(tx, Seq::empty()) {
        Ok(_) => Err(RecoveryError::Failed),
        Err(error) => Err(RecoveryError::KeyMaterial(error)),
    }
}

impl TransactionSigned {
    /// Recovers the sender, and refuses malleable signatures.
    pub fn recover_signer(&self) -> (result: Result<Address, RecoveryError>)
        ensures
            result == match self@.transaction {
                TxFields::MlDsa(tx) => ml_dsa_recovery(tx),
                tx => recovery(strict_signer(self@.signature, keccak(tx.signing_payload()))),
            },
    {
        if let Transaction::MlDsa(tx) = self.transaction() {
            return match tx.validate_key_material_shape() {
                Ok(()) => Err(RecoveryError::Failed),
                Err(error) => Err(RecoveryError::KeyMaterial(error)),
            };
        }
        let signature_hash = self.transaction().signature_hash();
        match secp256k1_recover(self.signature(), signature_hash) {
            Ok(address) => Ok(address),
            Err(_) => Err(RecoveryError::Failed),
        }
    }

    /// Recovers the sender, from a malleable signature too.
    pub fn recover_signer_unchecked(&self) -> (result: Result<Address, RecoveryError>)
        ensures
            result == match self@.transaction {
                TxFields::MlDsa(_) => Err(RecoveryError::Failed),
                tx => recovery(signer(self@.signature, keccak(tx.signing_payload()))),
            },
    {
        if matches!(self.transaction(), Transaction::MlDsa(_)) {
            return Err(RecoveryError::Failed);
        }
        let signature_hash = self.transaction().signature_hash();
        match secp256k1_recover_unchecked(self.signature(), signature_hash) {
            Ok(address) => Ok(address),
            Err(_) => Err(RecoveryError::Failed),
        }
    }

    /// Recovers the sender, from a malleable signature too, and leaves what was hashed at the end
    /// of the buffer. The hash is that of the whole buffer, so the buffer should start out empty.
    pub fn recover_unchecked_with_buf(&self, buf: &mut Vec<u8>) -> (result: Result<
        Address,
        RecoveryError,
    >)
        ensures
            match self@.transaction {
                TxFields::MlDsa(_) => {
                    &&& result == Err::<Address, RecoveryError>(RecoveryError::Failed)
                    &&& final(buf)@ == old(buf)@
                },
                tx => {
                    &&& final(buf)@ == old(buf)@ + tx.signing_payload()
                    &&& result == recovery(signer(self@.signature, keccak(final(buf)@)))
                },
            },
    {
        if matches!(self.transaction(), Transaction::MlDsa(_)) {
            return Err(RecoveryError::Failed);
        }
        self.transaction().encode_for_signing(buf);
        let signature_hash = keccak256(buf.as_slice());
        match secp256k1_recover_unchecked(self.signature(), signature_hash) {
            Ok(address) => Ok(address),
            Err(_) => Err(RecoveryError::Failed),
        }
    }
}

/// No sender is ever recovered from an ML-DSA transaction, whatever its key material.
pub proof fn law_ml_dsa_has_no_recoverable_sender(tx: MlDsaFields)
    ensures
        ml_dsa_recovery(tx) is Err,
        tx.key_material_shaped() <==> ml_dsa_recovery(tx) == Err::<Address, RecoveryError>(
            RecoveryError::Failed,
        ),
{
}

/// Where a sender is recovered strictly, the same one is recovered without the check for
/// malleability.
pub proof fn law_strict_recovery_agrees(signature: Signature, hash: B256)
    ensures
        strict_signer(signature, hash) is Some ==> strict_signer(signature, hash) == signer(
            signature,
            hash,
        ),
{
}

} // verus!
