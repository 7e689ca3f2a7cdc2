//! Recovery of senders.

use vstd::prelude::*;

use crate::crypto::keccak;
use crate::laws::ml_dsa::fips_204;
use crate::primitives::Address;
use crate::recovery::{secp256k1_half_order, signer, RecoveryError};
use crate::rlp::RlpError;
use crate::transaction::{Transaction, TxFields};
use crate::transaction_signed::TransactionSigned;
use crate::tx_ml_dsa::MlDsaFields;

verus! {

/// No sender is recovered from an ML-DSA transaction in any way. Where the key material has not the
/// lengths of its security level, the strict way tells what is wrong with it: the level, or else
/// the public key, or else the signature.
pub proof fn law_ml_dsa_is_never_recovered(
    signed: TransactionSigned,
    tx: MlDsaFields,
    buf: &mut Vec<u8>,
    a: Result<Address, RecoveryError>,
    b: Result<Address, RecoveryError>,
    c: Result<Address, RecoveryError>,
)
    requires
        signed@.transaction == TxFields::MlDsa(tx),
        call_ensures(TransactionSigned::recover_signer, (&signed,), a),
        call_ensures(TransactionSigned::recover_signer_unchecked, (&signed,), b),
        call_ensures(TransactionSigned::recover_unchecked_with_buf, (&signed, buf), c),
    ensures
        b == Err::<Address, RecoveryError>(RecoveryError::Failed),
        c == Err::<Address, RecoveryError>(RecoveryError::Failed),
        final(buf)@ == old(buf)@,
        fips_204(tx.ml_dsa_level, tx.pubkey.len(), tx.ml_dsa_signature.len()) ==> a == Err::<
            Address,
            RecoveryError,
        >(RecoveryError::Failed),
        !fips_204(tx.ml_dsa_level, tx.pubkey.len(), tx.ml_dsa_signature.len()) ==> a == Err::<
            Address,
            RecoveryError,
        >(
            RecoveryError::KeyMaterial(
                RlpError::Custom(
                    if tx.ml_dsa_level != 44 && tx.ml_dsa_level != 65 && tx.ml_dsa_level != 87 {
                        "unsupported ML-DSA security level"
                    } else if tx.pubkey.len() != 0 && tx.pubkey.len() != if tx.ml_dsa_level == 44 {
                        1312int
                    } else if tx.ml_dsa_level == 65 {
                        1952
                    } else {
                        2592
                    } {
                        "invalid ML-DSA public key length"
                    } else {
                        "invalid ML-DSA signature length"
                    },
                ),
            ),
        ),
{
}

/// The sender of any other transaction is the one whose key made the signature over the hash of
/// what is signed. Signatures with an `s` above half the order of the curve group are refused,
/// unless the check is left out.
pub proof fn law_sender(
    signed: TransactionSigned,
    tx: Transaction,
    out: &mut Vec<u8>,
    buf: &mut Vec<u8>,
    a: Result<Address, RecoveryError>,
    b: Result<Address, RecoveryError>,
    c: Result<Address, RecoveryError>,
)
    requires
        signed@.transaction == tx@,
        !(tx is MlDsa),
        call_ensures(Transaction::encode_for_signing, (&tx, out), ()),
        old(out)@.len() == 0,
        call_ensures(TransactionSigned::recover_signer, (&signed,), a),
        call_ensures(TransactionSigned::recover_signer_unchecked, (&signed,), b),
        call_ensures(TransactionSigned::recover_unchecked_with_buf, (&signed, buf), c),
        old(buf)@.len() == 0,
    ensures
        final(buf)@ == final(out)@,
        signer(signed@.signature, keccak(final(out)@)) matches Some(address) ==> b == Ok::<
            Address,
            RecoveryError,
        >(address),
        signer(signed@.signature, keccak(final(out)@)) is None ==> b == Err::<
            Address,
            RecoveryError,
        >(RecoveryError::Failed),
        c == b,
        signed@.signature.s.as_nat()
            > 0x7FFFFFFF_FFFFFFFF_FFFFFFFF_FFFFFFFF_5D576E73_57A4501D_DFE92F46_681B20A0
            ==> a == Err::<Address, RecoveryError>(RecoveryError::Failed),
        signed@.signature.s.as_nat()
            <= 0x7FFFFFFF_FFFFFFFF_FFFFFFFF_FFFFFFFF_5D576E73_57A4501D_DFE92F46_681B20A0 ==> a == b,
{
    assert(secp256k1_half_order()
        == 0x7FFFFFFF_FFFFFFFF_FFFFFFFF_FFFFFFFF_5D576E73_57A4501D_DFE92F46_681B20A0);
    assert(final(out)@ =~= tx@.signing_payload());
    assert(final(buf)@ =~= tx@.signing_payload());
}

} // verus!
