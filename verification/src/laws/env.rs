//! What the virtual machine is told of transactions, in terms of their own fields.

use vstd::prelude::*;

use crate::crypto::keccak;
use crate::primitives::{Address, Bytes, Signature, SignedAuthorization, TxKind};
use crate::recovery::signer;
use crate::rlp::{rlp_list, RlpItem};
use crate::transaction::TxFields;
use crate::transaction_signed::TransactionSigned;
use crate::tx_ecdsa::{Eip1559Fields, Eip2930Fields, Eip4844Fields, Eip7702Fields, LegacyFields};
use crate::tx_env::{RecoveredAuthorization, TxEnv};
use crate::tx_ml_dsa::MlDsaFields;

verus! {

/// Whether the virtual machine is told `told` of the authorization `auth`: what it is for, and the
/// account whose key made its signature over a byte `0x05` and the list of chain, address and
/// nonce. No account is told where the parity is neither 0 nor 1, nor where `s` is above half the
/// order of the curve group.
pub open spec fn tells_authorization(
    told: RecoveredAuthorization,
    auth: SignedAuthorization,
) -> bool {
    let payload = seq![0x05u8] + rlp_list(
        auth.chain_id.rlp() + (auth.address.rlp() + auth.nonce.rlp()),
    );
    let signature = Signature { r: auth.r, s: auth.s, y_parity: auth.y_parity == 1 };
    &&& told.chain_id == auth.chain_id
    &&& told.address == auth.address
    &&& told.nonce == auth.nonce
    &&& auth.y_parity > 1 ==> told.authority is None
    &&& auth.s.as_nat()
        > 0x7FFFFFFF_FFFFFFFF_FFFFFFFF_FFFFFFFF_5D576E73_57A4501D_DFE92F46_681B20A0
        ==> told.authority is None
    &&& auth.y_parity <= 1 && auth.s.as_nat()
        <= 0x7FFFFFFF_FFFFFFFF_FFFFFFFF_FFFFFFFF_5D576E73_57A4501D_DFE92F46_681B20A0
        ==> told.authority == signer(signature, keccak(payload))
}

/// What is told of a legacy transaction is what stands in its fields.
pub proof fn law_legacy_env(
    tx_signed: TransactionSigned,
    tx: LegacyFields,
    caller: Address,
    env: TxEnv,
)
    requires
        tx_signed@.transaction == TxFields::Legacy(tx),
        call_ensures(TxEnv::from_recovered_tx, (&tx_signed, caller), env),
    ensures
        env.tx_type == 0,
        env.caller == caller,
        env.gas_limit == tx.gas_limit,
        env.gas_price == tx.gas_price,
        env.nonce == tx.nonce,
        env.kind == tx.to,
        env.value == tx.value,
        env.data@ == tx.input,
        env.chain_id == tx.chain_id,
        env.access_list@.len() == 0,
        env.gas_priority_fee is None,
        env.blob_hashes@.len() == 0,
        env.max_fee_per_blob_gas == 0,
        env.authorization_list@.len() == 0,
{
    lemma_half_order();
}

/// What is told of a legacy transaction whose encoding is at hand is what stands in its fields.
pub proof fn law_legacy_env_with_encoding(
    tx_signed: TransactionSigned,
    tx: LegacyFields,
    caller: Address,
    encoded: Bytes,
    env: TxEnv,
)
    requires
        tx_signed@.transaction == TxFields::Legacy(tx),
        call_ensures(TxEnv::from_encoded_tx, (&tx_signed, caller, encoded), env),
    ensures
        env.tx_type == 0,
        env.caller == caller,
        env.gas_limit == tx.gas_limit,
        env.gas_price == tx.gas_price,
        env.nonce == tx.nonce,
        env.kind == tx.to,
        env.value == tx.value,
        env.data@ == tx.input,
        env.chain_id == tx.chain_id,
        env.access_list@.len() == 0,
        env.gas_priority_fee is None,
        env.blob_hashes@.len() == 0,
        env.max_fee_per_blob_gas == 0,
        env.authorization_list@.len() == 0,
{
    lemma_half_order();
}

/// What is told of an access-list transaction is what stands in its fields.
pub proof fn law_eip2930_env(
    tx_signed: TransactionSigned,
    tx: Eip2930Fields,
    caller: Address,
    env: TxEnv,
)
    requires
        tx_signed@.transaction == TxFields::Eip2930(tx),
        call_ensures(TxEnv::from_recovered_tx, (&tx_signed, caller), env),
    ensures
        env.tx_type == 1,
        env.caller == caller,
        env.gas_limit == tx.gas_limit,
        env.gas_price == tx.gas_price,
        env.nonce == tx.nonce,
        env.kind == tx.to,
        env.value == tx.value,
        env.data@ == tx.input,
        env.chain_id == Some(tx.chain_id),
        env.access_list@ == tx.access_list,
        env.gas_priority_fee is None,
        env.blob_hashes@.len() == 0,
        env.max_fee_per_blob_gas == 0,
        env.authorization_list@.len() == 0,
{
    lemma_half_order();
}

/// What is told of an access-list transaction whose encoding is at hand is what stands in its
/// fields.
pub proof fn law_eip2930_env_with_encoding(
    tx_signed: TransactionSigned,
    tx: Eip2930Fields,
    caller: Address,
    encoded: Bytes,
    env: TxEnv,
)
    requires
        tx_signed@.transaction == TxFields::Eip2930(tx),
        call_ensures(TxEnv::from_encoded_tx, (&tx_signed, caller, encoded), env),
    ensures
        env.tx_type == 1,
        env.caller == caller,
        env.gas_limit == tx.gas_limit,
        env.gas_price == tx.gas_price,
        env.nonce == tx.nonce,
        env.kind == tx.to,
        env.value == tx.value,
        env.data@ == tx.input,
        env.chain_id == Some(tx.chain_id),
        env.access_list@ == tx.access_list,
        env.gas_priority_fee is None,
        env.blob_hashes@.len() == 0,
        env.max_fee_per_blob_gas == 0,
        env.authorization_list@.len() == 0,
{
    lemma_half_order();
}

/// What is told of a dynamic-fee transaction is what stands in its fields.
pub proof fn law_eip1559_env(
    tx_signed: TransactionSigned,
    tx: Eip1559Fields,
    caller: Address,
    env: TxEnv,
)
    requires
        tx_signed@.transaction == TxFields::Eip1559(tx),
        call_ensures(TxEnv::from_recovered_tx, (&tx_signed, caller), env),
    ensures
        env.tx_type == 2,
        env.caller == caller,
        env.gas_limit == tx.gas_limit,
        env.gas_price == tx.max_fee_per_gas,
        env.nonce == tx.nonce,
        env.kind == tx.to,
        env.value == tx.value,
        env.data@ == tx.input,
        env.chain_id == Some(tx.chain_id),
        env.access_list@ == tx.access_list,
        env.gas_priority_fee == Some(tx.max_priority_fee_per_gas),
        env.blob_hashes@.len() == 0,
        env.max_fee_per_blob_gas == 0,
        env.authorization_list@.len() == 0,
{
    lemma_half_order();
}

/// What is told of a dynamic-fee transaction whose encoding is at hand is what stands in its
/// fields.
pub proof fn law_eip1559_env_with_encoding(
    tx_signed: TransactionSigned,
    tx: Eip1559Fields,
    caller: Address,
    encoded: Bytes,
    env: TxEnv,
)
    requires
        tx_signed@.transaction == TxFields::Eip1559(tx),
        call_ensures(TxEnv::from_encoded_tx, (&tx_signed, caller, encoded), env),
    ensures
        env.tx_type == 2,
        env.caller == caller,
        env.gas_limit == tx.gas_limit,
        env.gas_price == tx.max_fee_per_gas,
        env.nonce == tx.nonce,
        env.kind == tx.to,
        env.value == tx.value,
        env.data@ == tx.input,
        env.chain_id == Some(tx.chain_id),
        env.access_list@ == tx.access_list,
        env.gas_priority_fee == Some(tx.max_priority_fee_per_gas),
        env.blob_hashes@.len() == 0,
        env.max_fee_per_blob_gas == 0,
        env.authorization_list@.len() == 0,
{
    lemma_half_order();
}

/// What is told of a blob transaction is what stands in its fields.
pub proof fn law_eip4844_env(
    tx_signed: TransactionSigned,
    tx: Eip4844Fields,
    caller: Address,
    env: TxEnv,
)
    requires
        tx_signed@.transaction == TxFields::Eip4844(tx),
        call_ensures(TxEnv::from_recovered_tx, (&tx_signed, caller), env),
    ensures
        env.tx_type == 3,
        env.caller == caller,
        env.gas_limit == tx.gas_limit,
        env.gas_price == tx.max_fee_per_gas,
        env.nonce == tx.nonce,
        env.kind == TxKind::Call(tx.to),
        env.value == tx.value,
        env.data@ == tx.input,
        env.chain_id == Some(tx.chain_id),
        env.access_list@ == tx.access_list,
        env.gas_priority_fee == Some(tx.max_priority_fee_per_gas),
        env.blob_hashes@ == tx.blob_versioned_hashes,
        env.max_fee_per_blob_gas == tx.max_fee_per_blob_gas,
        env.authorization_list@.len() == 0,
{
    lemma_half_order();
}

/// What is told of a blob transaction whose encoding is at hand is what stands in its fields.
pub proof fn law_eip4844_env_with_encoding(
    tx_signed: TransactionSigned,
    tx: Eip4844Fields,
    caller: Address,
    encoded: Bytes,
    env: TxEnv,
)
    requires
        tx_signed@.transaction == TxFields::Eip4844(tx),
        call_ensures(TxEnv::from_encoded_tx, (&tx_signed, caller, encoded), env),
    ensures
        env.tx_type == 3,
        env.caller == caller,
        env.gas_limit == tx.gas_limit,
        env.gas_price == tx.max_fee_per_gas,
        env.nonce == tx.nonce,
        env.kind == TxKind::Call(tx.to),
        env.value == tx.value,
        env.data@ == tx.input,
        env.chain_id == Some(tx.chain_id),
        env.access_list@ == tx.access_list,
        env.gas_priority_fee == Some(tx.max_priority_fee_per_gas),
        env.blob_hashes@ == tx.blob_versioned_hashes,
        env.max_fee_per_blob_gas == tx.max_fee_per_blob_gas,
        env.authorization_list@.len() == 0,
{
    lemma_half_order();
}

/// What is told of a set-code transaction is what stands in its fields.
pub proof fn law_eip7702_env(
    tx_signed: TransactionSigned,
    tx: Eip7702Fields,
    caller: Address,
    env: TxEnv,
)
    requires
        tx_signed@.transaction == TxFields::Eip7702(tx),
        call_ensures(TxEnv::from_recovered_tx, (&tx_signed, caller), env),
    ensures
        env.tx_type == 4,
        env.caller == caller,
        env.gas_limit == tx.gas_limit,
        env.gas_price == tx.max_fee_per_gas,
        env.nonce == tx.nonce,
        env.kind == TxKind::Call(tx.to),
        env.value == tx.value,
        env.data@ == tx.input,
        env.chain_id == Some(tx.chain_id),
        env.access_list@ == tx.access_list,
        env.gas_priority_fee == Some(tx.max_priority_fee_per_gas),
        env.blob_hashes@.len() == 0,
        env.max_fee_per_blob_gas == 0,
        env.authorization_list@.len() == tx.authorization_list.len(),
        forall|i: int|
            0 <= i < tx.authorization_list.len() ==> tells_authorization(
                #[trigger] env.authorization_list@[i],
                tx.authorization_list[i],
            ),
{
    lemma_half_order();
}

/// What is told of a set-code transaction whose encoding is at hand is what stands in its fields.
pub proof fn law_eip7702_env_with_encoding(
    tx_signed: TransactionSigned,
    tx: Eip7702Fields,
    caller: Address,
    encoded: Bytes,
    env: TxEnv,
)
    requires
        tx_signed@.transaction == TxFields::Eip7702(tx),
        call_ensures(TxEnv::from_encoded_tx, (&tx_signed, caller, encoded), env),
    ensures
        env.tx_type == 4,
        env.caller == caller,
        env.gas_limit == tx.gas_limit,
        env.gas_price == tx.max_fee_per_gas,
        env.nonce == tx.nonce,
        env.kind == TxKind::Call(tx.to),
        env.value == tx.value,
        env.data@ == tx.input,
        env.chain_id == Some(tx.chain_id),
        env.access_list@ == tx.access_list,
        env.gas_priority_fee == Some(tx.max_priority_fee_per_gas),
        env.blob_hashes@.len() == 0,
        env.max_fee_per_blob_gas == 0,
        env.authorization_list@.len() == tx.authorization_list.len(),
        forall|i: int|
            0 <= i < tx.authorization_list.len() ==> tells_authorization(
                #[trigger] env.authorization_list@[i],
                tx.authorization_list[i],
            ),
{
    lemma_half_order();
}

/// What is told of an ML-DSA transaction is what stands in its fields.
pub proof fn law_ml_dsa_env(
    tx_signed: TransactionSigned,
    tx: MlDsaFields,
    caller: Address,
    env: TxEnv,
)
    requires
        tx_signed@.transaction == TxFields::MlDsa(tx),
        call_ensures(TxEnv::from_recovered_tx, (&tx_signed, caller), env),
    ensures
        env.tx_type == 0x70,
        env.caller == caller,
        env.gas_limit == tx.gas_limit,
        env.gas_price == tx.max_fee_per_gas,
        env.nonce == tx.nonce,
        env.kind == tx.to,
        env.value == tx.value,
        env.data@ == tx.input,
        env.chain_id == Some(tx.chain_id),
        env.access_list@ == tx.access_list,
        env.gas_priority_fee == Some(tx.max_priority_fee_per_gas),
        env.blob_hashes@.len() == 0,
        env.max_fee_per_blob_gas == 0,
        env.authorization_list@.len() == 0,
{
    lemma_half_order();
}

/// What is told of an ML-DSA transaction whose encoding is at hand is what stands in its fields.
pub proof fn law_ml_dsa_env_with_encoding(
    tx_signed: TransactionSigned,
    tx: MlDsaFields,
    caller: Address,
    encoded: Bytes,
    env: TxEnv,
)
    requires
        tx_signed@.transaction == TxFields::MlDsa(tx),
        call_ensures(TxEnv::from_encoded_tx, (&tx_signed, caller, encoded), env),
    ensures
        env.tx_type == 0x70,
        env.caller == caller,
        env.gas_limit == tx.gas_limit,
        env.gas_price == tx.max_fee_per_gas,
        env.nonce == tx.nonce,
        env.kind == tx.to,
        env.value == tx.value,
        env.data@ == tx.input,
        env.chain_id == Some(tx.chain_id),
        env.access_list@ == tx.access_list,
        env.gas_priority_fee == Some(tx.max_priority_fee_per_gas),
        env.blob_hashes@.len() == 0,
        env.max_fee_per_blob_gas == 0,
        env.authorization_list@.len() == 0,
{
    lemma_half_order();
}

/// Half the order of the curve group as one number.
proof fn lemma_half_order()
    ensures
        crate::recovery::secp256k1_half_order()
            == 0x7FFFFFFF_FFFFFFFF_FFFFFFFF_FFFFFFFF_5D576E73_57A4501D_DFE92F46_681B20A0,
{
}

} // verus!
