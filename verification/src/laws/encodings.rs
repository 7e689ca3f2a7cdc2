//! The bytes of Ethereum's own transactions, in terms of their fields.

use vstd::prelude::*;

use crate::crypto::keccak;
use crate::primitives::{Signature, TxHash, B256};
use crate::rlp::{
    lemma_split_list_header, rlp_header, rlp_list, rlp_uint, split_header, RlpItem, LENGTH_LIMIT,
};
use crate::signed::Signed;
use crate::transaction::Transaction;
use crate::tx_ecdsa::{
    Eip1559Fields, Eip2930Fields, Eip4844Fields, Eip7702Fields, LegacyFields, TxEip1559, TxEip2930,
    TxEip4844, TxEip7702, TxLegacy,
};
use crate::tx_ml_dsa::TxMlDsa;

verus! {

/// Whether `s` is exactly one RLP list of the items whose encodings, one after the other, are
/// `items`.
pub open spec fn is_list_of(s: Seq<u8>, items: Seq<u8>) -> bool {
    split_header(s) matches Some((list, n, rest)) && list && n == rest.len() && rest == items
}

/// One list in RLP is what splitting off a header finds.
proof fn lemma_is_list_of(s: Seq<u8>, items: Seq<u8>)
    requires
        s == rlp_list(items),
        s.len() < LENGTH_LIMIT,
    ensures
        is_list_of(s, items),
{
    assert(rlp_list(items) + Seq::<u8>::empty() =~= rlp_list(items));
    assert(items + Seq::<u8>::empty() =~= items);
    lemma_split_list_header(items, Seq::empty());
}

/// What is signed of a legacy transaction is exactly one RLP list: nonce, gas price, gas limit,
/// destination, value and input, and, where the chain is given, the chain and two zeros.
pub proof fn law_legacy_signing_payload(
    tx: TxLegacy,
    out: &mut Vec<u8>,
    payload: Seq<u8>,
)
    requires
        call_ensures(Transaction::encode_for_signing, (&Transaction::Legacy(tx), out), ()),
        payload == final(out)@.skip(old(out)@.len() as int),
        payload.len() < LENGTH_LIMIT,
    ensures
        final(out)@ == old(out)@ + payload,
        tx.chain_id is None ==> is_list_of(
            payload,
            tx.nonce.rlp() + (tx.gas_price.rlp() + (
            tx.gas_limit.rlp() + (tx.to.rlp() + (
            tx.value.rlp() + (tx.input@.rlp()))))),
        ),
        tx.chain_id matches Some(id) ==> is_list_of(
            payload,
            tx.nonce.rlp() + (tx.gas_price.rlp() + (
            tx.gas_limit.rlp() + (tx.to.rlp() + (
            tx.value.rlp() + (tx.input@.rlp() + (
            id.rlp() + (seq![0x80u8, 0x80u8]))))))),
        ),
{
    reveal(LegacyFields::fields_before);
    assert(tx.input@.rlp() + Seq::<u8>::empty() =~= tx.input@.rlp());
    assert(payload =~= tx@.signing_payload());
    assert(rlp_uint(0) + rlp_uint(0) =~= seq![0x80u8, 0x80u8]);
    match tx.chain_id {
        Some(id) => {
            lemma_is_list_of(
                payload,
                tx@.fields_before(id.rlp() + (rlp_uint(0) + rlp_uint(0))),
            );
        },
        None => {
            lemma_is_list_of(payload, tx@.fields());
        },
    }
}

/// A signed legacy transaction is exactly one RLP list: the fields, the parity of the signature
/// with the chain (EIP-155), and the two scalars.
pub proof fn law_legacy_encoding(
    tx: TxLegacy,
    signature: Signature,
    out: &mut Vec<u8>,
    encoded: Seq<u8>,
)
    requires
        call_ensures(Transaction::eip2718_encode, (&Transaction::Legacy(tx), &signature, out), ()),
        encoded == final(out)@.skip(old(out)@.len() as int),
        encoded.len() < LENGTH_LIMIT,
    ensures
        final(out)@ == old(out)@ + encoded,
        is_list_of(
            encoded,
            tx.nonce.rlp() + (tx.gas_price.rlp() + (
            tx.gas_limit.rlp() + (tx.to.rlp() + (
            tx.value.rlp() + (tx.input@.rlp() + (
            rlp_uint(
                (match tx.chain_id {
                    Some(id) => 35 + 2 * id,
                    None => 27,
                } + if signature.y_parity {
                    1int
                } else {
                    0
                }) as nat,
            ) + (signature.r.rlp() + (
            signature.s.rlp())))))))),
        ),
{
    reveal(LegacyFields::fields_before);
    let v = crate::tx_ecdsa::eip155_value(signature.y_parity, tx.chain_id);
    assert(encoded =~= (tx@, signature).rlp());
    lemma_is_list_of(encoded, tx@.fields_before(rlp_uint(v) + signature.scalars()));
}

/// The fields of a legacy transaction are encoded one after the other.
pub proof fn law_legacy_fields(
    tx: TxLegacy,
    out: &mut Vec<u8>,
    length: usize,
)
    requires
        call_ensures(Transaction::rlp_encode_fields, (&Transaction::Legacy(tx), out), ()),
        call_ensures(Transaction::rlp_encoded_fields_length, (&Transaction::Legacy(tx),), length),
    ensures
        final(out)@ == old(out)@ + (tx.nonce.rlp() + (tx.gas_price.rlp() + (
            tx.gas_limit.rlp() + (tx.to.rlp() + (
            tx.value.rlp() + (tx.input@.rlp())))))),
        old(out)@.len() + length == final(out)@.len(),
{
    reveal(LegacyFields::fields_before);
    assert(tx.input@.rlp() + Seq::<u8>::empty() =~= tx.input@.rlp());
}

/// What is signed of an access-list transaction is the type byte and after it exactly one RLP list
/// of its fields.
pub proof fn law_eip2930_signing_payload(
    tx: TxEip2930,
    out: &mut Vec<u8>,
    payload: Seq<u8>,
)
    requires
        call_ensures(Transaction::encode_for_signing, (&Transaction::Eip2930(tx), out), ()),
        payload == final(out)@.skip(old(out)@.len() as int),
        payload.len() < LENGTH_LIMIT,
    ensures
        final(out)@ == old(out)@ + payload,
        payload.len() > 0,
        payload[0] == 1,
        is_list_of(
            payload.skip(1),
            tx.chain_id.rlp() + (tx.nonce.rlp() + (
            tx.gas_price.rlp() + (tx.gas_limit.rlp() + (
            tx.to.rlp() + (tx.value.rlp() + (
            tx.input@.rlp() + (tx.access_list@.rlp()))))))),
        ),
{
    reveal(Eip2930Fields::fields_before);
    assert(tx.access_list@.rlp() + Seq::<u8>::empty() =~= tx.access_list@.rlp());
    assert(payload =~= seq![1u8] + rlp_list(tx@.fields()));
    assert(payload.skip(1) =~= rlp_list(tx@.fields()));
    lemma_is_list_of(payload.skip(1), tx@.fields());
}

/// A signed access-list transaction is the type byte and after it exactly one RLP list: the fields,
/// the parity of the signature, and the two scalars.
pub proof fn law_eip2930_encoding(
    tx: TxEip2930,
    signature: Signature,
    out: &mut Vec<u8>,
    encoded: Seq<u8>,
)
    requires
        call_ensures(Transaction::eip2718_encode, (&Transaction::Eip2930(tx), &signature, out), ()),
        encoded == final(out)@.skip(old(out)@.len() as int),
        encoded.len() < LENGTH_LIMIT,
    ensures
        final(out)@ == old(out)@ + encoded,
        encoded.len() > 0,
        encoded[0] == 1,
        is_list_of(
            encoded.skip(1),
            tx.chain_id.rlp() + (tx.nonce.rlp() + (
            tx.gas_price.rlp() + (tx.gas_limit.rlp() + (
            tx.to.rlp() + (tx.value.rlp() + (
            tx.input@.rlp() + (tx.access_list@.rlp() + (
            signature.y_parity.rlp() + (signature.r.rlp() + (
            signature.s.rlp())))))))))),
        ),
{
    reveal(Eip2930Fields::fields_before);
    let fields = tx@.fields_before(signature.parity_and_scalars());
    assert(encoded =~= seq![1u8] + rlp_list(fields));
    assert(encoded.skip(1) =~= rlp_list(fields));
    lemma_is_list_of(encoded.skip(1), fields);
}

/// The fields of an access-list transaction are encoded one after the other.
pub proof fn law_eip2930_fields(
    tx: TxEip2930,
    out: &mut Vec<u8>,
    length: usize,
)
    requires
        call_ensures(Transaction::rlp_encode_fields, (&Transaction::Eip2930(tx), out), ()),
        call_ensures(Transaction::rlp_encoded_fields_length, (&Transaction::Eip2930(tx),), length),
    ensures
        final(out)@ == old(out)@ + (tx.chain_id.rlp() + (tx.nonce.rlp() + (
            tx.gas_price.rlp() + (tx.gas_limit.rlp() + (
            tx.to.rlp() + (tx.value.rlp() + (
            tx.input@.rlp() + (tx.access_list@.rlp())))))))),
        old(out)@.len() + length == final(out)@.len(),
{
    reveal(Eip2930Fields::fields_before);
    assert(tx.access_list@.rlp() + Seq::<u8>::empty() =~= tx.access_list@.rlp());
}

/// What is signed of a dynamic-fee transaction is the type byte and after it exactly one RLP list
/// of its fields.
pub proof fn law_eip1559_signing_payload(
    tx: TxEip1559,
    out: &mut Vec<u8>,
    payload: Seq<u8>,
)
    requires
        call_ensures(Transaction::encode_for_signing, (&Transaction::Eip1559(tx), out), ()),
        payload == final(out)@.skip(old(out)@.len() as int),
        payload.len() < LENGTH_LIMIT,
    ensures
        final(out)@ == old(out)@ + payload,
        payload.len() > 0,
        payload[0] == 2,
        is_list_of(
            payload.skip(1),
            tx.chain_id.rlp() + (tx.nonce.rlp() + (
            tx.max_priority_fee_per_gas.rlp() + (tx.max_fee_per_gas.rlp() + (
            tx.gas_limit.rlp() + (tx.to.rlp() + (
            tx.value.rlp() + (tx.input@.rlp() + (
            tx.access_list@.rlp())))))))),
        ),
{
    reveal(Eip1559Fields::fields_before);
    assert(tx.access_list@.rlp() + Seq::<u8>::empty() =~= tx.access_list@.rlp());
    assert(payload =~= seq![2u8] + rlp_list(tx@.fields()));
    assert(payload.skip(1) =~= rlp_list(tx@.fields()));
    lemma_is_list_of(payload.skip(1), tx@.fields());
}

/// A signed dynamic-fee transaction is the type byte and after it exactly one RLP list: the fields,
/// the parity of the signature, and the two scalars.
pub proof fn law_eip1559_encoding(
    tx: TxEip1559,
    signature: Signature,
    out: &mut Vec<u8>,
    encoded: Seq<u8>,
)
    requires
        call_ensures(Transaction::eip2718_encode, (&Transaction::Eip1559(tx), &signature, out), ()),
        encoded == final(out)@.skip(old(out)@.len() as int),
        encoded.len() < LENGTH_LIMIT,
    ensures
        final(out)@ == old(out)@ + encoded,
        encoded.len() > 0,
        encoded[0] == 2,
        is_list_of(
            encoded.skip(1),
            tx.chain_id.rlp() + (tx.nonce.rlp() + (
            tx.max_priority_fee_per_gas.rlp() + (tx.max_fee_per_gas.rlp() + (
            tx.gas_limit.rlp() + (tx.to.rlp() + (
            tx.value.rlp() + (tx.input@.rlp() + (
            tx.access_list@.rlp() + (signature.y_parity.rlp() + (
            signature.r.rlp() + (signature.s.rlp()))))))))))),
        ),
{
    reveal(Eip1559Fields::fields_before);
    let fields = tx@.fields_before(signature.parity_and_scalars());
    assert(encoded =~= seq![2u8] + rlp_list(fields));
    assert(encoded.skip(1) =~= rlp_list(fields));
    lemma_is_list_of(encoded.skip(1), fields);
}

/// The fields of a dynamic-fee transaction are encoded one after the other.
pub proof fn law_eip1559_fields(
    tx: TxEip1559,
    out: &mut Vec<u8>,
    length: usize,
)
    requires
        call_ensures(Transaction::rlp_encode_fields, (&Transaction::Eip1559(tx), out), ()),
        call_ensures(Transaction::rlp_encoded_fields_length, (&Transaction::Eip1559(tx),), length),
    ensures
        final(out)@ == old(out)@ + (tx.chain_id.rlp() + (tx.nonce.rlp() + (
            tx.max_priority_fee_per_gas.rlp() + (tx.max_fee_per_gas.rlp() + (
            tx.gas_limit.rlp() + (tx.to.rlp() + (
            tx.value.rlp() + (tx.input@.rlp() + (
            tx.access_list@.rlp()))))))))),
        old(out)@.len() + length == final(out)@.len(),
{
    reveal(Eip1559Fields::fields_before);
    assert(tx.access_list@.rlp() + Seq::<u8>::empty() =~= tx.access_list@.rlp());
}

/// What is signed of a blob transaction is the type byte and after it exactly one RLP list of
/// its fields.
pub proof fn law_eip4844_signing_payload(
    tx: TxEip4844,
    out: &mut Vec<u8>,
    payload: Seq<u8>,
)
    requires
        call_ensures(Transaction::encode_for_signing, (&Transaction::Eip4844(tx), out), ()),
        payload == final(out)@.skip(old(out)@.len() as int),
        payload.len() < LENGTH_LIMIT,
    ensures
        final(out)@ == old(out)@ + payload,
        payload.len() > 0,
        payload[0] == 3,
        is_list_of(
            payload.skip(1),
            tx.chain_id.rlp() + (tx.nonce.rlp() + (
            tx.max_priority_fee_per_gas.rlp() + (tx.max_fee_per_gas.rlp() + (
            tx.gas_limit.rlp() + (tx.to.rlp() + (
            tx.value.rlp() + (tx.input@.rlp() + (
            tx.access_list@.rlp() + (tx.max_fee_per_blob_gas.rlp() + (
            tx.blob_versioned_hashes@.rlp())))))))))),
        ),
{
    reveal(Eip4844Fields::fields_before);
    let hashes = tx.blob_versioned_hashes@.rlp();
    assert(hashes + Seq::<u8>::empty() =~= hashes);
    assert(payload =~= seq![3u8] + rlp_list(tx@.fields()));
    assert(payload.skip(1) =~= rlp_list(tx@.fields()));
    lemma_is_list_of(payload.skip(1), tx@.fields());
}

/// A signed blob transaction is the type byte and after it exactly one RLP list: the fields,
/// the parity of the signature, and the two scalars.
pub proof fn law_eip4844_encoding(
    tx: TxEip4844,
    signature: Signature,
    out: &mut Vec<u8>,
    encoded: Seq<u8>,
)
    requires
        call_ensures(Transaction::eip2718_encode, (&Transaction::Eip4844(tx), &signature, out), ()),
        encoded == final(out)@.skip(old(out)@.len() as int),
        encoded.len() < LENGTH_LIMIT,
    ensures
        final(out)@ == old(out)@ + encoded,
        encoded.len() > 0,
        encoded[0] == 3,
        is_list_of(
            encoded.skip(1),
            tx.chain_id.rlp() + (tx.nonce.rlp() + (
            tx.max_priority_fee_per_gas.rlp() + (tx.max_fee_per_gas.rlp() + (
            tx.gas_limit.rlp() + (tx.to.rlp() + (
            tx.value.rlp() + (tx.input@.rlp() + (
            tx.access_list@.rlp() + (tx.max_fee_per_blob_gas.rlp() + (
            tx.blob_versioned_hashes@.rlp() + (signature.y_parity.rlp() + (
            signature.r.rlp() + (signature.s.rlp()))))))))))))),
        ),
{
    reveal(Eip4844Fields::fields_before);
    let fields = tx@.fields_before(signature.parity_and_scalars());
    assert(encoded =~= seq![3u8] + rlp_list(fields));
    assert(encoded.skip(1) =~= rlp_list(fields));
    lemma_is_list_of(encoded.skip(1), fields);
}

/// The fields of a blob transaction are encoded one after the other.
pub proof fn law_eip4844_fields(
    tx: TxEip4844,
    out: &mut Vec<u8>,
    length: usize,
)
    requires
        call_ensures(Transaction::rlp_encode_fields, (&Transaction::Eip4844(tx), out), ()),
        call_ensures(Transaction::rlp_encoded_fields_length, (&Transaction::Eip4844(tx),), length),
    ensures
        final(out)@ == old(out)@ + (tx.chain_id.rlp() + (tx.nonce.rlp() + (
            tx.max_priority_fee_per_gas.rlp() + (tx.max_fee_per_gas.rlp() + (
            tx.gas_limit.rlp() + (tx.to.rlp() + (
            tx.value.rlp() + (tx.input@.rlp() + (
            tx.access_list@.rlp() + (tx.max_fee_per_blob_gas.rlp() + (
            tx.blob_versioned_hashes@.rlp()))))))))))),
        old(out)@.len() + length == final(out)@.len(),
{
    reveal(Eip4844Fields::fields_before);
    let hashes = tx.blob_versioned_hashes@.rlp();
    assert(hashes + Seq::<u8>::empty() =~= hashes);
}

/// What is signed of a set-code transaction is the type byte and after it exactly one RLP list of
/// its fields.
pub proof fn law_eip7702_signing_payload(
    tx: TxEip7702,
    out: &mut Vec<u8>,
    payload: Seq<u8>,
)
    requires
        call_ensures(Transaction::encode_for_signing, (&Transaction::Eip7702(tx), out), ()),
        payload == final(out)@.skip(old(out)@.len() as int),
        payload.len() < LENGTH_LIMIT,
    ensures
        final(out)@ == old(out)@ + payload,
        payload.len() > 0,
        payload[0] == 4,
        is_list_of(
            payload.skip(1),
            tx.chain_id.rlp() + (tx.nonce.rlp() + (
            tx.max_priority_fee_per_gas.rlp() + (tx.max_fee_per_gas.rlp() + (
            tx.gas_limit.rlp() + (tx.to.rlp() + (
            tx.value.rlp() + (tx.input@.rlp() + (
            tx.access_list@.rlp() + (tx.authorization_list@.rlp()))))))))),
        ),
{
    reveal(Eip7702Fields::fields_before);
    assert(tx.authorization_list@.rlp() + Seq::<u8>::empty() =~= tx.authorization_list@.rlp());
    assert(payload =~= seq![4u8] + rlp_list(tx@.fields()));
    assert(payload.skip(1) =~= rlp_list(tx@.fields()));
    lemma_is_list_of(payload.skip(1), tx@.fields());
}

/// A signed set-code transaction is the type byte and after it exactly one RLP list: the fields,
/// the parity of the signature, and the two scalars.
pub proof fn law_eip7702_encoding(
    tx: TxEip7702,
    signature: Signature,
    out: &mut Vec<u8>,
    encoded: Seq<u8>,
)
    requires
        call_ensures(Transaction::eip2718_encode, (&Transaction::Eip7702(tx), &signature, out), ()),
        encoded == final(out)@.skip(old(out)@.len() as int),
        encoded.len() < LENGTH_LIMIT,
    ensures
        final(out)@ == old(out)@ + encoded,
        encoded.len() > 0,
        encoded[0] == 4,
        is_list_of(
            encoded.skip(1),
            tx.chain_id.rlp() + (tx.nonce.rlp() + (
            tx.max_priority_fee_per_gas.rlp() + (tx.max_fee_per_gas.rlp() + (
            tx.gas_limit.rlp() + (tx.to.rlp() + (
            tx.value.rlp() + (tx.input@.rlp() + (
            tx.access_list@.rlp() + (tx.authorization_list@.rlp() + (
            signature.y_parity.rlp() + (signature.r.rlp() + (
            signature.s.rlp())))))))))))),
        ),
{
    reveal(Eip7702Fields::fields_before);
    let fields = tx@.fields_before(signature.parity_and_scalars());
    assert(encoded =~= seq![4u8] + rlp_list(fields));
    assert(encoded.skip(1) =~= rlp_list(fields));
    lemma_is_list_of(encoded.skip(1), fields);
}

/// The fields of a set-code transaction are encoded one after the other.
pub proof fn law_eip7702_fields(
    tx: TxEip7702,
    out: &mut Vec<u8>,
    length: usize,
)
    requires
        call_ensures(Transaction::rlp_encode_fields, (&Transaction::Eip7702(tx), out), ()),
        call_ensures(Transaction::rlp_encoded_fields_length, (&Transaction::Eip7702(tx),), length),
    ensures
        final(out)@ == old(out)@ + (tx.chain_id.rlp() + (tx.nonce.rlp() + (
            tx.max_priority_fee_per_gas.rlp() + (tx.max_fee_per_gas.rlp() + (
            tx.gas_limit.rlp() + (tx.to.rlp() + (
            tx.value.rlp() + (tx.input@.rlp() + (
            tx.access_list@.rlp() + (tx.authorization_list@.rlp())))))))))),
        old(out)@.len() + length == final(out)@.len(),
{
    reveal(Eip7702Fields::fields_before);
    assert(tx.authorization_list@.rlp() + Seq::<u8>::empty() =~= tx.authorization_list@.rlp());
}

/// What is hashed for signing is what is signed, and its length is told.
pub proof fn law_signing_hash(
    tx: Transaction,
    out: &mut Vec<u8>,
    hash: B256,
    length: usize,
)
    requires
        call_ensures(Transaction::encode_for_signing, (&tx, out), ()),
        old(out)@.len() == 0,
        call_ensures(Transaction::signature_hash, (&tx,), hash),
        call_ensures(Transaction::payload_len_for_signature, (&tx,), length),
    ensures
        hash == keccak(final(out)@),
        length == final(out)@.len(),
{
    assert(final(out)@ =~= tx@.signing_payload());
}

/// The hash of a transaction is that of its encoding with the signature, however it is asked for,
/// and the length of the encoding is told.
pub proof fn law_transaction_hash(
    tx: Transaction,
    signature: Signature,
    ty: u8,
    out: &mut Vec<u8>,
    hash: TxHash,
    typed_hash: TxHash,
    length: usize,
    signed: Signed<Transaction>,
)
    requires
        call_ensures(Transaction::eip2718_encode, (&tx, &signature, out), ()),
        old(out)@.len() == 0,
        call_ensures(Transaction::tx_hash, (&tx, &signature), hash),
        call_ensures(Transaction::tx_hash_with_type, (&tx, &signature, ty), typed_hash),
        call_ensures(Transaction::eip2718_encoded_length, (&tx, &signature), length),
        call_ensures(Transaction::into_signed, (tx, signature), signed),
    ensures
        hash == keccak(final(out)@),
        typed_hash == hash,
        length == final(out)@.len(),
        signed.tx == tx,
        signed.hash == hash,
        !(tx is MlDsa) ==> signed.signature == signature,
        tx is MlDsa ==> signed.signature.r.as_nat() == 0 && signed.signature.s.as_nat() == 0
            && !signed.signature.y_parity,
{
    assert(final(out)@ =~= tx@.encoded(signature));
}

/// A type byte that is given beside the transaction makes no difference.
pub proof fn law_given_type_is_ignored(
    tx: Transaction,
    signature: Signature,
    ty: u8,
    a: &mut Vec<u8>,
    b: &mut Vec<u8>,
    c: &mut Vec<u8>,
    d: &mut Vec<u8>,
)
    requires
        call_ensures(Transaction::eip2718_encode, (&tx, &signature, a), ()),
        call_ensures(Transaction::eip2718_encode_with_type, (&tx, &signature, ty, b), ()),
        call_ensures(Transaction::network_encode, (&tx, &signature, c), ()),
        call_ensures(Transaction::network_encode_with_type, (&tx, &signature, ty, d), ()),
        old(a)@ == old(b)@,
        old(c)@ == old(d)@,
    ensures
        final(a)@ == final(b)@,
        final(c)@ == final(d)@,
{
}

/// Over the network a raw typed transaction goes as its encoding in an RLP string, and a raw legacy
/// or ML-DSA transaction as its encoding.
pub proof fn law_raw_network_form(
    tx: Transaction,
    signature: Signature,
    encoded: &mut Vec<u8>,
    network: &mut Vec<u8>,
)
    requires
        call_ensures(Transaction::eip2718_encode, (&tx, &signature, encoded), ()),
        call_ensures(Transaction::network_encode, (&tx, &signature, network), ()),
        old(encoded)@.len() == 0,
        old(network)@.len() == 0,
    ensures
        tx is Legacy || tx is MlDsa ==> final(network)@ == final(encoded)@,
        !(tx is Legacy) && !(tx is MlDsa) ==> final(network)@ == rlp_header(
            false,
            final(encoded)@.len(),
        ) + final(encoded)@,
{
    assert(final(encoded)@ =~= tx@.encoded(signature));
    assert(final(network)@ =~= tx@.network_encoded(signature));
}

/// The ML-DSA transaction in a transaction has the same bytes and hashes as by itself, whatever the
/// signature.
pub proof fn law_ml_dsa_in_transaction(
    tx: TxMlDsa,
    signature: Signature,
    a: &mut Vec<u8>,
    b: &mut Vec<u8>,
    c: &mut Vec<u8>,
    d: &mut Vec<u8>,
    e: &mut Vec<u8>,
    f: &mut Vec<u8>,
)
    requires
        call_ensures(Transaction::eip2718_encode, (&Transaction::MlDsa(tx), &signature, a), ()),
        call_ensures(TxMlDsa::eip2718_encode, (&tx, b), ()),
        call_ensures(Transaction::encode_for_signing, (&Transaction::MlDsa(tx), c), ()),
        call_ensures(TxMlDsa::encode_for_signing, (&tx, d), ()),
        call_ensures(Transaction::rlp_encode_fields, (&Transaction::MlDsa(tx), e), ()),
        call_ensures(TxMlDsa::rlp_encode_fields, (&tx, f), ()),
        old(a)@ == old(b)@,
        old(c)@ == old(d)@,
        old(e)@ == old(f)@,
    ensures
        final(a)@ == final(b)@,
        final(c)@ == final(d)@,
        final(e)@ == final(f)@,
{
}

} // verus!
