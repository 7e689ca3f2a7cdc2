//! The bytes of ML-DSA transactions, in terms of their fields.
//!
//! Where a law speaks of what a call appended to a buffer, the buffer is `out`, and what was
//! appended is what follows what it held before.

use vstd::prelude::*;

use crate::crypto::keccak;
use crate::primitives::{Signature, TxHash, B256};
use crate::rlp::{lemma_split_list_header, rlp_list, split_header, RlpError, RlpItem, LENGTH_LIMIT};
use crate::signed::Signed;
use crate::tx_ml_dsa::{
    law_compact_roundtrip, law_eip2718_canonical, law_eip2718_verdict, lemma_take_fields, TxMlDsa,
};
use crate::tx_type::ML_DSA_TX_TYPE_ID;

verus! {

/// The fields that are signed are encoded one after the other: chain, nonce, tip cap, fee cap, gas
/// limit, destination, value, input, access list, sender and security level.
pub proof fn law_signing_fields(
    tx: TxMlDsa,
    out: &mut Vec<u8>,
    length: usize,
)
    requires
        call_ensures(TxMlDsa::rlp_encode_signing_fields, (&tx, out), ()),
        call_ensures(TxMlDsa::rlp_signing_fields_length, (&tx,), length),
    ensures
        final(out)@ == old(out)@ + (tx.chain_id.rlp() + (tx.nonce.rlp() + (
            tx.max_priority_fee_per_gas.rlp() + (tx.max_fee_per_gas.rlp() + (
            tx.gas_limit.rlp() + (tx.to.rlp() + (
            tx.value.rlp() + (tx.input@.rlp() + (
            tx.access_list@.rlp() + (tx.sender.rlp() + (
            tx.ml_dsa_level.rlp()))))))))))),
        old(out)@.len() + length == final(out)@.len(),
{
    assert(tx.ml_dsa_level.rlp() + Seq::<u8>::empty() =~= tx.ml_dsa_level.rlp());
}

/// All fields are encoded one after the other: those that are signed, the public key, and the
/// signature.
pub proof fn law_all_fields(
    tx: TxMlDsa,
    out: &mut Vec<u8>,
    length: usize,
)
    requires
        call_ensures(TxMlDsa::rlp_encode_fields, (&tx, out), ()),
        call_ensures(TxMlDsa::rlp_encoded_fields_length, (&tx,), length),
    ensures
        final(out)@ == old(out)@ + (tx.chain_id.rlp() + (tx.nonce.rlp() + (
            tx.max_priority_fee_per_gas.rlp() + (tx.max_fee_per_gas.rlp() + (
            tx.gas_limit.rlp() + (tx.to.rlp() + (
            tx.value.rlp() + (tx.input@.rlp() + (
            tx.access_list@.rlp() + (tx.sender.rlp() + (
            tx.ml_dsa_level.rlp() + (tx.pubkey@.rlp() + (
            tx.ml_dsa_signature@.rlp()))))))))))))),
        old(out)@.len() + length == final(out)@.len(),
{
}

/// What is signed is a type byte `0x70` and after it exactly one RLP list, of the fields that are
/// signed.
pub proof fn law_signing_payload_is_one_list(
    tx: TxMlDsa,
    out: &mut Vec<u8>,
    payload: Seq<u8>,
)
    requires
        call_ensures(TxMlDsa::encode_for_signing, (&tx, out), ()),
        payload == final(out)@.skip(old(out)@.len() as int),
        payload.len() < LENGTH_LIMIT,
    ensures
        final(out)@ == old(out)@ + payload,
        payload.len() > 0,
        payload[0] == 0x70,
        split_header(payload.skip(1)) matches Some((list, n, rest)) && list && n == rest.len()
            && rest == tx.chain_id.rlp() + (tx.nonce.rlp() + (
            tx.max_priority_fee_per_gas.rlp() + (tx.max_fee_per_gas.rlp() + (
            tx.gas_limit.rlp() + (tx.to.rlp() + (
            tx.value.rlp() + (tx.input@.rlp() + (
            tx.access_list@.rlp() + (tx.sender.rlp() + (
            tx.ml_dsa_level.rlp())))))))))),
{
    let fields = tx@.signing_fields();
    assert(tx.ml_dsa_level.rlp() + Seq::<u8>::empty() =~= tx.ml_dsa_level.rlp());
    assert(payload =~= seq![0x70u8] + rlp_list(fields));
    assert(payload.skip(1) =~= rlp_list(fields) + Seq::<u8>::empty());
    assert(fields + Seq::<u8>::empty() =~= fields);
    lemma_split_list_header(fields, Seq::empty());
}

/// What is hashed for signing is what is signed, and its length is told.
pub proof fn law_signature_hash(
    tx: TxMlDsa,
    out: &mut Vec<u8>,
    hash: B256,
    length: usize,
)
    requires
        call_ensures(TxMlDsa::encode_for_signing, (&tx, out), ()),
        old(out)@.len() == 0,
        call_ensures(TxMlDsa::signature_hash, (&tx,), hash),
        call_ensures(TxMlDsa::payload_len_for_signature, (&tx,), length),
    ensures
        hash == keccak(final(out)@),
        length == final(out)@.len(),
{
    assert(final(out)@ =~= tx@.signing_payload());
}

/// The encoding is a type byte `0x70` and after it exactly one RLP list, of all fields.
pub proof fn law_encoding_is_one_list(
    tx: TxMlDsa,
    out: &mut Vec<u8>,
    encoded: Seq<u8>,
)
    requires
        call_ensures(TxMlDsa::eip2718_encode, (&tx, out), ()),
        encoded == final(out)@.skip(old(out)@.len() as int),
        encoded.len() < LENGTH_LIMIT,
    ensures
        final(out)@ == old(out)@ + encoded,
        encoded.len() > 0,
        encoded[0] == 0x70,
        split_header(encoded.skip(1)) matches Some((list, n, rest)) && list && n == rest.len()
            && rest == tx.chain_id.rlp() + (tx.nonce.rlp() + (
            tx.max_priority_fee_per_gas.rlp() + (tx.max_fee_per_gas.rlp() + (
            tx.gas_limit.rlp() + (tx.to.rlp() + (
            tx.value.rlp() + (tx.input@.rlp() + (
            tx.access_list@.rlp() + (tx.sender.rlp() + (
            tx.ml_dsa_level.rlp() + (tx.pubkey@.rlp() + (
            tx.ml_dsa_signature@.rlp())))))))))))),
{
    let fields = tx@.all_fields();
    assert(encoded =~= seq![0x70u8] + rlp_list(fields));
    assert(encoded.skip(1) =~= rlp_list(fields) + Seq::<u8>::empty());
    assert(fields + Seq::<u8>::empty() =~= fields);
    lemma_split_list_header(fields, Seq::empty());
}

/// The hash of a transaction is that of its encoding, and the length of the encoding is told.
pub proof fn law_ml_dsa_hash(
    tx: TxMlDsa,
    out: &mut Vec<u8>,
    hash: TxHash,
    length: usize,
)
    requires
        call_ensures(TxMlDsa::eip2718_encode, (&tx, out), ()),
        old(out)@.len() == 0,
        call_ensures(TxMlDsa::tx_hash, (&tx,), hash),
        call_ensures(TxMlDsa::eip2718_encoded_length, (&tx,), length),
    ensures
        hash == keccak(final(out)@),
        length == final(out)@.len(),
{
    assert(final(out)@ =~= tx@.encoded());
}

/// Whether `back` holds what `tx` holds.
pub open spec fn same_fields(back: TxMlDsa, tx: TxMlDsa) -> bool {
    &&& back.chain_id == tx.chain_id
    &&& back.nonce == tx.nonce
    &&& back.max_priority_fee_per_gas == tx.max_priority_fee_per_gas
    &&& back.max_fee_per_gas == tx.max_fee_per_gas
    &&& back.gas_limit == tx.gas_limit
    &&& back.to == tx.to
    &&& back.value == tx.value
    &&& back.input@ == tx.input@
    &&& back.access_list@ == tx.access_list@
    &&& back.sender == tx.sender
    &&& back.ml_dsa_level == tx.ml_dsa_level
    &&& back.pubkey@ == tx.pubkey@
    &&& back.ml_dsa_signature@ == tx.ml_dsa_signature@
}

/// Whether a public key of `pubkey` bytes and a signature of `signature` bytes have the lengths
/// that FIPS 204 gives for the security level; the public key may be left out.
pub open spec fn fips_204(level: u8, pubkey: nat, signature: nat) -> bool {
    ||| level == 44 && (pubkey == 0 || pubkey == 1312) && signature == 2420
    ||| level == 65 && (pubkey == 0 || pubkey == 1952) && signature == 3309
    ||| level == 87 && (pubkey == 0 || pubkey == 2592) && signature == 4627
}

/// Whether the key material of a transaction has the lengths of its security level.
pub open spec fn fips_204_lengths(tx: TxMlDsa) -> bool {
    fips_204(tx.ml_dsa_level, tx.pubkey@.len(), tx.ml_dsa_signature@.len())
}

/// Decoding what follows the type byte of an encoding gives the transaction back and leaves what
/// came after it, exactly where the key material has the lengths of its security level. Otherwise
/// an unsupported level is named first, a wrong public key length next, a wrong signature length
/// last.
pub proof fn law_ml_dsa_decoding(
    tx: TxMlDsa,
    out: &mut Vec<u8>,
    rest: Seq<u8>,
    buf: &mut &[u8],
    result: Result<TxMlDsa, RlpError>,
)
    requires
        call_ensures(TxMlDsa::eip2718_encode, (&tx, out), ()),
        old(out)@.len() == 0,
        old(buf)@ == final(out)@.skip(1) + rest,
        final(out)@.len() + rest.len() < LENGTH_LIMIT,
        call_ensures(TxMlDsa::eip2718_decode, (buf,), result),
    ensures
        fips_204_lengths(tx) ==> result is Ok && same_fields(result->Ok_0, tx) && final(buf)@
            == rest,
        !fips_204_lengths(tx) ==> result == Err::<TxMlDsa, RlpError>(
            RlpError::Custom(
                if tx.ml_dsa_level != 44 && tx.ml_dsa_level != 65 && tx.ml_dsa_level != 87 {
                    "unsupported ML-DSA security level"
                } else if tx.pubkey@.len() != 0 && tx.pubkey@.len() != if tx.ml_dsa_level == 44 {
                    1312int
                } else if tx.ml_dsa_level == 65 {
                    1952
                } else {
                    2592
                } {
                    "invalid ML-DSA public key length"
                } else {
                    "invalid ML-DSA signature length"
                },
            ),
        ),
{
    assert(final(out)@ =~= tx@.encoded());
    assert((tx@.encoded() + rest).skip(1) =~= final(out)@.skip(1) + rest);
    law_eip2718_verdict(tx@, rest);
}

/// Key material is accepted exactly where it has the lengths of its security level.
pub proof fn law_key_material(
    tx: TxMlDsa,
    result: Result<(), RlpError>,
)
    requires
        call_ensures(TxMlDsa::validate_key_material_shape, (&tx,), result),
    ensures
        result is Ok <==> fips_204_lengths(tx),
        tx.ml_dsa_level != 44 && tx.ml_dsa_level != 65 && tx.ml_dsa_level != 87 ==> result == Err::<
            (),
            RlpError,
        >(RlpError::Custom("unsupported ML-DSA security level")),
{
}

/// The lengths of keys and signatures are those of FIPS 204.
pub proof fn law_key_lengths(level: u8, pubkey: Option<usize>, signature: Option<usize>)
    requires
        call_ensures(crate::tx_ml_dsa::expected_pubkey_len, (level,), pubkey),
        call_ensures(crate::tx_ml_dsa::expected_signature_len, (level,), signature),
    ensures
        level == 44 ==> pubkey == Some(1312usize) && signature == Some(2420usize),
        level == 65 ==> pubkey == Some(1952usize) && signature == Some(3309usize),
        level == 87 ==> pubkey == Some(2592usize) && signature == Some(4627usize),
        level != 44 && level != 65 && level != 87 ==> pubkey is None && signature is None,
{
}

/// Signing adds the given outer signature and the transaction's own hash.
pub proof fn law_ml_dsa_into_signed(
    tx: TxMlDsa,
    signature: Signature,
    hash: TxHash,
    signed: Signed<TxMlDsa>,
)
    requires
        call_ensures(TxMlDsa::into_signed, (tx, signature), signed),
        call_ensures(TxMlDsa::tx_hash, (&tx,), hash),
    ensures
        signed.tx == tx,
        signed.signature == signature,
        signed.hash == hash,
{
}

/// In storage an ML-DSA transaction is the one RLP list of all its fields, which is read back.
pub proof fn law_ml_dsa_storage(
    tx: TxMlDsa,
    buf: &mut Vec<u8>,
    n: usize,
    stored: &[u8],
    rest: Seq<u8>,
    len: usize,
    read: (TxMlDsa, &[u8]),
)
    requires
        call_ensures(TxMlDsa::to_compact, (&tx, buf), n),
        old(buf)@.len() == 0,
        stored@ == final(buf)@ + rest,
        stored@.len() < LENGTH_LIMIT,
        fips_204_lengths(tx),
        call_ensures(TxMlDsa::from_compact, (stored, len), read),
    ensures
        n == final(buf)@.len(),
        split_header(final(buf)@) matches Some((list, m, fields)) && list && m == fields.len()
            && fields == tx.chain_id.rlp() + (tx.nonce.rlp() + (
            tx.max_priority_fee_per_gas.rlp() + (tx.max_fee_per_gas.rlp() + (
            tx.gas_limit.rlp() + (tx.to.rlp() + (
            tx.value.rlp() + (tx.input@.rlp() + (
            tx.access_list@.rlp() + (tx.sender.rlp() + (
            tx.ml_dsa_level.rlp() + (tx.pubkey@.rlp() + (
            tx.ml_dsa_signature@.rlp())))))))))))),
        same_fields(read.0, tx),
        read.1@ == rest,
{
    let fields = tx@.all_fields();
    assert(final(buf)@ =~= rlp_list(fields) + Seq::<u8>::empty());
    assert(fields + Seq::<u8>::empty() =~= fields);
    lemma_split_list_header(fields, Seq::empty());
    assert(final(buf)@ =~= rlp_list(fields));
    law_compact_roundtrip(tx@, rest);
}

/// Transactions are equal exactly where they hold the same, and a copy holds the same.
pub proof fn law_ml_dsa_equality(
    a: TxMlDsa,
    b: TxMlDsa,
    equal: bool,
    copy: TxMlDsa,
)
    requires
        call_ensures(<TxMlDsa as PartialEq>::eq, (&a, &b), equal),
        call_ensures(<TxMlDsa as Clone>::clone, (&a,), copy),
    ensures
        equal == same_fields(a, b),
        same_fields(copy, a),
{
    if same_fields(a, b) {
        assert(a@ =~= b@);
    }
}

/// Decoding succeeds on nothing but encodings: what was read is the encoding of what came out,
/// without its type byte, and the key material has the lengths of its security level.
pub proof fn law_ml_dsa_decoding_is_canonical(
    buf: &mut &[u8],
    tx: TxMlDsa,
    out: &mut Vec<u8>,
)
    requires
        call_ensures(TxMlDsa::eip2718_decode, (buf,), Ok::<TxMlDsa, RlpError>(tx)),
        call_ensures(TxMlDsa::eip2718_encode, (&tx, out), ()),
        old(out)@.len() == 0,
    ensures
        old(buf)@ == final(out)@.skip(1) + final(buf)@,
        fips_204_lengths(tx),
{
    let s = old(buf)@;
    law_eip2718_canonical(s);
    assert(final(out)@ =~= tx@.encoded());
    assert((seq![ML_DSA_TX_TYPE_ID] + s).skip(1) =~= s);
    assert((tx@.encoded() + final(buf)@).skip(1) =~= tx@.encoded().skip(1) + final(buf)@);
}

/// What follows the type byte is one list and nothing else: an empty input and a string are
/// refused, and so is a list whose fields end before or after it does.
pub proof fn law_ml_dsa_refusals(
    buf: &mut &[u8],
    result: Result<TxMlDsa, RlpError>,
    fields: &mut &[u8],
    inner: Result<TxMlDsa, RlpError>,
)
    requires
        call_ensures(TxMlDsa::eip2718_decode, (buf,), result),
        split_header(old(buf)@) matches Some((_, _, rest)) ==> old(fields)@ == rest,
        call_ensures(TxMlDsa::rlp_decode_fields, (fields,), inner),
    ensures
        split_header(old(buf)@) is None ==> result is Err,
        split_header(old(buf)@) matches Some((list, n, rest)) ==> {
            &&& !list ==> result == Err::<TxMlDsa, RlpError>(RlpError::UnexpectedString)
            &&& list ==> (inner matches Err(error) ==> result == Err::<TxMlDsa, RlpError>(error))
            &&& list && inner is Ok && rest.len() - final(fields)@.len() != n ==> result == Err::<
                TxMlDsa,
                RlpError,
            >(RlpError::UnexpectedLength)
            &&& list && inner is Ok && rest.len() - final(fields)@.len() == n ==> result is Ok
                && same_fields(result->Ok_0, inner->Ok_0) && final(buf)@ == final(fields)@
        },
{
}

/// The fields of a transaction, one after the other, are read back, exactly where the key material
/// has the lengths of its security level.
pub proof fn law_fields_are_read_back(
    tx: TxMlDsa,
    out: &mut Vec<u8>,
    rest: Seq<u8>,
    buf: &mut &[u8],
    result: Result<TxMlDsa, RlpError>,
)
    requires
        call_ensures(TxMlDsa::rlp_encode_fields, (&tx, out), ()),
        old(out)@.len() == 0,
        old(buf)@ == final(out)@ + rest,
        old(buf)@.len() < LENGTH_LIMIT,
        call_ensures(TxMlDsa::rlp_decode_fields, (buf,), result),
    ensures
        result is Ok <==> fips_204_lengths(tx),
        result is Ok ==> same_fields(result->Ok_0, tx) && final(buf)@ == rest,
{
    assert(final(out)@ =~= tx@.all_fields());
    lemma_take_fields(tx@, rest);
}

} // verus!
