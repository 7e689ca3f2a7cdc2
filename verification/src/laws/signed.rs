//! Signed transactions: what they are made of, when they are the same, and their bytes.

use vstd::prelude::*;

use crate::crypto::keccak;
use crate::envelope_codec::{
    law_envelope_canonical, law_envelope_roundtrip, law_network_roundtrip, lemma_legacy_parts,
    lemma_typed_parts,
};
use crate::laws::ml_dsa::fips_204;
use crate::primitives::{Signature, TxHash, B256};
use crate::rlp::{rlp_header, split_header, RlpError, LENGTH_LIMIT};
use crate::signed::Signed;
use crate::transaction::{Transaction, TxFields};
use crate::transaction_signed::{SignedTx, TransactionSigned};
use crate::tx_ecdsa::TxEip4844;
use crate::tx_type::Eip2718Error;

verus! {

/// Whether a signature is all zero.
pub open spec fn is_zero(signature: Signature) -> bool {
    signature.r.as_nat() == 0 && signature.s.as_nat() == 0 && !signature.y_parity
}

/// Whether the decoders accept the key material of a transaction, which only ML-DSA transactions
/// have.
pub open spec fn acceptable(tx: TxFields) -> bool {
    tx matches TxFields::MlDsa(tx) ==> fips_204(
        tx.ml_dsa_level,
        tx.pubkey.len(),
        tx.ml_dsa_signature.len(),
    )
}

/// A signed transaction keeps the transaction, the signature and the hash that it is made of. Of an
/// ML-DSA transaction it keeps the transaction alone: the signature is zero, and the hash is that
/// of the encoding.
pub proof fn law_signed_parts(
    tx: Transaction,
    signature: Signature,
    hash: B256,
    signed: TransactionSigned,
    parts: (Transaction, Signature, B256),
    out: &mut Vec<u8>,
)
    requires
        call_ensures(TransactionSigned::new, (tx, signature, hash), signed),
        call_ensures(TransactionSigned::into_parts, (signed,), parts),
        call_ensures(Transaction::eip2718_encode, (&tx, &signature, out), ()),
        old(out)@.len() == 0,
    ensures
        parts.0@ == tx@,
        !(tx is MlDsa) ==> parts.1 == signature && parts.2 == hash,
        tx is MlDsa ==> is_zero(parts.1) && parts.2 == keccak(final(out)@),
{
    assert(final(out)@ =~= tx@.encoded(signature));
}

/// Where no hash is given, it is that of the encoding with the signature.
pub proof fn law_unhashed_parts(
    tx: Transaction,
    signature: Signature,
    signed: TransactionSigned,
    parts: (Transaction, Signature, B256),
    out: &mut Vec<u8>,
)
    requires
        call_ensures(TransactionSigned::new_unhashed, (tx, signature), signed),
        call_ensures(TransactionSigned::into_parts, (signed,), parts),
        call_ensures(Transaction::eip2718_encode, (&tx, &signature, out), ()),
        old(out)@.len() == 0,
    ensures
        parts.0@ == tx@,
        !(tx is MlDsa) ==> parts.1 == signature,
        tx is MlDsa ==> is_zero(parts.1),
        parts.2 == keccak(final(out)@),
{
    assert(final(out)@ =~= tx@.encoded(signature));
}

/// The hash is the same however it is asked for, and so are transaction and signature.
pub proof fn law_signed_views_agree(
    signed: TransactionSigned,
    a: B256,
    b: TxHash,
    c: B256,
    transaction: &Transaction,
    signature: &Signature,
    parts: (Transaction, Signature, B256),
)
    requires
        call_ensures(TransactionSigned::hash, (&signed,), a),
        call_ensures(TransactionSigned::tx_hash, (&signed,), b),
        call_ensures(TransactionSigned::trie_hash, (&signed,), c),
        call_ensures(TransactionSigned::transaction, (&signed,), transaction),
        call_ensures(TransactionSigned::signature, (&signed,), signature),
        call_ensures(TransactionSigned::into_parts, (signed,), parts),
    ensures
        a == parts.2,
        b == parts.2,
        c == parts.2,
        transaction@ == parts.0@,
        *signature == parts.1,
{
}

/// Only a blob transaction is handed out as one, with its signature and hash.
pub proof fn law_as_eip4844(
    signed: TransactionSigned,
    hash: B256,
    blob: Option<Signed<TxEip4844>>,
)
    requires
        call_ensures(TransactionSigned::hash, (&signed,), hash),
        call_ensures(TransactionSigned::as_eip4844, (&signed,), blob),
    ensures
        blob is Some <==> signed@.transaction is Eip4844,
        blob matches Some(blob) ==> signed@.transaction == TxFields::Eip4844(blob.tx@)
            && blob.signature == signed@.signature && blob.hash == hash,
{
}

/// Every type but legacy shows its byte.
pub proof fn law_type_flag(
    signed: TransactionSigned,
    flag: Option<u8>,
)
    requires
        call_ensures(TransactionSigned::type_flag, (&signed,), flag),
    ensures
        match signed@.transaction {
            TxFields::Legacy(_) => flag is None,
            TxFields::Eip2930(_) => flag == Some(1u8),
            TxFields::Eip1559(_) => flag == Some(2u8),
            TxFields::Eip4844(_) => flag == Some(3u8),
            TxFields::Eip7702(_) => flag == Some(4u8),
            TxFields::MlDsa(_) => flag == Some(0x70u8),
        },
{
}

/// A signed transaction is encoded as the transaction in it with its signature.
pub proof fn law_signed_encoding(
    signed: TransactionSigned,
    tx: Transaction,
    signature: Signature,
    a: &mut Vec<u8>,
    b: &mut Vec<u8>,
    c: Vec<u8>,
    length: usize,
)
    requires
        signed@.transaction == tx@,
        signed@.signature == signature,
        call_ensures(Transaction::eip2718_encode, (&tx, &signature, a), ()),
        call_ensures(TransactionSigned::encode_2718, (&signed, b), ()),
        call_ensures(TransactionSigned::encoded_2718, (&signed,), c),
        call_ensures(TransactionSigned::encode_2718_len, (&signed,), length),
        old(a)@ == old(b)@,
    ensures
        final(a)@ == final(b)@,
        final(a)@ == old(a)@ + c@,
        length == c@.len(),
{
}

/// Signed transactions are the same exactly where transaction, signature and hash are; the
/// signature of an ML-DSA transaction does not count.
pub proof fn law_signed_equality(
    a: TransactionSigned,
    b: TransactionSigned,
    same: bool,
    x: B256,
    y: B256,
)
    requires
        call_ensures(<TransactionSigned as PartialEq>::eq, (&a, &b), same),
        call_ensures(TransactionSigned::hash, (&a,), x),
        call_ensures(TransactionSigned::hash, (&b,), y),
    ensures
        same == (a@.transaction == b@.transaction && x == y && (a@.transaction is MlDsa
            || a@.signature == b@.signature)),
{
}

/// A copy is the same as what was copied.
pub proof fn law_signed_copy(
    a: TransactionSigned,
    b: TransactionSigned,
    tx: Transaction,
    copy: Transaction,
    equal: bool,
)
    requires
        call_ensures(<TransactionSigned as Clone>::clone, (&a,), b),
        call_ensures(<Transaction as Clone>::clone, (&tx,), copy),
        call_ensures(<Transaction as PartialEq>::eq, (&tx, &copy), equal),
    ensures
        a@.transaction == b@.transaction,
        a@.signature == b@.signature,
        a@.hash == b@.hash,
        copy@ == tx@,
        equal,
{
}

/// Transactions are equal exactly where they are of one type and hold the same.
pub proof fn law_transaction_equality(
    a: Transaction,
    b: Transaction,
    equal: bool,
)
    requires
        call_ensures(<Transaction as PartialEq>::eq, (&a, &b), equal),
    ensures
        equal == match (a, b) {
            (Transaction::Legacy(a), Transaction::Legacy(b)) => a@ == b@,
            (Transaction::Eip2930(a), Transaction::Eip2930(b)) => a@ == b@,
            (Transaction::Eip1559(a), Transaction::Eip1559(b)) => a@ == b@,
            (Transaction::Eip4844(a), Transaction::Eip4844(b)) => a@ == b@,
            (Transaction::Eip7702(a), Transaction::Eip7702(b)) => a@ == b@,
            (Transaction::MlDsa(a), Transaction::MlDsa(b)) => a@ == b@,
            _ => false,
        },
{
}

/// Hash tables are fed the signature, which is zero for ML-DSA, and the transaction; equal values
/// are fed alike.
pub proof fn law_hash_key(
    a: TransactionSigned,
    b: TransactionSigned,
    x: (Signature, &Transaction),
    y: (Signature, &Transaction),
    same: bool,
)
    requires
        call_ensures(TransactionSigned::hash_key, (&a,), x),
        call_ensures(TransactionSigned::hash_key, (&b,), y),
        call_ensures(<TransactionSigned as PartialEq>::eq, (&a, &b), same),
    ensures
        x.1@ == a@.transaction,
        !(a@.transaction is MlDsa) ==> x.0 == a@.signature,
        a@.transaction is MlDsa ==> is_zero(x.0),
        same ==> x.0 == y.0 && x.1@ == y.1@,
{
}

/// Decoding an encoding gives the signed transaction back, with its hash open, and leaves what came
/// after it.
pub proof fn law_signed_decoding(
    signed: TransactionSigned,
    out: &mut Vec<u8>,
    rest: Seq<u8>,
    buf: &mut &[u8],
    result: Result<TransactionSigned, Eip2718Error>,
)
    requires
        signed@.transaction is MlDsa ==> is_zero(signed@.signature),
        acceptable(signed@.transaction),
        call_ensures(TransactionSigned::encode_2718, (&signed, out), ()),
        old(out)@.len() == 0,
        old(buf)@ == final(out)@ + rest,
        old(buf)@.len() < LENGTH_LIMIT,
        call_ensures(TransactionSigned::decode_2718, (buf,), result),
    ensures
        result is Ok,
        result->Ok_0@.transaction == signed@.transaction,
        result->Ok_0@.signature == signed@.signature,
        result->Ok_0@.hash is None,
        final(buf)@ == rest,
{
    let tx = SignedTx { hash: None, ..signed@ };
    assert(final(out)@ =~= tx.encoded());
    law_envelope_roundtrip(tx, rest);
}

/// The network form of a signed transaction is its encoding, in an RLP string unless it is legacy.
pub proof fn law_signed_network_form(
    signed: TransactionSigned,
    a: &mut Vec<u8>,
    b: &mut Vec<u8>,
    c: &mut Vec<u8>,
    network_len: usize,
    length: usize,
)
    requires
        call_ensures(TransactionSigned::encode_2718, (&signed, a), ()),
        call_ensures(TransactionSigned::network_encode, (&signed, b), ()),
        call_ensures(TransactionSigned::encode, (&signed, c), ()),
        call_ensures(TransactionSigned::network_len, (&signed,), network_len),
        call_ensures(TransactionSigned::length, (&signed,), length),
        old(a)@.len() == 0,
        old(b)@.len() == 0,
        old(c)@.len() == 0,
    ensures
        signed@.transaction is Legacy ==> final(b)@ == final(a)@,
        !(signed@.transaction is Legacy) ==> final(b)@ == rlp_header(false, final(a)@.len())
            + final(a)@,
        final(c)@ == final(b)@,
        network_len == final(b)@.len(),
        length == final(b)@.len(),
{
    assert(final(a)@ =~= signed@.encoded());
    assert(final(b)@ =~= signed@.network());
    assert(final(c)@ =~= signed@.network());
}

/// Decoding a network form gives the signed transaction back, with its hash open, and leaves what
/// came after it.
pub proof fn law_signed_network_decoding(
    signed: TransactionSigned,
    out: &mut Vec<u8>,
    rest: Seq<u8>,
    a: &mut &[u8],
    b: &mut &[u8],
    result: Result<TransactionSigned, Eip2718Error>,
    decoded: Result<TransactionSigned, RlpError>,
)
    requires
        signed@.transaction is MlDsa ==> is_zero(signed@.signature),
        acceptable(signed@.transaction),
        call_ensures(TransactionSigned::network_encode, (&signed, out), ()),
        old(out)@.len() == 0,
        old(a)@ == final(out)@ + rest,
        old(b)@ == final(out)@ + rest,
        old(a)@.len() < LENGTH_LIMIT,
        call_ensures(TransactionSigned::network_decode, (a,), result),
        call_ensures(TransactionSigned::decode, (b,), decoded),
    ensures
        result is Ok,
        result->Ok_0@.transaction == signed@.transaction,
        result->Ok_0@.signature == signed@.signature,
        result->Ok_0@.hash is None,
        final(a)@ == rest,
        decoded is Ok,
        decoded->Ok_0@ == result->Ok_0@,
        final(b)@ == rest,
{
    let tx = SignedTx { hash: None, ..signed@ };
    assert(final(out)@ =~= tx.network());
    law_network_roundtrip(tx, rest);
}

/// What is decoded was encoded: the bytes that were taken off are the encoding of what came out,
/// and its hash is theirs. No ML-DSA transaction with key material of a wrong length comes out.
pub proof fn law_decoding_takes_an_encoding(
    buf: &mut &[u8],
    decoded: TransactionSigned,
    out: &mut Vec<u8>,
    hash: B256,
)
    requires
        call_ensures(
            TransactionSigned::decode_2718,
            (buf,),
            Ok::<TransactionSigned, Eip2718Error>(decoded),
        ),
        call_ensures(TransactionSigned::encode_2718, (&decoded, out), ()),
        call_ensures(TransactionSigned::hash, (&decoded,), hash),
        old(out)@.len() == 0,
    ensures
        old(buf)@ == final(out)@ + final(buf)@,
        hash == keccak(final(out)@),
        acceptable(decoded@.transaction),
        decoded@.transaction is MlDsa ==> is_zero(decoded@.signature),
{
    let s = old(buf)@;
    assert(final(out)@ =~= decoded@.encoded());
    law_envelope_canonical(s);
    if s.len() > 0 && s[0] <= 0x7f {
        lemma_typed_parts(s[0], s.skip(1));
    } else {
        lemma_legacy_parts(s);
    }
}

/// An envelope starts with its type byte where that is at most `0x7f`, and what follows is decoded
/// as that type asks; anything else is a legacy transaction.
pub proof fn law_envelope_dispatch(
    a: &mut &[u8],
    b: &mut &[u8],
    c: &mut &[u8],
    whole: Result<TransactionSigned, Eip2718Error>,
    typed: Result<TransactionSigned, Eip2718Error>,
    legacy: Result<TransactionSigned, Eip2718Error>,
)
    requires
        call_ensures(TransactionSigned::decode_2718, (a,), whole),
        call_ensures(TransactionSigned::fallback_decode, (c,), legacy),
        old(c)@ == old(a)@,
        old(a)@.len() > 0 && old(a)@[0] <= 0x7f ==> old(b)@ == old(a)@.skip(1) && call_ensures(
            TransactionSigned::typed_decode,
            (old(a)@[0], b),
            typed,
        ),
    ensures
        old(a)@.len() > 0 && old(a)@[0] <= 0x7f ==> same_outcome(
            whole,
            final(a)@,
            typed,
            final(b)@,
        ),
        !(old(a)@.len() > 0 && old(a)@[0] <= 0x7f) ==> same_outcome(
            whole,
            final(a)@,
            legacy,
            final(c)@,
        ),
{
}

/// Whether two decoders came to the same: the same error, or the same transaction with the same
/// bytes left.
pub open spec fn same_outcome(
    a: Result<TransactionSigned, Eip2718Error>,
    left_a: Seq<u8>,
    b: Result<TransactionSigned, Eip2718Error>,
    left_b: Seq<u8>,
) -> bool {
    match (a, b) {
        (Ok(x), Ok(y)) => x@ == y@ && left_a == left_b,
        (Err(x), Err(y)) => x == y,
        _ => false,
    }
}

/// A network form that starts with a list is a legacy transaction; a string holds an envelope.
pub proof fn law_network_dispatch(
    a: &mut &[u8],
    b: &mut &[u8],
    c: &mut &[u8],
    whole: Result<TransactionSigned, Eip2718Error>,
    typed: Result<TransactionSigned, Eip2718Error>,
    legacy: Result<TransactionSigned, Eip2718Error>,
    list: bool,
    n: nat,
    payload: Seq<u8>,
)
    requires
        call_ensures(TransactionSigned::network_decode, (a,), whole),
        split_header(old(a)@) == Some((list, n, payload)),
        list ==> old(c)@ == old(a)@ && call_ensures(
            TransactionSigned::fallback_decode,
            (c,),
            legacy,
        ),
        !list && payload.len() > 0 ==> old(b)@ == payload.skip(1) && call_ensures(
            TransactionSigned::typed_decode,
            (payload[0], b),
            typed,
        ),
    ensures
        list ==> same_outcome(whole, final(a)@, legacy, final(c)@),
        !list && payload.len() > 0 && payload[0] <= 0x80 ==> same_outcome(
            whole,
            final(a)@,
            typed,
            final(b)@,
        ),
        !list && payload.len() == 0 ==> whole == Err::<TransactionSigned, Eip2718Error>(
            Eip2718Error::RlpError(RlpError::InputTooShort),
        ),
{
}

/// A type byte without a decoder is refused by name, and so is whatever is wrong with an ML-DSA
/// transaction; no RLP error comes out of either. Of Ethereum's own types only RLP errors come out.
pub proof fn law_typed_refusals(
    ty: u8,
    buf: &mut &[u8],
    result: Result<TransactionSigned, Eip2718Error>,
)
    requires
        call_ensures(TransactionSigned::typed_decode, (ty, buf), result),
    ensures
        ty == 0 || 4 < ty && ty != 0x70 ==> result == Err::<TransactionSigned, Eip2718Error>(
            Eip2718Error::UnexpectedType(ty),
        ) && final(buf)@ == old(buf)@,
        ty == 0x70 && result is Err ==> result == Err::<TransactionSigned, Eip2718Error>(
            Eip2718Error::UnexpectedType(0x70),
        ),
        1 <= ty <= 4 && result is Err ==> result->Err_0 is RlpError,
        result matches Ok(tx) ==> match tx@.transaction {
            TxFields::Legacy(_) => false,
            TxFields::Eip2930(_) => ty == 1,
            TxFields::Eip1559(_) => ty == 2,
            TxFields::Eip4844(_) => ty == 3,
            TxFields::Eip7702(_) => ty == 4,
            TxFields::MlDsa(_) => ty == 0x70,
        },
{
}

/// As RLP, a signed transaction is decoded as from its network form; a refused type byte is told in
/// words.
pub proof fn law_rlp_decoding(
    a: &mut &[u8],
    b: &mut &[u8],
    network: Result<TransactionSigned, Eip2718Error>,
    rlp: Result<TransactionSigned, RlpError>,
)
    requires
        call_ensures(TransactionSigned::network_decode, (a,), network),
        call_ensures(TransactionSigned::decode, (b,), rlp),
        old(a)@ == old(b)@,
    ensures
        network matches Ok(tx) ==> rlp is Ok && rlp->Ok_0@ == tx@ && final(a)@ == final(b)@,
        network matches Err(Eip2718Error::RlpError(error)) ==> rlp == Err::<
            TransactionSigned,
            RlpError,
        >(error),
        network matches Err(Eip2718Error::UnexpectedType(_)) ==> rlp == Err::<
            TransactionSigned,
            RlpError,
        >(RlpError::Custom("Unexpected type flag")),
{
}

/// Without a type byte there are only legacy transactions, and only RLP errors.
pub proof fn law_legacy_refusals(
    buf: &mut &[u8],
    result: Result<TransactionSigned, Eip2718Error>,
)
    requires
        call_ensures(TransactionSigned::fallback_decode, (buf,), result),
    ensures
        result matches Ok(tx) ==> tx@.transaction is Legacy,
        result matches Err(error) ==> error is RlpError,
{
}

/// An envelope with a type byte that has no decoder is refused by name, and nothing but that byte
/// is taken off.
pub proof fn law_refused_envelope(
    buf: &mut &[u8],
    result: Result<TransactionSigned, Eip2718Error>,
    byte: u8,
    rest: Seq<u8>,
)
    requires
        call_ensures(TransactionSigned::decode_2718, (buf,), result),
        old(buf)@ == seq![byte] + rest,
        byte == 0 || 4 < byte <= 0x7f && byte != 0x70,
    ensures
        result == Err::<TransactionSigned, Eip2718Error>(Eip2718Error::UnexpectedType(byte)),
        final(buf)@ == rest,
{
    assert(old(buf)@.skip(1) =~= rest);
}

/// Of a network form that no decoder sees, everything is left where it starts with no header,
/// nothing where nothing follows the header of a string, and what follows the type byte where that
/// has no decoder.
pub proof fn law_refused_network_form(
    a: &mut &[u8],
    b: &mut &[u8],
    result: Result<TransactionSigned, Eip2718Error>,
    rlp: Result<TransactionSigned, RlpError>,
)
    requires
        call_ensures(TransactionSigned::network_decode, (a,), result),
        call_ensures(TransactionSigned::decode, (b,), rlp),
        old(a)@ == old(b)@,
    ensures
        split_header(old(a)@) is None ==> result is Err && result->Err_0 is RlpError && final(a)@
            == old(a)@ && final(b)@ == old(b)@,
        split_header(old(a)@) matches Some((list, _, payload)) ==> {
            &&& !list && payload.len() == 0 ==> final(a)@.len() == 0 && final(b)@.len() == 0
            &&& !list && payload.len() > 0 && (payload[0] == 0 || 4 < payload[0] && payload[0]
                != 0x70) ==> {
                &&& result == Err::<TransactionSigned, Eip2718Error>(
                    Eip2718Error::UnexpectedType(payload[0]),
                )
                &&& rlp == Err::<TransactionSigned, RlpError>(
                    RlpError::Custom("Unexpected type flag"),
                )
                &&& final(a)@ == payload.skip(1)
                &&& final(b)@ == payload.skip(1)
            }
        },
{
}

} // verus!
