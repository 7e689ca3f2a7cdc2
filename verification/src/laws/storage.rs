//! The stored form of transactions.

use vstd::prelude::*;

use crate::compact::{
    eip1559_compact, eip2930_compact, eip4844_compact, eip7702_compact, legacy_compact,
    law_stored_form_is_readable, le_value, lemma_compact_is_readable, zstd_content,
};
use crate::envelope::EthereumTxEnvelope;
use crate::primitives::Signature;
use crate::laws::signed::{acceptable, is_zero};
use crate::rlp::{rlp_list, LENGTH_LIMIT};
use crate::transaction::{Transaction, TxFields};
use crate::transaction_signed::{SignedTx, TransactionSigned};
use crate::tx_ecdsa::TxEip4844;
use crate::tx_ml_dsa::TxMlDsa;

verus! {

/// The two bits that stand for the type of a transaction in storage.
pub open spec fn type_bits(tx: TxFields) -> int {
    match tx {
        TxFields::Legacy(_) => 0,
        TxFields::Eip2930(_) => 1,
        TxFields::Eip1559(_) => 2,
        _ => 3,
    }
}

/// Whether `s` is flags, scalars and something more: the parity of the signature in bit 0, the type
/// in bits 1 and 2, whether the transaction is compressed in bit 3, and the scalars in 32 bytes
/// each, the lowest first.
pub open spec fn has_prefix(
    s: Seq<u8>,
    tx: TxFields,
    signature: Signature,
    compressed: bool,
) -> bool {
    &&& s.len() >= 65
    &&& s[0] == (if signature.y_parity {
        1int
    } else {
        0
    }) + 2 * type_bits(tx) + (if compressed {
        8int
    } else {
        0
    })
    &&& le_value(s.subrange(1, 33)) == signature.r.as_nat()
    &&& le_value(s.subrange(33, 65)) == signature.s.as_nat()
}

/// The input of a transaction.
pub open spec fn input_of(tx: TxFields) -> Seq<u8> {
    match tx {
        TxFields::Legacy(tx) => tx.input,
        TxFields::Eip2930(tx) => tx.input,
        TxFields::Eip1559(tx) => tx.input,
        TxFields::Eip4844(tx) => tx.input,
        TxFields::Eip7702(tx) => tx.input,
        TxFields::MlDsa(tx) => tx.input,
    }
}

/// The scalars of a stored signature, read one by one.
proof fn lemma_scalars_read(s: Seq<u8>, signature: Signature)
    requires
        s.len() >= 65,
        s.subrange(1, 65) == signature.compact_scalars(),
    ensures
        le_value(s.subrange(1, 33)) == signature.r.as_nat(),
        le_value(s.subrange(33, 65)) == signature.s.as_nat(),
{
    crate::compact::lemma_scalars(signature);
    let scalars = s.subrange(1, 65);
    assert(s.subrange(1, 33) =~= scalars.subrange(0, 32));
    assert(s.subrange(33, 65) =~= scalars.subrange(32, 64));
    assert(scalars.subrange(0, 32) =~= crate::compact::le_bytes(signature.r.as_nat(), 32));
    assert(scalars.subrange(32, 64) =~= crate::compact::le_bytes(signature.s.as_nat(), 32));
}

/// A stored transaction is flags, the two scalars of the signature, and the transaction's own
/// stored form, which is compressed exactly where the input has 32 bytes or more. How many bytes
/// that took is told.
pub proof fn law_stored_form(
    signed: TransactionSigned,
    buf: &mut Vec<u8>,
    n: usize,
    s: Seq<u8>,
    tx: Transaction,
    raw: &mut Vec<u8>,
    identifier: usize,
)
    requires
        call_ensures(TransactionSigned::to_compact, (&signed, buf), n),
        s == final(buf)@.skip(old(buf)@.len() as int),
        tx@ == signed@.transaction,
        call_ensures(Transaction::to_compact, (&tx, raw), identifier),
        old(raw)@.len() == 0,
    ensures
        final(buf)@ == old(buf)@ + s,
        n == s.len(),
        has_prefix(
            s,
            signed@.transaction,
            signed@.signature,
            input_of(signed@.transaction).len() >= 32,
        ),
        input_of(signed@.transaction).len() < 32 ==> s.skip(65) == final(raw)@,
        input_of(signed@.transaction).len() >= 32 ==> zstd_content(s.skip(65)) == Some(final(raw)@),
{
    assert(final(raw)@ =~= tx@.compact());
    assert(final(buf)@ =~= final(buf)@.take(old(buf)@.len() as int) + s);
    lemma_scalars_read(s, signed@.signature);
}

/// The envelope of a signed transaction is stored in the same way.
pub proof fn law_envelope_stored_form(
    envelope: EthereumTxEnvelope<TxEip4844>,
    signed: TransactionSigned,
    buf: &mut Vec<u8>,
    n: usize,
    s: Seq<u8>,
)
    requires
        call_ensures(
            <TransactionSigned as From<EthereumTxEnvelope<TxEip4844>>>::from,
            (envelope,),
            signed,
        ),
        call_ensures(EthereumTxEnvelope::<TxEip4844>::to_compact, (&envelope, buf), n),
        s == final(buf)@.skip(old(buf)@.len() as int),
    ensures
        final(buf)@ == old(buf)@ + s,
        n == s.len(),
        has_prefix(
            s,
            signed@.transaction,
            signed@.signature,
            input_of(signed@.transaction).len() >= 32,
        ),
{
    assert(final(buf)@ =~= final(buf)@.take(old(buf)@.len() as int) + s);
    lemma_scalars_read(s, signed@.signature);
}

/// The stored form of a raw transaction is its type, as far as the identifier does not show it, and
/// its fields: the one RLP list of them for an ML-DSA transaction.
pub proof fn law_raw_stored_form(
    tx: Transaction,
    buf: &mut Vec<u8>,
    identifier: usize,
    ml_dsa: &mut Vec<u8>,
    n: usize,
)
    requires
        call_ensures(Transaction::to_compact, (&tx, buf), identifier),
        old(buf)@.len() == 0,
        tx matches Transaction::MlDsa(inner) ==> call_ensures(
            TxMlDsa::to_compact,
            (&inner, ml_dsa),
            n,
        ) && old(ml_dsa)@.len() == 0,
    ensures
        identifier == type_bits(tx@),
        match tx {
            Transaction::Legacy(tx) => final(buf)@ == legacy_compact(tx@),
            Transaction::Eip2930(tx) => final(buf)@ == eip2930_compact(tx@),
            Transaction::Eip1559(tx) => final(buf)@ == eip1559_compact(tx@),
            Transaction::Eip4844(tx) => final(buf)@ == seq![3u8] + eip4844_compact(tx@),
            Transaction::Eip7702(tx) => final(buf)@ == seq![4u8] + eip7702_compact(tx@),
            Transaction::MlDsa(_) => final(buf)@ == seq![0x70u8] + final(ml_dsa)@,
        },
{
    assert(final(buf)@ =~= tx@.compact());
    assert(Seq::<u8>::empty() + tx@.compact_fields() =~= tx@.compact_fields());
    if let Transaction::MlDsa(inner) = tx {
        assert(final(ml_dsa)@ =~= rlp_list(inner@.all_fields()));
    }
}

/// Storing and reading in one go gives the same transaction and signature.
pub proof fn law_through_storage(
    signed: TransactionSigned,
    read: TransactionSigned,
)
    requires
        call_ensures(TransactionSigned::through_storage, (&signed,), read),
    ensures
        read@.transaction == signed@.transaction,
        read@.signature == signed@.signature,
        read@.hash is None,
{
}

/// What a stored transaction is read back as: the same transaction with the same signature, its
/// hash open. A compressed frame is left in the buffer; otherwise nothing is.
pub proof fn law_stored_is_read_back(
    signed: TransactionSigned,
    buf: &mut Vec<u8>,
    n: usize,
    stored: &[u8],
    len: usize,
    read: (TransactionSigned, &[u8]),
)
    requires
        signed@.transaction is MlDsa ==> is_zero(signed@.signature),
        acceptable(signed@.transaction),
        call_ensures(TransactionSigned::to_compact, (&signed, buf), n),
        old(buf)@.len() == 0,
        stored@ == final(buf)@,
        signed@.transaction.compact().len() < LENGTH_LIMIT,
        call_ensures(TransactionSigned::from_compact, (stored, len), read),
    ensures
        read.0@.transaction == signed@.transaction,
        read.0@.signature == signed@.signature,
        read.0@.hash is None,
        input_of(signed@.transaction).len() < 32 ==> read.1@.len() == 0,
        input_of(signed@.transaction).len() >= 32 ==> read.1@ == stored@.skip(65),
{
    let tx = SignedTx { hash: None, ..signed@ };
    assert(final(buf)@.skip(0) =~= final(buf)@);
    assert(tx.stored_as(stored@));
    law_stored_form_is_readable(tx, stored@);
    let rest = if tx.stored_compressed() {
        stored@.skip(65)
    } else {
        Seq::empty()
    };
    assert(tx.reads_stored(stored@, rest));
}

/// What a raw stored transaction is read back as: the same transaction, and nothing is left.
pub proof fn law_raw_is_read_back(
    tx: Transaction,
    buf: &mut Vec<u8>,
    identifier: usize,
    stored: &[u8],
    read: (Transaction, &[u8]),
)
    requires
        acceptable(tx@),
        call_ensures(Transaction::to_compact, (&tx, buf), identifier),
        old(buf)@.len() == 0,
        stored@ == final(buf)@,
        stored@.len() < LENGTH_LIMIT,
        call_ensures(Transaction::from_compact, (stored, identifier), read),
    ensures
        read.0@ == tx@,
        read.1@.len() == 0,
{
    assert(final(buf)@ =~= tx@.compact());
    lemma_compact_is_readable(tx@);
}

} // verus!
