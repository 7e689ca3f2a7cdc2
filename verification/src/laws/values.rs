//! Plain values, requests and commitments.

use vstd::prelude::*;

use crate::commitment::CommitmentError;
use crate::crypto::keccak;
use crate::envelope::ValueError;
use crate::genesis_commitment::MptGenesisCommitment;
use crate::laws::signed::is_zero;
use crate::primitives::{AccessList, AccessListEntry, Address, Signature, TxKind, B256, U256};
use crate::request::{
    executable_tx, sendable_tx, RequestFields, SignTxRequestError, TransactionRequest,
};
use crate::rlp::{be_bytes, rlp_concat, rlp_header, rlp_list, rlp_string, RlpItem};
use crate::signed::Signed;
use crate::transaction::{ml_dsa_dummy_signature, Transaction, TxFields};
use crate::transaction_signed::TransactionSigned;

verus! {

/// The zero address and the zero number are zero, and small numbers are themselves.
pub proof fn law_zeros(
    address: Address,
    zero: U256,
    value: u128,
    number: U256,
    i: int,
)
    requires
        call_ensures(Address::zero, (), address),
        call_ensures(U256::zero, (), zero),
        call_ensures(U256::from_u128, (value,), number),
        0 <= i < 20,
    ensures
        address.bytes@.len() == 20,
        address.bytes@[i] == 0,
        zero.w0 == 0 && zero.w1 == 0 && zero.w2 == 0 && zero.w3 == 0,
        number.w0 + number.w1 * 0x1_0000_0000_0000_0000 == value,
        number.w2 == 0 && number.w3 == 0,
{
}

/// A number is the sum of its words, each with 64 bits more weight than the one before.
pub proof fn law_number(
    n: U256,
)
    ensures
        n.as_nat() == n.w0 + 0x1_0000_0000_0000_0000 * (n.w1 + 0x1_0000_0000_0000_0000 * (n.w2
            + 0x1_0000_0000_0000_0000 * n.w3)),
{
}

/// Creating and calling are told apart, and values are equal where they hold the same.
pub proof fn law_plain_equality(
    kind: TxKind,
    create: bool,
    a: Address,
    b: Address,
    addresses: bool,
    x: B256,
    y: B256,
    words: bool,
    other: TxKind,
    kinds: bool,
)
    requires
        call_ensures(TxKind::is_create, (&kind,), create),
        call_ensures(<Address as PartialEq>::eq, (&a, &b), addresses),
        call_ensures(<B256 as PartialEq>::eq, (&x, &y), words),
        call_ensures(<TxKind as PartialEq>::eq, (&kind, &other), kinds),
    ensures
        create == (kind is Create),
        addresses == (a == b),
        words == (x == y),
        kinds == (kind == other),
{
}

/// Lists are equal exactly where they hold the same entries in the same order; a copy is equal, and
/// a list starts out empty.
pub proof fn law_access_lists(
    a: AccessList,
    b: AccessList,
    equal: bool,
    copy: AccessList,
    start: AccessList,
)
    requires
        call_ensures(<AccessList as PartialEq>::eq, (&a, &b), equal),
        call_ensures(<AccessList as Clone>::clone, (&a,), copy),
        call_ensures(<AccessList as Default>::default, (), start),
    ensures
        equal == (a.items@.len() == b.items@.len() && forall|i: int|
            0 <= i < a.items@.len() ==> (#[trigger] a.items@[i]).address == b.items@[i].address
                && a.items@[i].storage_keys@ == b.items@[i].storage_keys@),
        copy@ == a@,
        start.items@.len() == 0,
{
    assert(start@.len() == start.items@.len());
    if equal {
        assert(a@ == b@);
        assert(a@.len() == b@.len());
        assert forall|i: int| 0 <= i < a.items@.len() implies (#[trigger] a.items@[i]).address
            == b.items@[i].address && a.items@[i].storage_keys@ == b.items@[i].storage_keys@ by {
            assert(a@[i] == b@[i]);
        }
    }
    if a.items@.len() == b.items@.len() && forall|i: int|
        0 <= i < a.items@.len() ==> (#[trigger] a.items@[i]).address == b.items@[i].address
            && a.items@[i].storage_keys@ == b.items@[i].storage_keys@ {
        assert forall|i: int| 0 <= i < a@.len() implies a@[i] == b@[i] by {
            assert(a.items@[i].address == b.items@[i].address);
        }
        assert(a@ =~= b@);
    }
}

/// A value with signature and hash is split into what it was made of.
pub proof fn law_signed_value<T>(
    tx: T,
    signature: Signature,
    hash: B256,
    signed: Signed<T>,
    parts: (T, Signature, B256),
)
    requires
        call_ensures(Signed::<T>::new_unchecked, (tx, signature, hash), signed),
        call_ensures(Signed::<T>::into_parts, (signed,), parts),
    ensures
        signed.tx == tx,
        signed.signature == signature,
        signed.hash == hash,
        parts.0 == tx,
        parts.1 == signature,
        parts.2 == hash,
{
}

/// The outer signature of ML-DSA transactions is zero.
pub proof fn law_dummy_signature(
    signature: Signature,
)
    requires
        call_ensures(ml_dsa_dummy_signature, (), signature),
    ensures
        is_zero(signature),
{
}

/// In RLP a byte below `0x80` stands for itself, a string of up to 55 bytes follows its length on
/// top of `0x80`, and a list of up to 55 bytes its length on top of `0xc0`.
pub proof fn law_short_rlp(byte: u8, s: Seq<u8>)
    ensures
        byte < 0x80 ==> rlp_string(seq![byte]) == seq![byte],
        s.len() <= 55 && s.len() != 1 ==> rlp_string(s) == seq![(0x80 + s.len()) as u8] + s,
        s.len() <= 55 ==> rlp_list(s) == seq![(0xc0 + s.len()) as u8] + s,
        byte >= 0x80 ==> rlp_string(seq![byte]) == seq![0x81u8, byte],
{
    assert(rlp_header(false, 1) + seq![byte] =~= seq![0x81u8, byte]);
}

/// Longer strings and lists follow the number of bytes of their length, on top of `0xb7` or `0xf7`,
/// and their length.
pub proof fn law_long_rlp(s: Seq<u8>)
    requires
        s.len() > 55,
    ensures
        rlp_string(s) == seq![(0xb7 + be_bytes(s.len()).len()) as u8] + be_bytes(s.len()) + s,
        rlp_list(s) == seq![(0xf7 + be_bytes(s.len()).len()) as u8] + be_bytes(s.len())
            + s,
        crate::rlp::be_value(be_bytes(s.len())) == s.len(),
        be_bytes(s.len())[0] != 0,
{
    crate::rlp::lemma_be_roundtrip(s.len());
    lemma_no_leading_zero(s.len());
}

/// The minimal bytes of a number do not start with zero.
proof fn lemma_no_leading_zero(n: nat)
    requires
        n > 0,
    ensures
        be_bytes(n).len() > 0,
        be_bytes(n)[0] != 0,
    decreases n,
{
    if n >= 256 {
        lemma_no_leading_zero(n / 256);
        assert(be_bytes(n)[0] == be_bytes(n / 256)[0]);
    } else {
        reveal_with_fuel(be_bytes, 3);
        assert(be_bytes(n) =~= seq![n as u8]);
    }
}

/// Numbers are encoded as their minimal bytes, the highest first; addresses and hashes as their
/// bytes; creation as the empty string.
pub proof fn law_rlp_of_values(
    a: u8,
    b: u64,
    c: u128,
    d: U256,
    flag: bool,
    address: Address,
    word: B256,
    s: Seq<u8>,
)
    ensures
        a.rlp() == rlp_string(be_bytes(a as nat)),
        b.rlp() == rlp_string(be_bytes(b as nat)),
        c.rlp() == rlp_string(be_bytes(c as nat)),
        d.rlp() == rlp_string(be_bytes(d.as_nat())),
        flag ==> flag.rlp() == seq![1u8],
        !flag ==> flag.rlp() == seq![0x80u8],
        address.rlp() == seq![0x94u8] + address.bytes@,
        word.rlp() == seq![0xa0u8] + word.bytes@,
        s.rlp() == rlp_string(s),
        TxKind::Create.rlp() == seq![0x80u8],
        TxKind::Call(address).rlp() == seq![0x94u8] + address.bytes@,
{
    reveal_with_fuel(be_bytes, 3);
    assert(be_bytes(1) =~= seq![1u8]);
    assert(rlp_string(Seq::<u8>::empty()) =~= seq![0x80u8]);
    assert(be_bytes(0) =~= Seq::<u8>::empty());
}

/// An access list is the list of its entries, each of which is the list of its address and of the
/// list of its storage keys. What follows the first is encoded as it would be by itself.
pub proof fn law_rlp_of_lists(list: Seq<AccessListEntry>, entry: AccessListEntry, keys: Seq<B256>)
    ensures
        list.rlp() == rlp_list(rlp_concat(list)),
        keys.rlp() == rlp_list(rlp_concat(keys)),
        entry.rlp() == rlp_list(entry.address.rlp() + entry.storage_keys.rlp()),
        list.len() == 0 ==> list.rlp() == seq![0xc0u8],
        keys.len() == 0 ==> keys.rlp() == seq![0xc0u8],
        list.len() > 0 ==> rlp_concat(list) == list[0].rlp() + rlp_concat(list.skip(1)),
        keys.len() > 0 ==> rlp_concat(keys) == keys[0].rlp() + rlp_concat(keys.skip(1)),
{
    if list.len() == 0 {
        assert(list.rlp() =~= seq![0xc0u8]);
    }
    if keys.len() == 0 {
        assert(keys.rlp() =~= seq![0xc0u8]);
    }
}

/// The view of a request holds what the request holds.
pub proof fn law_request_fields(
    request: TransactionRequest,
)
    ensures
        request@.from == request.from,
        request@.to == request.to,
        request@.gas_price == request.gas_price,
        request@.max_fee_per_gas == request.max_fee_per_gas,
        request@.max_priority_fee_per_gas == request.max_priority_fee_per_gas,
        request@.max_fee_per_blob_gas == request.max_fee_per_blob_gas,
        request@.gas == request.gas,
        request@.value == request.value,
        request@.nonce == request.nonce,
        request@.chain_id == request.chain_id,
        request@.transaction_type == request.transaction_type,
        request.input matches Some(held) ==> request@.input == Some(held@),
        request.data matches Some(held) ==> request@.data == Some(held@),
        request.access_list matches Some(held) ==> request@.access_list == Some(held@),
        request.blob_versioned_hashes matches Some(held) ==> request@.blob_versioned_hashes == Some(
            held@,
        ),
        request.sidecar matches Some(held) ==> request@.sidecar == Some(held@),
        request.authorization_list matches Some(held) ==> request@.authorization_list == Some(
            held@,
        ),
        request.input is None ==> request@.input is None,
        request.data is None ==> request@.data is None,
        request.access_list is None ==> request@.access_list is None,
        request.blob_versioned_hashes is None ==> request@.blob_versioned_hashes is None,
        request.sidecar is None ==> request@.sidecar is None,
        request.authorization_list is None ==> request@.authorization_list is None,
{
}

/// A request that has all that is needed makes the transaction to be signed, and is invalid
/// otherwise.
pub proof fn law_request_builds<E>(
    request: TransactionRequest,
    result: Result<Transaction, SignTxRequestError<E>>,
)
    requires
        call_ensures(TransactionRequest::try_build::<E>, (request,), result),
    ensures
        result matches Ok(tx) ==> sendable_tx(request@) == Some(tx@) && !(tx is MlDsa),
        result matches Err(error) ==> sendable_tx(request@) is None && error
            is InvalidTransactionRequest,
{
}

/// The signature that the signer made is attached, and the hash is that of the encoding with it;
/// where the signer failed, its error comes out.
pub proof fn law_request_is_signed<E>(
    tx: Transaction,
    answer: Result<Signature, E>,
    result: Result<TransactionSigned, SignTxRequestError<E>>,
    parts: (Transaction, Signature, B256),
    out: &mut Vec<u8>,
)
    requires
        call_ensures(TransactionRequest::finish_signing::<E>, (tx, answer), result),
        result matches Ok(signed) ==> call_ensures(
            TransactionSigned::into_parts,
            (signed,),
            parts,
        ),
        answer matches Ok(signature) ==> call_ensures(
            Transaction::eip2718_encode,
            (&tx, &signature, out),
            (),
        ) && old(out)@.len() == 0,
    ensures
        result is Ok <==> answer is Ok,
        answer matches Err(error) ==> result == Err::<TransactionSigned, SignTxRequestError<E>>(
            SignTxRequestError::SignerError(error),
        ),
        answer matches Ok(signature) ==> parts.0@ == tx@ && (!(tx is MlDsa) ==> parts.1
            == signature) && parts.2 == keccak(final(out)@),
{
    if let Ok(signature) = answer {
        assert(final(out)@ =~= tx@.encoded(signature));
    }
}

/// A request is simulated with a zero signature, and handed back where it lacks a field.
pub proof fn law_request_is_simulated(
    request: TransactionRequest,
    result: Result<TransactionSigned, ValueError<TransactionRequest>>,
    parts: (Transaction, Signature, B256),
    out: &mut Vec<u8>,
)
    requires
        call_ensures(TransactionRequest::try_into_sim_tx, (request,), result),
        result matches Ok(signed) ==> call_ensures(
            TransactionSigned::into_parts,
            (signed,),
            parts,
        ) && call_ensures(
            Transaction::eip2718_encode,
            (&parts.0, &parts.1, out),
            (),
        ) && old(out)@.len() == 0,
    ensures
        result is Ok ==> executable_tx(request@) == Ok::<TxFields, RequestFields>(parts.0@)
            && is_zero(parts.1) && parts.2 == keccak(final(out)@),
        result matches Err(error) ==> executable_tx(request@) == Err::<TxFields, RequestFields>(
            error.spec_value()@,
        ) && error.spec_msg()@ == "Transaction is not buildable"@,
{
    if result is Ok {
        assert(final(out)@ =~= parts.0@.encoded(parts.1));
    }
}

/// A commitment error says what failed, and why.
pub proof fn law_commitment_error_text(
    error: CommitmentError,
    text: String,
)
    requires
        call_ensures(CommitmentError::to_string, (&error,), text),
    ensures
        error matches CommitmentError::Computation(cause) ==> text@
            == "commitment computation failed: "@ + cause@,
        error matches CommitmentError::Persistence(cause) ==> text@
            == "commitment persistence failed: "@ + cause@,
{
}

/// The genesis root is the one that the database computed, and its error comes out where it failed.
pub proof fn law_genesis_commitment<E>(
    computed: Result<B256, E>,
    result: Result<(B256, ()), E>,
)
    requires
        call_ensures(MptGenesisCommitment::commitment_of::<E>, (computed,), result),
    ensures
        computed matches Ok(root) ==> result is Ok && result->Ok_0.0 == root,
        computed matches Err(error) ==> result is Err && result->Err_0 == error,
{
}

} // verus!
