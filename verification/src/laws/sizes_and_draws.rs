//! Memory estimates, and transactions for fuzzing.

use arbitrary::Unstructured;
use vstd::layout::size_of;
use vstd::prelude::*;

use crate::compact::le_value;
use crate::generate::{
    drawn_access_list, drawn_address, drawn_bytes, drawn_eip1559, drawn_eip2930, drawn_eip4844,
    drawn_eip7702, drawn_kind, drawn_legacy, drawn_u256, drawn_u8, signature_by, unread,
    GenerateError, MlDsaDraws,
};
use crate::laws::ml_dsa::fips_204;
use crate::laws::signed::is_zero;
use crate::primitives::{
    AccessList, AccessListEntry, AccessListItem, Address, Signature, SignedAuthorization, TxHash,
    B256,
};
use crate::size::{entries_total, has_room, list_total};
use crate::transaction::{Transaction, TxFields};
use crate::transaction_signed::TransactionSigned;
use crate::tx_ecdsa::{TxEip1559, TxEip2930, TxEip4844, TxEip7702, TxLegacy};
use crate::tx_ml_dsa::TxMlDsa;
use crate::tx_type::DiesisTxType;

verus! {

/// Whether an estimate is the number, or the largest `usize` where the number is beyond that.
pub open spec fn counts(estimate: usize, n: int) -> bool {
    estimate == n || estimate == usize::MAX && n > usize::MAX
}

/// An ML-DSA transaction takes what the value itself takes, its access list, and its three byte
/// strings.
pub proof fn law_ml_dsa_size_with(
    tx: TxMlDsa,
    list: usize,
    n: usize,
)
    requires
        call_ensures(TxMlDsa::size_with, (&tx, list), n),
    ensures
        counts(
            n,
            size_of::<TxMlDsa>() + list + tx.input@.len() + tx.pubkey@.len()
                + tx.ml_dsa_signature@.len(),
        ),
{
}

/// A transaction takes what the value itself takes, its access list, its input, and its blob hashes
/// or authorizations, as far as it has them.
pub proof fn law_transaction_size_with(
    tx: Transaction,
    access_list: usize,
    list: usize,
    n: usize,
)
    requires
        call_ensures(Transaction::size_with, (&tx, access_list, list), n),
    ensures
        match tx {
            Transaction::Legacy(tx) => counts(n, size_of::<TxLegacy>() + tx.input@.len() as int),
            Transaction::Eip2930(tx) => counts(
                n,
                size_of::<TxEip2930>() + access_list + tx.input@.len(),
            ),
            Transaction::Eip1559(tx) => counts(
                n,
                size_of::<TxEip1559>() + access_list + tx.input@.len(),
            ),
            Transaction::Eip4844(tx) => counts(
                n,
                size_of::<TxEip4844>() + access_list + tx.input@.len() + list,
            ),
            Transaction::Eip7702(tx) => counts(
                n,
                size_of::<TxEip7702>() + access_list + tx.input@.len() + list,
            ),
            Transaction::MlDsa(tx) => counts(
                n,
                size_of::<TxMlDsa>() + access_list + tx.input@.len() + tx.pubkey@.len()
                    + tx.ml_dsa_signature@.len(),
            ),
        },
{
}

/// A signed transaction takes a hash and a signature more.
pub proof fn law_signed_size_with(
    signed: TransactionSigned,
    transaction: usize,
    n: usize,
)
    requires
        call_ensures(TransactionSigned::size_with, (&signed, transaction), n),
    ensures
        counts(n, size_of::<TxHash>() + size_of::<Signature>() + transaction),
{
}

/// An access list without entries takes its room; each entry takes an address and its room for keys
/// more.
pub proof fn law_list_size_with(
    items: usize,
    keys: Vec<usize>,
    longer: Vec<usize>,
    a: usize,
    b: usize,
)
    requires
        call_ensures(AccessList::size_with, (items, &keys), a),
        call_ensures(AccessList::size_with, (items, &longer), b),
        longer@.len() == keys@.len() + 1,
        longer@.drop_last() == keys@,
    ensures
        keys@.len() == 0 ==> counts(a, items * size_of::<AccessListItem>()),
        b < usize::MAX ==> b == a + size_of::<Address>() + longer@.last() * size_of::<B256>(),
{
    let rooms = crate::size::rooms(longer@);
    assert(rooms.drop_last() =~= crate::size::rooms(keys@));
    assert(rooms.last() == longer@.last() as nat);
    assert(longer@.last() as nat * size_of::<B256>() >= 0) by (nonlinear_arith);
    assert(items as nat * size_of::<AccessListItem>() >= 0) by (nonlinear_arith);
}

/// What the addresses and storage keys of an access list take.
pub open spec fn held_by_entries(entries: Seq<AccessListEntry>) -> nat
    decreases entries.len(),
{
    if entries.len() == 0 {
        0
    } else {
        held_by_entries(entries.drop_last()) + size_of::<Address>()
            + entries.last().storage_keys.len() * size_of::<B256>()
    }
}

/// What an access list takes without any room to spare.
pub open spec fn held_by_list(entries: Seq<AccessListEntry>) -> nat {
    entries.len() * size_of::<AccessListItem>() + held_by_entries(entries)
}

/// What a transaction takes whose access list takes `access_list`, with `items` blob hashes or
/// authorizations, as far as it has them.
pub open spec fn takes(tx: TxFields, access_list: nat, items: nat) -> nat {
    match tx {
        TxFields::Legacy(tx) => size_of::<TxLegacy>() + tx.input.len(),
        TxFields::Eip2930(tx) => size_of::<TxEip2930>() + access_list + tx.input.len(),
        TxFields::Eip1559(tx) => size_of::<TxEip1559>() + access_list + tx.input.len(),
        TxFields::Eip4844(tx) => size_of::<TxEip4844>() + access_list + tx.input.len() + items
            * size_of::<B256>(),
        TxFields::Eip7702(tx) => size_of::<TxEip7702>() + access_list + tx.input.len() + items
            * size_of::<SignedAuthorization>(),
        TxFields::MlDsa(tx) => size_of::<TxMlDsa>() + access_list + tx.input.len() + tx.pubkey.len()
            + tx.ml_dsa_signature.len(),
    }
}

/// What a transaction takes without any room to spare.
pub open spec fn held_by(tx: TxFields) -> nat {
    match tx {
        TxFields::Legacy(_) => takes(tx, 0, 0),
        TxFields::Eip2930(of) => takes(tx, held_by_list(of.access_list), 0),
        TxFields::Eip1559(of) => takes(tx, held_by_list(of.access_list), 0),
        TxFields::Eip4844(of) => takes(
            tx,
            held_by_list(of.access_list),
            of.blob_versioned_hashes.len(),
        ),
        TxFields::Eip7702(of) => takes(
            tx,
            held_by_list(of.access_list),
            of.authorization_list.len(),
        ),
        TxFields::MlDsa(of) => takes(tx, held_by_list(of.access_list), 0),
    }
}

/// Room for more takes more.
proof fn lemma_room_takes_more(held: nat, room: nat, size: nat)
    requires
        held <= room,
    ensures
        held * size <= room * size,
{
    assert(held * size <= room * size) by (nonlinear_arith)
        requires
            held <= room,
    ;
}

/// A list takes at least what it holds.
proof fn lemma_entries_are_covered(entries: Seq<AccessListEntry>, keys: Seq<nat>)
    requires
        keys.len() == entries.len(),
        forall|i: int|
            0 <= i < keys.len() ==> entries[i].storage_keys.len() <= #[trigger] keys[i],
    ensures
        held_by_entries(entries) <= entries_total(keys),
    decreases keys.len(),
{
    if keys.len() > 0 {
        lemma_entries_are_covered(entries.drop_last(), keys.drop_last());
        assert(entries.last().storage_keys.len() <= keys[keys.len() - 1]);
        lemma_room_takes_more(entries.last().storage_keys.len(), keys.last(), size_of::<B256>());
    }
}

/// A list takes at least what it holds.
proof fn lemma_list_is_covered(entries: Seq<AccessListEntry>, items: nat, keys: Seq<nat>)
    requires
        has_room(entries, items, keys),
    ensures
        held_by_list(entries) <= list_total(items, keys),
{
    lemma_room_takes_more(entries.len(), items, size_of::<AccessListItem>());
    assert forall|i: int| 0 <= i < keys.len() implies entries[i].storage_keys.len()
        <= #[trigger] keys[i] by {
        assert(crate::size::fits::<B256>(entries[i].storage_keys.len(), keys[i]));
    }
    lemma_entries_are_covered(entries, keys);
}

/// A transaction takes at least what it holds.
proof fn lemma_transaction_is_covered(tx: TxFields, items: nat, keys: Seq<nat>, list: nat)
    requires
        tx.has_rooms(items, keys, list),
    ensures
        held_by(tx) <= tx.total(items, keys, list),
{
    match tx {
        TxFields::Legacy(_) => {},
        TxFields::Eip2930(tx) => lemma_list_is_covered(tx.access_list, items, keys),
        TxFields::Eip1559(tx) => lemma_list_is_covered(tx.access_list, items, keys),
        TxFields::Eip4844(tx) => {
            lemma_list_is_covered(tx.access_list, items, keys);
            lemma_room_takes_more(tx.blob_versioned_hashes.len(), list, size_of::<B256>());
        },
        TxFields::Eip7702(tx) => {
            lemma_list_is_covered(tx.access_list, items, keys);
            lemma_room_takes_more(
                tx.authorization_list.len(),
                list,
                size_of::<SignedAuthorization>(),
            );
        },
        TxFields::MlDsa(tx) => lemma_list_is_covered(tx.access_list, items, keys),
    }
}

/// An access list takes what one with some room for what it holds takes, and so no less than that.
pub proof fn law_list_size(list: AccessList, n: usize)
    requires
        call_ensures(AccessList::size, (&list,), n),
    ensures
        exists|items: nat, keys: Seq<nat>| #[trigger]
            has_room(list@, items, keys) && counts(n, list_total(items, keys) as int),
        n == usize::MAX || n >= held_by_list(list@),
{
    let (items, keys) = choose|items: nat, keys: Seq<nat>| #[trigger]
        has_room(list@, items, keys) && n == crate::size::saturated(list_total(items, keys));
    lemma_list_is_covered(list@, items, keys);
}

/// A transaction takes the value itself, its access list, its input, and its blob hashes,
/// authorizations or key material, as far as it has them, with some room for them.
pub proof fn law_transaction_size(tx: Transaction, n: usize)
    requires
        call_ensures(Transaction::size, (&tx,), n),
    ensures
        exists|items: nat, keys: Seq<nat>, list: nat| #[trigger]
            tx@.has_rooms(items, keys, list) && counts(
                n,
                takes(tx@, list_total(items, keys), list) as int,
            ),
        n == usize::MAX || n >= held_by(tx@),
{
    let (items, keys, list) = choose|items: nat, keys: Seq<nat>, list: nat| #[trigger]
        tx@.has_rooms(items, keys, list) && n == crate::size::saturated(
            tx@.total(items, keys, list),
        );
    lemma_transaction_is_covered(tx@, items, keys, list);
}

/// An ML-DSA transaction by itself takes what it takes as a transaction.
pub proof fn law_ml_dsa_size(tx: TxMlDsa, n: usize)
    requires
        call_ensures(TxMlDsa::size, (&tx,), n),
    ensures
        exists|items: nat, keys: Seq<nat>| #[trigger]
            has_room(tx.access_list@, items, keys) && counts(
                n,
                size_of::<TxMlDsa>() + list_total(items, keys) + tx.input@.len() + tx.pubkey@.len()
                    + tx.ml_dsa_signature@.len() as int,
            ),
        n == usize::MAX || n >= held_by(TxFields::MlDsa(tx@)),
{
    let (items, keys) = choose|items: nat, keys: Seq<nat>| #[trigger]
        has_room(tx.access_list@, items, keys) && n == crate::size::saturated(
            tx@.size_with(list_total(items, keys)),
        );
    lemma_list_is_covered(tx.access_list@, items, keys);
}

/// A signed transaction takes a hash and a signature more than the transaction in it.
pub proof fn law_signed_size(signed: TransactionSigned, n: usize)
    requires
        call_ensures(TransactionSigned::size, (&signed,), n),
    ensures
        exists|items: nat, keys: Seq<nat>, list: nat| #[trigger]
            signed@.transaction.has_rooms(items, keys, list) && counts(
                n,
                size_of::<TxHash>() + size_of::<Signature>() + takes(
                    signed@.transaction,
                    list_total(items, keys),
                    list,
                ) as int,
            ),
        n == usize::MAX || n >= size_of::<TxHash>() + size_of::<Signature>() + held_by(
            signed@.transaction,
        ),
{
    let tx = signed@.transaction;
    let (items, keys, list) = choose|items: nat, keys: Seq<nat>, list: nat| #[trigger]
        tx.has_rooms(items, keys, list) && n == crate::size::saturated(
            size_of::<TxHash>() + size_of::<Signature>() + tx.total(items, keys, list),
        );
    lemma_transaction_is_covered(tx, items, keys, list);
}

/// A transaction that is put together of drawn values holds them; its public key, if it has one,
/// and its signature consist of one byte each and have the lengths of the security level.
pub proof fn law_from_draws(
    draws: MlDsaDraws,
    tx: TxMlDsa,
)
    requires
        call_ensures(TxMlDsa::from_draws, (draws,), tx),
        draws.ml_dsa_level == 44 || draws.ml_dsa_level == 65 || draws.ml_dsa_level == 87,
    ensures
        tx.ml_dsa_level == draws.ml_dsa_level,
        tx.chain_id == draws.chain_id,
        tx.nonce == draws.nonce,
        tx.max_priority_fee_per_gas == draws.max_priority_fee_per_gas,
        tx.max_fee_per_gas == draws.max_fee_per_gas,
        tx.gas_limit == draws.gas_limit,
        tx.to == draws.to,
        tx.value == draws.value,
        tx.input@ == draws.input@,
        tx.access_list@ == draws.access_list@,
        tx.sender == draws.sender,
        fips_204(tx.ml_dsa_level, tx.pubkey@.len(), tx.ml_dsa_signature@.len()),
        draws.pubkey_fill is None <==> tx.pubkey@.len() == 0,
        draws.pubkey_fill matches Some(fill) ==> forall|i: int|
            0 <= i < tx.pubkey@.len() ==> tx.pubkey@[i] == fill,
        forall|i: int|
            0 <= i < tx.ml_dsa_signature@.len() ==> tx.ml_dsa_signature@[i] == draws.signature_fill,
{
}

/// Each of the six types is drawn for a sixth of the numbers, in order.
pub proof fn law_from_draw(
    n: u32,
    ty: DiesisTxType,
)
    requires
        call_ensures(DiesisTxType::from_draw, (n,), ty),
    ensures
        ty is Legacy <==> n <= 715_827_882,
        ty is Eip2930 <==> 715_827_883 <= n <= 1_431_655_765,
        ty is Eip1559 <==> 1_431_655_766 <= n <= 2_147_483_647,
        ty is Eip4844 <==> 2_147_483_648 <= n <= 2_863_311_530,
        ty is Eip7702 <==> 2_863_311_531 <= n <= 3_579_139_413,
        ty is MlDsa <==> 3_579_139_414 <= n,
{
}

/// The first four bytes, the lowest first, stand for the type, and the rest are drawn out to a
/// transaction of that type.
pub proof fn law_drawn_transaction(
    u: &mut Unstructured<'_>,
    s: Seq<u8>,
    result: Result<Transaction, arbitrary::Error>,
    ty: DiesisTxType,
    v: &mut Unstructured<'_>,
    ml_dsa: TxMlDsa,
)
    requires
        unread(*old(v)) == s.skip(4),
        call_ensures(TxMlDsa::arbitrary, (v,), Ok::<TxMlDsa, arbitrary::Error>(ml_dsa)),
        call_ensures(Transaction::arbitrary, (u,), result),
        s == unread(*old(u)),
        s.len() >= 4,
        call_ensures(
            DiesisTxType::from_draw,
            ((s[0] + 256 * s[1] + 65536 * s[2] + 16777216 * s[3]) as u32,),
            ty,
        ),
    ensures
        result is Ok,
        match (ty, result->Ok_0@) {
            (DiesisTxType::Legacy, TxFields::Legacy(tx)) => (tx, unread(*final(u))) == drawn_legacy(
                s.skip(4),
            ),
            (DiesisTxType::Eip2930, TxFields::Eip2930(tx)) => (tx, unread(*final(u)))
                == drawn_eip2930(s.skip(4)),
            (DiesisTxType::Eip1559, TxFields::Eip1559(tx)) => (tx, unread(*final(u)))
                == drawn_eip1559(s.skip(4)),
            (DiesisTxType::Eip4844, TxFields::Eip4844(tx)) => (tx, unread(*final(u)))
                == drawn_eip4844(s.skip(4)),
            (DiesisTxType::Eip7702, TxFields::Eip7702(tx)) => (tx, unread(*final(u)))
                == drawn_eip7702(s.skip(4)),
            (DiesisTxType::MlDsa, TxFields::MlDsa(tx)) => tx == ml_dsa@ && unread(*final(u))
                == unread(*final(v)),
            _ => false,
        },
{
    lemma_front(s, 4);
    let f = crate::generate::front(s, 4);
    reveal_with_fuel(le_value, 5);
    assert(f.skip(1).skip(1) =~= f.skip(2));
    assert(f.skip(2).skip(1) =~= f.skip(3));
    assert(f.skip(3).skip(1) =~= f.skip(4));
    assert(le_value(f) == s[0] + 256 * s[1] + 65536 * s[2] + 16777216 * s[3]);
}

/// The first bytes of a sequence that is long enough.
proof fn lemma_front(s: Seq<u8>, n: nat)
    requires
        n <= s.len(),
    ensures
        crate::generate::front(s, n) == s.take(n as int),
{
    assert(crate::generate::front(s, n) =~= s.take(n as int));
}

/// One byte is the number that is drawn of it.
proof fn lemma_one_byte(s: Seq<u8>)
    requires
        s.len() > 0,
    ensures
        drawn_u8(s).0 == s[0],
{
    lemma_front(s, 1);
    let f = crate::generate::front(s, 1);
    reveal_with_fuel(le_value, 2);
    assert(f.skip(1).len() == 0);
}

/// An ML-DSA transaction is drawn field by field: the level by the first byte, a public key of one
/// byte over and over exactly where the second byte is odd, then chain, nonce, tip cap, fee cap and
/// gas limit, the lowest bytes first. The key material always has the lengths of the level.
pub proof fn law_drawn_ml_dsa(
    u: &mut Unstructured<'_>,
    s: Seq<u8>,
    result: Result<TxMlDsa, arbitrary::Error>,
)
    requires
        call_ensures(TxMlDsa::arbitrary, (u,), result),
        s == unread(*old(u)),
        s.len() >= 3 + 56,
    ensures
        result is Ok,
        s[0] % 3 == 0 ==> result->Ok_0.ml_dsa_level == 44,
        s[0] % 3 == 1 ==> result->Ok_0.ml_dsa_level == 65,
        s[0] % 3 == 2 ==> result->Ok_0.ml_dsa_level == 87,
        s[1] % 2 == 1 <==> result->Ok_0.pubkey@.len() > 0,
        fips_204(
            result->Ok_0.ml_dsa_level,
            result->Ok_0.pubkey@.len(),
            result->Ok_0.ml_dsa_signature@.len(),
        ),
        ({
            let at: int = if s[1] % 2 == 1 {
                3
            } else {
                2
            };
            &&& result->Ok_0.chain_id == le_value(s.subrange(at, at + 8)) as u64
            &&& result->Ok_0.nonce == le_value(s.subrange(at + 8, at + 16)) as u64
            &&& result->Ok_0.max_priority_fee_per_gas == le_value(
                s.subrange(at + 16, at + 32),
            ) as u128
            &&& result->Ok_0.max_fee_per_gas == le_value(s.subrange(at + 32, at + 48)) as u128
            &&& result->Ok_0.gas_limit == le_value(s.subrange(at + 48, at + 56)) as u64
        }),
        forall|i: int|
            0 <= i < result->Ok_0.pubkey@.len() ==> #[trigger] result->Ok_0.pubkey@[i] == s[2],
{
    let at: int = if s[1] % 2 == 1 {
        3
    } else {
        2
    };
    lemma_front(s.skip(1), 1);
    lemma_one_byte(s.skip(2));
    assert(s.skip(1).skip(1) =~= s.skip(2));
    assert(s.skip(2).skip(1) =~= s.skip(3));
    assert(s.skip(at).skip(8) =~= s.skip(at + 8));
    assert(s.skip(at + 8).skip(8) =~= s.skip(at + 16));
    assert(s.skip(at + 16).skip(16) =~= s.skip(at + 32));
    assert(s.skip(at + 32).skip(16) =~= s.skip(at + 48));
    lemma_front(s.skip(at), 8);
    lemma_front(s.skip(at + 8), 8);
    lemma_front(s.skip(at + 16), 16);
    lemma_front(s.skip(at + 32), 16);
    lemma_front(s.skip(at + 48), 8);
    assert(s.skip(at).take(8) =~= s.subrange(at, at + 8));
    assert(s.skip(at + 8).take(8) =~= s.subrange(at + 8, at + 16));
    assert(s.skip(at + 16).take(16) =~= s.subrange(at + 16, at + 32));
    assert(s.skip(at + 32).take(16) =~= s.subrange(at + 32, at + 48));
    assert(s.skip(at + 48).take(8) =~= s.subrange(at + 48, at + 56));
}

/// Destination, value, input, access list and sender are drawn next, and at last a signature of one
/// byte over and over.
pub proof fn law_drawn_ml_dsa_rest(
    u: &mut Unstructured<'_>,
    s: Seq<u8>,
    result: Result<TxMlDsa, arbitrary::Error>,
)
    requires
        call_ensures(TxMlDsa::arbitrary, (u,), result),
        s == unread(*old(u)),
        s.len() >= 3 + 56,
    ensures
        result is Ok,
        ({
            let (to, s) = drawn_kind(
                s.skip(
                    if s[1] % 2 == 1 {
                        59
                    } else {
                        58
                    },
                ),
            );
            let (value, s) = drawn_u256(s);
            let (input, s) = drawn_bytes(s);
            let (access_list, s) = drawn_access_list(s);
            let (sender, s) = drawn_address(s);
            let (fill, s) = drawn_u8(s);
            &&& result->Ok_0.to == to
            &&& result->Ok_0.value == value
            &&& result->Ok_0.input@ == input
            &&& result->Ok_0.access_list@ == access_list
            &&& result->Ok_0.sender == sender
            &&& forall|i: int|
                0 <= i < result->Ok_0.ml_dsa_signature@.len()
                    ==> #[trigger] result->Ok_0.ml_dsa_signature@[i] == fill
            &&& unread(*final(u)) == s
        }),
{
    let at: int = if s[1] % 2 == 1 {
        3
    } else {
        2
    };
    assert(s.skip(1).skip(1) =~= s.skip(2));
    assert(s.skip(2).skip(1) =~= s.skip(3));
    assert(s.skip(at).skip(8) =~= s.skip(at + 8));
    assert(s.skip(at + 8).skip(8) =~= s.skip(at + 16));
    assert(s.skip(at + 16).skip(16) =~= s.skip(at + 32));
    assert(s.skip(at + 32).skip(16) =~= s.skip(at + 48));
    assert(s.skip(at + 48).skip(8) =~= s.skip(at + 56));
    lemma_front(s.skip(1), 1);
}

/// A transaction is signed with the key over the hash of what is signed, and fails where the key is
/// none; an ML-DSA transaction needs no key and has the zero signature.
pub proof fn law_sign_with(
    tx: Transaction,
    secret: B256,
    hash: B256,
    result: Result<TransactionSigned, GenerateError>,
)
    requires
        call_ensures(TransactionSigned::sign_with, (tx, secret), result),
        call_ensures(Transaction::signature_hash, (&tx,), hash),
    ensures
        tx is MlDsa ==> result is Ok && is_zero(result->Ok_0@.signature),
        !(tx is MlDsa) ==> (result is Ok <==> signature_by(secret, hash) is Some),
        !(tx is MlDsa) && result is Ok ==> signature_by(secret, hash) == Some(
            result->Ok_0@.signature,
        ),
        !(tx is MlDsa) && result is Err ==> result == Err::<TransactionSigned, GenerateError>(
            GenerateError::Key,
        ),
        result is Ok ==> result->Ok_0@.transaction == tx@ && result->Ok_0@.hash is None,
{
}

/// A drawn signed transaction is the drawn transaction, signed.
pub proof fn law_drawn_signed(
    a: &mut Unstructured<'_>,
    b: &mut Unstructured<'_>,
    secret: B256,
    drawn: Transaction,
    x: Result<TransactionSigned, GenerateError>,
    y: Result<TransactionSigned, GenerateError>,
)
    requires
        unread(*old(a)) == unread(*old(b)),
        call_ensures(Transaction::arbitrary, (a,), Ok::<Transaction, arbitrary::Error>(drawn)),
        call_ensures(TransactionSigned::sign_with, (drawn, secret), x),
        call_ensures(TransactionSigned::arbitrary, (b, secret), y),
    ensures
        x is Ok <==> y is Ok,
        x is Ok ==> x->Ok_0@ == y->Ok_0@,
        x matches Err(error) ==> y == Err::<TransactionSigned, GenerateError>(error),
        unread(*final(a)) == unread(*final(b)),
{
}

} // verus!
