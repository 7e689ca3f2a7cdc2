//! Estimates of how much memory transactions take.
//!
//! An estimate counts what a vector has allocated, its room: at least what it holds, and at most
//! `isize::MAX` bytes. How much that is rests with the allocator. Given the rooms, each estimate is
//! fixed; the functions whose names end in `_with` take them as arguments. Estimates stop at the
//! largest `usize`.

use vstd::layout::size_of;
use vstd::prelude::*;

use crate::primitives::{
    AccessList, AccessListEntry, AccessListItem, Address, Signature, SignedAuthorization, TxHash,
    B256,
};
use crate::transaction::{Transaction, TxFields};
use crate::transaction_signed::TransactionSigned;
use crate::tx_ecdsa::{TxEip1559, TxEip2930, TxEip4844, TxEip7702, TxLegacy};
use crate::tx_ml_dsa::{MlDsaFields, TxMlDsa};

verus! {

/// The number, or the largest `usize` where it is beyond that.
pub open spec fn saturated(n: nat) -> usize {
    if n <= usize::MAX {
        n as usize
    } else {
        usize::MAX
    }
}

/// Whether a vector that holds `held` items of type `T` can have room for `room` of them.
pub open spec fn fits<T>(held: nat, room: nat) -> bool {
    held <= room && room * size_of::<T>() <= isize::MAX
}

/// Whether an access list with the given entries can have room for `items` entries, and its entries
/// room for as many storage keys as `keys` says.
pub open spec fn has_room(entries: Seq<AccessListEntry>, items: nat, keys: Seq<nat>) -> bool {
    &&& fits::<AccessListItem>(entries.len(), items)
    &&& keys.len() == entries.len()
    &&& forall|i: int|
        0 <= i < keys.len() ==> fits::<B256>(entries[i].storage_keys.len(), #[trigger] keys[i])
}

/// What entries take that have room for as many storage keys as `keys` says: the address and the
/// keys of each.
pub open spec fn entries_total(keys: Seq<nat>) -> nat
    decreases keys.len(),
{
    if keys.len() == 0 {
        0
    } else {
        entries_total(keys.drop_last()) + size_of::<Address>() + keys.last() * size_of::<B256>()
    }
}

/// What an access list takes that has room for `items` entries, with room in its entries for as
/// many storage keys as `keys` says.
pub open spec fn list_total(items: nat, keys: Seq<nat>) -> nat {
    items * size_of::<AccessListItem>() + entries_total(keys)
}

impl MlDsaFields {
    /// What the transaction takes, given what its access list takes.
    pub open spec fn size_with(self, access_list: nat) -> nat {
        size_of::<TxMlDsa>() + access_list + self.input.len() + self.pubkey.len()
            + self.ml_dsa_signature.len()
    }
}

impl TxFields {
    /// What the transaction takes, given what its access list takes, and what its blob hashes or
    /// its authorizations have allocated. Where a type lacks any of them, it is not counted.
    pub open spec fn size_with(self, access_list: nat, list: nat) -> nat {
        match self {
            TxFields::Legacy(tx) => size_of::<TxLegacy>() + tx.input.len(),
            TxFields::Eip2930(tx) => size_of::<TxEip2930>() + access_list + tx.input.len(),
            TxFields::Eip1559(tx) => size_of::<TxEip1559>() + access_list + tx.input.len(),
            TxFields::Eip4844(tx) => size_of::<TxEip4844>() + access_list + tx.input.len() + list,
            TxFields::Eip7702(tx) => size_of::<TxEip7702>() + access_list + tx.input.len() + list,
            TxFields::MlDsa(tx) => tx.size_with(access_list),
        }
    }

    /// Whether the vectors of the transaction can have the given rooms: those of its access list,
    /// and that of its blob hashes or its authorizations.
    pub open spec fn has_rooms(self, items: nat, keys: Seq<nat>, list: nat) -> bool {
        &&& self.access_list() matches Some(entries) ==> has_room(entries, items, keys)
        &&& self.blob_versioned_hashes() matches Some(hashes) ==> fits::<B256>(hashes.len(), list)
        &&& self.authorization_list() matches Some(auths) ==> fits::<SignedAuthorization>(
            auths.len(),
            list,
        )
    }

    /// What the transaction takes whose vectors have the given rooms.
    pub open spec fn total(self, items: nat, keys: Seq<nat>, list: nat) -> nat {
        self.size_with(
            list_total(items, keys),
            if self is Eip4844 {
                list * size_of::<B256>()
            } else {
                list * size_of::<SignedAuthorization>()
            },
        )
    }
}

/// `std::vec::Vec::capacity`: how many items the vector has room for, at least those that it holds.
/// No vector allocates more than `isize::MAX` bytes.
#[verifier::external_body]
fn capacity<T>(items: &Vec<T>) -> (room: usize)
    ensures
        fits::<T>(items@.len(), room as nat),
{
    items.capacity()
}

/// The sizes of as many items as the vector has room for.
fn allocated<T>(items: &Vec<T>) -> (n: usize)
    ensures
        exists|room: nat| #[trigger] fits::<T>(items@.len(), room) && n == room * size_of::<T>(),
{
    let room: usize = capacity(items);
    let n: usize = room * core::mem::size_of::<T>();
    assert(fits::<T>(items@.len(), room as nat) && n == room as nat * size_of::<T>());
    n
}

/// The product, or the largest `usize` where it is beyond that.
fn product(a: usize, b: usize) -> (n: usize)
    ensures
        n == saturated(a as nat * b as nat),
{
    match a.checked_mul(b) {
        Some(n) => n,
        None => usize::MAX,
    }
}

/// The numbers as numbers without a bound.
pub open spec fn rooms(keys: Seq<usize>) -> Seq<nat> {
    keys.map_values(|room: usize| room as nat)
}

impl AccessList {
    /// How much memory a list takes that has room for `items` entries, with room in its entries for
    /// as many storage keys as `keys` says.
    pub fn size_with(items: usize, keys: &Vec<usize>) -> (n: usize)
        ensures
            n == saturated(list_total(items as nat, rooms(keys@))),
    {
        let mut n: usize = product(items, core::mem::size_of::<AccessListItem>());
        let mut i: usize = 0;
        assert(rooms(keys@).take(0) =~= Seq::<nat>::empty());
        while i < keys.len()
            invariant
                i <= keys.len(),
                n == saturated(list_total(items as nat, rooms(keys@).take(i as int))),
            decreases keys.len() - i,
        {
            proof {
                let front = rooms(keys@).take(i + 1);
                assert(front.drop_last() =~= rooms(keys@).take(i as int));
                assert(front.last() == keys@[i as int] as nat);
            }
            n = n.saturating_add(core::mem::size_of::<Address>()).saturating_add(
                product(keys[i], core::mem::size_of::<B256>()),
            );
            i += 1;
        }
        assert(rooms(keys@).take(i as int) =~= rooms(keys@));
        n
    }

    /// How much memory the list takes.
    pub fn size(&self) -> (n: usize)
        ensures
            exists|items: nat, keys: Seq<nat>| #[trigger]
                has_room(self@, items, keys) && n == saturated(list_total(items, keys)),
    {
        let items: usize = capacity(&self.items);
        let mut keys: Vec<usize> = Vec::with_capacity(self.items.len());
        let mut i: usize = 0;
        while i < self.items.len()
            invariant
                i == keys@.len(),
                i <= self.items.len(),
                forall|j: int|
                    0 <= j < i ==> fits::<B256>(
                        self@[j].storage_keys.len(),
                        #[trigger] keys@[j] as nat,
                    ),
            decreases self.items.len() - i,
        {
            assert(self@[i as int] == self.items@[i as int]@);
            keys.push(capacity(&self.items[i].storage_keys));
            i += 1;
        }
        assert(has_room(self@, items as nat, rooms(keys@)));
        Self::size_with(items, &keys)
    }
}

impl TxMlDsa {
    /// The size of this transaction, given that of its access list.
    pub fn size_with(&self, access_list: usize) -> (n: usize)
        ensures
            n == saturated(self@.size_with(access_list as nat)),
    {
        core::mem::size_of::<Self>().saturating_add(access_list).saturating_add(
            self.input.len(),
        ).saturating_add(self.pubkey.len()).saturating_add(self.ml_dsa_signature.len())
    }

    /// Returns a heuristic for the in-memory size of this transaction.
    pub fn size(&self) -> (n: usize)
        ensures
            exists|items: nat, keys: Seq<nat>| #[trigger]
                has_room(self@.access_list, items, keys) && n == saturated(
                    self@.size_with(list_total(items, keys)),
                ),
    {
        let access_list: usize = self.access_list.size();
        proof {
            let (items, keys) = choose|items: nat, keys: Seq<nat>| #[trigger]
                has_room(self@.access_list, items, keys) && access_list == saturated(
                    list_total(items, keys),
                );
            assert(has_room(self@.access_list, items, keys) && saturated(
                self@.size_with(access_list as nat),
            ) == saturated(self@.size_with(list_total(items, keys))));
        }
        self.size_with(access_list)
    }
}

impl Transaction {
    /// The size of this transaction, given that of its access list, and what its blob hashes or its
    /// authorizations have allocated.
    pub fn size_with(&self, access_list: usize, list: usize) -> (n: usize)
        ensures
            n == saturated(self@.size_with(access_list as nat, list as nat)),
    {
        match self {
            Transaction::Legacy(tx) => core::mem::size_of::<TxLegacy>().saturating_add(
                tx.input.len(),
            ),
            Transaction::Eip2930(tx) => core::mem::size_of::<TxEip2930>().saturating_add(
                access_list,
            ).saturating_add(tx.input.len()),
            Transaction::Eip1559(tx) => core::mem::size_of::<TxEip1559>().saturating_add(
                access_list,
            ).saturating_add(tx.input.len()),
            Transaction::Eip4844(tx) => core::mem::size_of::<TxEip4844>().saturating_add(
                access_list,
            ).saturating_add(tx.input.len()).saturating_add(list),
            Transaction::Eip7702(tx) => core::mem::size_of::<TxEip7702>().saturating_add(
                access_list,
            ).saturating_add(tx.input.len()).saturating_add(list),
            Transaction::MlDsa(tx) => tx.size_with(access_list),
        }
    }

    /// Returns a heuristic for the in-memory size of this transaction.
    pub fn size(&self) -> (n: usize)
        ensures
            exists|items: nat, keys: Seq<nat>, list: nat| #[trigger]
                self@.has_rooms(items, keys, list) && n == saturated(
                    self@.total(items, keys, list),
                ),
    {
        let access_list: usize = match self.access_list() {
            Some(access_list) => access_list.size(),
            None => 0,
        };
        let list: usize = match self {
            Transaction::Eip4844(tx) => allocated(&tx.blob_versioned_hashes),
            Transaction::Eip7702(tx) => allocated(&tx.authorization_list),
            _ => 0,
        };
        proof {
            let (items, keys) = match self@.access_list() {
                Some(entries) => choose|items: nat, keys: Seq<nat>| #[trigger]
                    has_room(entries, items, keys) && access_list == saturated(
                        list_total(items, keys),
                    ),
                None => (0nat, Seq::<nat>::empty()),
            };
            let room = match self@ {
                TxFields::Eip4844(tx) => choose|room: nat| #[trigger]
                    fits::<B256>(tx.blob_versioned_hashes.len(), room) && list == room * size_of::<
                        B256,
                    >(),
                TxFields::Eip7702(tx) => choose|room: nat| #[trigger]
                    fits::<SignedAuthorization>(tx.authorization_list.len(), room) && list == room
                        * size_of::<SignedAuthorization>(),
                _ => 0nat,
            };
            assert(self@.has_rooms(items, keys, room) && saturated(
                self@.size_with(access_list as nat, list as nat),
            ) == saturated(self@.total(items, keys, room)));
        }
        self.size_with(access_list, list)
    }
}

impl TransactionSigned {
    /// The size of this transaction, given that of the transaction without hash and signature.
    pub fn size_with(&self, transaction: usize) -> (n: usize)
        ensures
            n == saturated(size_of::<TxHash>() + size_of::<Signature>() + transaction as nat),
    {
        core::mem::size_of::<TxHash>().saturating_add(
            core::mem::size_of::<Signature>(),
        ).saturating_add(transaction)
    }

    /// Returns a heuristic for the in-memory size of this transaction: the hash, the signature and
    /// the transaction itself.
    pub fn size(&self) -> (n: usize)
        ensures
            exists|items: nat, keys: Seq<nat>, list: nat| #[trigger]
                self@.transaction.has_rooms(items, keys, list) && n == saturated(
                    size_of::<TxHash>() + size_of::<Signature>() + self@.transaction.total(
                        items,
                        keys,
                        list,
                    ),
                ),
    {
        let transaction: usize = self.transaction().size();
        proof {
            let (items, keys, list) = choose|items: nat, keys: Seq<nat>, list: nat| #[trigger]
                self@.transaction.has_rooms(items, keys, list) && transaction == saturated(
                    self@.transaction.total(items, keys, list),
                );
            assert(self@.transaction.has_rooms(items, keys, list) && saturated(
                size_of::<TxHash>() + size_of::<Signature>() + transaction as nat,
            ) == saturated(
                size_of::<TxHash>() + size_of::<Signature>() + self@.transaction.total(
                    items,
                    keys,
                    list,
                ),
            ));
        }
        self.size_with(transaction)
    }
}

} // verus!
