//! Fixed-size values that transactions are made of.

use vstd::prelude::*;

use crate::hashing::{feed_authorization, feed_signature, feed_u256};

verus! {

/// Arbitrary byte string.
pub type Bytes = Vec<u8>;

/// Identifier of a chain.
pub type ChainId = u64;

/// Hash of a transaction.
pub type TxHash = B256;

/// A 20-byte account address.
#[derive(Clone, Copy, Debug, Hash, Eq)]
pub struct Address {
    pub bytes: [u8; 20],
}

/// A 32-byte word, such as a hash or a storage key.
#[derive(Clone, Copy, Debug, Hash, Eq)]
pub struct B256 {
    pub bytes: [u8; 32],
}

/// A 256-bit unsigned integer, as four 64-bit words with the least significant first.
#[derive(Clone, Copy, Debug, PartialEq, Eq, Structural)]
pub struct U256 {
    pub w0: u64,
    pub w1: u64,
    pub w2: u64,
    pub w3: u64,
}

/// Destination of a transaction: a new contract, or a call of an address.
#[derive(Clone, Copy, Debug, Hash, Eq)]
pub enum TxKind {
    Create,
    Call(Address),
}

/// An address and the storage keys of it that a transaction announces to use.
#[derive(Debug, Hash, Eq)]
pub struct AccessListItem {
    pub address: Address,
    pub storage_keys: Vec<B256>,
}

/// The accounts and storage keys that a transaction announces to use.
#[derive(Debug, Hash, Eq)]
pub struct AccessList {
    pub items: Vec<AccessListItem>,
}

/// What an [`AccessListItem`] holds.
#[verifier::ext_equal]
pub struct AccessListEntry {
    pub address: Address,
    pub storage_keys: Seq<B256>,
}

impl View for AccessListItem {
    type V = AccessListEntry;

    open spec fn view(&self) -> AccessListEntry {
        AccessListEntry { address: self.address, storage_keys: self.storage_keys@ }
    }
}

impl View for AccessList {
    type V = Seq<AccessListEntry>;

    open spec fn view(&self) -> Seq<AccessListEntry> {
        Seq::new(self.items@.len(), |i: int| self.items@[i]@)
    }
}

/// An ECDSA signature over secp256k1, with the parity of the curve point's `y` coordinate.
#[derive(Clone, Copy, Debug, PartialEq, Eq, Structural)]
pub struct Signature {
    pub r: U256,
    pub s: U256,
    pub y_parity: bool,
}

impl core::hash::Hash for U256 {
    fn hash<H: core::hash::Hasher>(&self, state: &mut H) {
        feed_u256(*self, state)
    }
}

impl core::hash::Hash for Signature {
    fn hash<H: core::hash::Hasher>(&self, state: &mut H) {
        feed_signature(*self, state)
    }
}

impl core::hash::Hash for SignedAuthorization {
    fn hash<H: core::hash::Hasher>(&self, state: &mut H) {
        feed_authorization(self, state)
    }
}

/// Whether two slices hold the same bytes.
pub fn same_bytes(a: &[u8], b: &[u8]) -> (same: bool)
    ensures
        same == (a@ == b@),
{
    if a.len() != b.len() {
        return false;
    }
    let mut i: usize = 0;
    while i < a.len()
        invariant
            i <= a.len(),
            a.len() == b.len(),
            forall|j: int| 0 <= j < i ==> a@[j] == b@[j],
        decreases a.len() - i,
    {
        if a[i] != b[i] {
            return false;
        }
        i += 1;
    }
    assert(a@ =~= b@);
    true
}

/// A copy of the bytes of a slice.
pub fn copy_bytes(bytes: &[u8]) -> (copy: Bytes)
    ensures
        copy@ == bytes@,
{
    let mut copy: Bytes = Vec::with_capacity(bytes.len());
    copy.extend_from_slice(bytes);
    assert(copy@ =~= bytes@);
    copy
}

impl Address {
    /// The address of twenty zero bytes.
    pub fn zero() -> (a: Address)
        ensures
            a.bytes@ == Seq::new(20, |i: int| 0u8),
    {
        Address { bytes: [0u8; 20] }
    }
}

impl PartialEq for Address {
    fn eq(&self, other: &Self) -> (same: bool) {
        let same = same_bytes(self.bytes.as_slice(), other.bytes.as_slice());
        assert(same ==> self.bytes =~= other.bytes);
        same
    }
}

impl vstd::std_specs::cmp::PartialEqSpecImpl for Address {
    open spec fn obeys_eq_spec() -> bool {
        true
    }

    open spec fn eq_spec(&self, other: &Self) -> bool {
        *self == *other
    }
}

impl PartialEq for B256 {
    fn eq(&self, other: &Self) -> (same: bool) {
        let same = same_bytes(self.bytes.as_slice(), other.bytes.as_slice());
        assert(same ==> self.bytes =~= other.bytes);
        same
    }
}

impl vstd::std_specs::cmp::PartialEqSpecImpl for B256 {
    open spec fn obeys_eq_spec() -> bool {
        true
    }

    open spec fn eq_spec(&self, other: &Self) -> bool {
        *self == *other
    }
}

impl PartialEq for TxKind {
    fn eq(&self, other: &Self) -> (same: bool) {
        match (self, other) {
            (TxKind::Create, TxKind::Create) => true,
            (TxKind::Call(a), TxKind::Call(b)) => *a == *b,
            _ => false,
        }
    }
}

impl vstd::std_specs::cmp::PartialEqSpecImpl for TxKind {
    open spec fn obeys_eq_spec() -> bool {
        true
    }

    open spec fn eq_spec(&self, other: &Self) -> bool {
        *self == *other
    }
}

/// A permission of an account to run the code of an address, with its signature.
#[derive(Clone, Copy, Debug, Eq)]
pub struct SignedAuthorization {
    pub chain_id: U256,
    pub address: Address,
    pub nonce: u64,
    pub y_parity: u8,
    pub r: U256,
    pub s: U256,
}

/// A vector with the same items.
pub fn copy_vec<T: Copy>(items: &Vec<T>) -> (copy: Vec<T>)
    ensures
        copy@ == items@,
{
    let mut copy: Vec<T> = Vec::with_capacity(items.len());
    let mut i: usize = 0;
    while i < items.len()
        invariant
            i <= items.len(),
            copy@ == items@.take(i as int),
        decreases items.len() - i,
    {
        copy.push(items[i]);
        i += 1;
        assert(copy@ =~= items@.take(i as int));
    }
    assert(copy@ =~= items@);
    copy
}

/// Whether two vectors hold the same words.
pub fn same_words(a: &Vec<B256>, b: &Vec<B256>) -> (same: bool)
    ensures
        same == (a@ == b@),
{
    if a.len() != b.len() {
        return false;
    }
    let mut i: usize = 0;
    while i < a.len()
        invariant
            i <= a.len(),
            a.len() == b.len(),
            forall|j: int| 0 <= j < i ==> a@[j] == b@[j],
        decreases a.len() - i,
    {
        if a[i] != b[i] {
            return false;
        }
        i += 1;
    }
    assert(a@ =~= b@);
    true
}

/// Whether two vectors hold the same authorizations.
pub fn same_authorizations(
    a: &Vec<SignedAuthorization>,
    b: &Vec<SignedAuthorization>,
) -> (same: bool)
    ensures
        same == (a@ == b@),
{
    if a.len() != b.len() {
        return false;
    }
    let mut i: usize = 0;
    while i < a.len()
        invariant
            i <= a.len(),
            a.len() == b.len(),
            forall|j: int| 0 <= j < i ==> a@[j] == b@[j],
        decreases a.len() - i,
    {
        if a[i] != b[i] {
            return false;
        }
        i += 1;
    }
    assert(a@ =~= b@);
    true
}

impl PartialEq for SignedAuthorization {
    fn eq(&self, other: &Self) -> (same: bool) {
        self.chain_id == other.chain_id && self.address == other.address && self.nonce
            == other.nonce && self.y_parity == other.y_parity && self.r == other.r && self.s
            == other.s
    }
}

impl vstd::std_specs::cmp::PartialEqSpecImpl for SignedAuthorization {
    open spec fn obeys_eq_spec() -> bool {
        true
    }

    open spec fn eq_spec(&self, other: &Self) -> bool {
        *self == *other
    }
}

impl PartialEq for AccessListItem {
    fn eq(&self, other: &Self) -> (same: bool) {
        self.address == other.address && same_words(&self.storage_keys, &other.storage_keys)
    }
}

impl vstd::std_specs::cmp::PartialEqSpecImpl for AccessListItem {
    open spec fn obeys_eq_spec() -> bool {
        true
    }

    open spec fn eq_spec(&self, other: &Self) -> bool {
        self@ == other@
    }
}

impl PartialEq for AccessList {
    fn eq(&self, other: &Self) -> (same: bool) {
        let a = &self.items;
        let b = &other.items;
        if a.len() != b.len() {
            assert(self@.len() != other@.len());
            return false;
        }
        let mut i: usize = 0;
        while i < a.len()
            invariant
                i <= a.len(),
                a.len() == b.len(),
                a == self.items,
                b == other.items,
                forall|j: int| 0 <= j < i ==> self@[j] == other@[j],
            decreases a.len() - i,
        {
            if a[i] != b[i] {
                assert(self@[i as int] != other@[i as int]);
                return false;
            }
            i += 1;
        }
        assert(self@ =~= other@);
        true
    }
}

impl vstd::std_specs::cmp::PartialEqSpecImpl for AccessList {
    open spec fn obeys_eq_spec() -> bool {
        true
    }

    open spec fn eq_spec(&self, other: &Self) -> bool {
        self@ == other@
    }
}

impl Clone for AccessListItem {
    fn clone(&self) -> (copy: Self)
        ensures
            copy@ == self@,
    {
        AccessListItem { address: self.address, storage_keys: copy_vec(&self.storage_keys) }
    }
}

impl Clone for AccessList {
    fn clone(&self) -> (copy: Self)
        ensures
            copy@ == self@,
    {
        let mut items: Vec<AccessListItem> = Vec::with_capacity(self.items.len());
        let mut i: usize = 0;
        while i < self.items.len()
            invariant
                i <= self.items.len(),
                items.len() == i,
                forall|j: int| 0 <= j < i ==> items@[j]@ == self.items@[j]@,
            decreases self.items.len() - i,
        {
            items.push(self.items[i].clone());
            i += 1;
        }
        let copy = AccessList { items };
        assert(copy@ =~= self@);
        copy
    }
}

impl Default for AccessList {
    fn default() -> (list: Self)
        ensures
            list@ == Seq::<AccessListEntry>::empty(),
    {
        let list = AccessList { items: Vec::new() };
        assert(list@ =~= Seq::<AccessListEntry>::empty());
        list
    }
}

impl U256 {
    /// The number that the four words stand for.
    pub open spec fn as_nat(self) -> nat {
        (self.w0 + self.w1 * 0x1_0000_0000_0000_0000 + self.w2
            * 0x1_0000_0000_0000_0000_0000_0000_0000_0000 + self.w3
            * 0x1_0000_0000_0000_0000_0000_0000_0000_0000_0000_0000_0000_0000) as nat
    }

    /// Zero.
    pub fn zero() -> (n: U256)
        ensures
            n.as_nat() == 0,
            n == (U256 { w0: 0, w1: 0, w2: 0, w3: 0 }),
    {
        U256 { w0: 0, w1: 0, w2: 0, w3: 0 }
    }

    /// The 256-bit form of a 128-bit number.
    pub fn from_u128(value: u128) -> (n: U256)
        ensures
            n.as_nat() == value,
    {
        let n = U256 {
            w0: (value % 0x1_0000_0000_0000_0000) as u64,
            w1: (value / 0x1_0000_0000_0000_0000) as u64,
            w2: 0,
            w3: 0,
        };
        n
    }
}

/// Different words stand for different numbers.
pub proof fn lemma_u256_injective(a: U256, b: U256)
    requires
        a.as_nat() == b.as_nat(),
    ensures
        a == b,
{
}

/// Every 256-bit number is below two to the 256th.
pub proof fn lemma_u256_bound(a: U256)
    ensures
        a.as_nat()
            < 0x1_0000_0000_0000_0000_0000_0000_0000_0000_0000_0000_0000_0000_0000_0000_0000_0000,
{
}

impl TxKind {
    /// Whether the transaction creates a contract.
    pub fn is_create(&self) -> (b: bool)
        ensures
            b == (*self is Create),
    {
        matches!(self, TxKind::Create)
    }
}

} // verus!
