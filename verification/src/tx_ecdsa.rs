//! Ethereum's own transactions, which are signed with ECDSA.
//!
//! For each transaction there is the executable type, what it holds (`..Fields`), and what its
//! encodings are. A signed transaction is one RLP list of the fields and the signature; that list
//! shows where it ends, so it is an [`RlpItem`].

use vstd::prelude::*;

use crate::primitives::{
    copy_bytes, copy_vec, same_authorizations, same_bytes, same_words, AccessList, AccessListEntry,
    Address, Bytes, ChainId, Signature, SignedAuthorization, TxKind, B256, U256,
};
use crate::rlp::{
    lemma_item_list_prefix_free, lemma_list_prefix_free, rlp_concat, rlp_list, rlp_uint, RlpItem,
    LENGTH_LIMIT,
};

verus! {

/// An authorization is encoded as the list of its fields.
impl RlpItem for SignedAuthorization {
    open spec fn rlp(self) -> Seq<u8> {
        rlp_list(
            self.chain_id.rlp() + (self.address.rlp() + (self.nonce.rlp() + (self.y_parity.rlp() + (
            self.r.rlp() + self.s.rlp())))),
        )
    }

    proof fn lemma_prefix_free(a: Self, ra: Seq<u8>, b: Self, rb: Seq<u8>) {
        let none = Seq::<u8>::empty();
        let a5 = a.r.rlp() + a.s.rlp();
        let a4 = a.y_parity.rlp() + a5;
        let a3 = a.nonce.rlp() + a4;
        let a2 = a.address.rlp() + a3;
        let b5 = b.r.rlp() + b.s.rlp();
        let b4 = b.y_parity.rlp() + b5;
        let b3 = b.nonce.rlp() + b4;
        let b2 = b.address.rlp() + b3;
        lemma_list_prefix_free(a.chain_id.rlp() + a2, ra, b.chain_id.rlp() + b2, rb);
        U256::lemma_prefix_free(a.chain_id, a2, b.chain_id, b2);
        Address::lemma_prefix_free(a.address, a3, b.address, b3);
        <u64 as RlpItem>::lemma_prefix_free(a.nonce, a4, b.nonce, b4);
        <u8 as RlpItem>::lemma_prefix_free(a.y_parity, a5, b.y_parity, b5);
        U256::lemma_prefix_free(a.r, a.s.rlp(), b.r, b.s.rlp());
        assert(a.s.rlp() + none =~= a.s.rlp());
        assert(b.s.rlp() + none =~= b.s.rlp());
        U256::lemma_prefix_free(a.s, none, b.s, none);
    }

    proof fn lemma_nonempty(a: Self) {
    }
}

impl RlpItem for Seq<SignedAuthorization> {
    open spec fn rlp(self) -> Seq<u8> {
        rlp_list(rlp_concat(self))
    }

    proof fn lemma_prefix_free(a: Self, ra: Seq<u8>, b: Self, rb: Seq<u8>) {
        lemma_item_list_prefix_free(a, ra, b, rb);
    }

    proof fn lemma_nonempty(a: Self) {
    }
}

impl Signature {
    /// The encodings of the two scalars.
    pub open spec fn scalars(self) -> Seq<u8> {
        self.r.rlp() + self.s.rlp()
    }

    /// The encodings of parity and scalars, as they end a typed transaction.
    pub open spec fn parity_and_scalars(self) -> Seq<u8> {
        self.y_parity.rlp() + self.scalars()
    }
}

/// The value that stands for parity and chain in a legacy transaction's signature (EIP-155).
pub open spec fn eip155_value(y_parity: bool, chain_id: Option<u64>) -> nat {
    let parity: nat = if y_parity {
        1
    } else {
        0
    };
    match chain_id {
        Some(id) => (35 + id * 2 + parity) as nat,
        None => 27 + parity,
    }
}

/// The scalars that end a signed transaction are known from their encodings.
proof fn lemma_scalars_injective(a: Signature, b: Signature)
    requires
        a.scalars() == b.scalars(),
        a.scalars().len() < LENGTH_LIMIT,
    ensures
        a.r == b.r,
        a.s == b.s,
{
    let none = Seq::<u8>::empty();
    U256::lemma_prefix_free(a.r, a.s.rlp(), b.r, b.s.rlp());
    assert(a.s.rlp() + none =~= a.s.rlp());
    assert(b.s.rlp() + none =~= b.s.rlp());
    U256::lemma_prefix_free(a.s, none, b.s, none);
}

/// A transaction of the first kind, with a fixed gas price and no access list.
#[derive(Debug, Hash, Eq)]
pub struct TxLegacy {
    /// Chain ID for replay protection.
    pub chain_id: Option<ChainId>,
    /// Transaction nonce.
    pub nonce: u64,
    /// Price of a unit of gas.
    pub gas_price: u128,
    /// Gas limit.
    pub gas_limit: u64,
    /// Destination.
    pub to: TxKind,
    /// Value transferred in wei.
    pub value: U256,
    /// Calldata or init code.
    pub input: Bytes,
}

/// What a [`TxLegacy`] holds.
#[verifier::ext_equal]
pub struct LegacyFields {
    pub chain_id: Option<u64>,
    pub nonce: u64,
    pub gas_price: u128,
    pub gas_limit: u64,
    pub to: TxKind,
    pub value: U256,
    pub input: Seq<u8>,
}

impl View for TxLegacy {
    type V = LegacyFields;

    open spec fn view(&self) -> LegacyFields {
        LegacyFields {
            chain_id: self.chain_id,
            nonce: self.nonce,
            gas_price: self.gas_price,
            gas_limit: self.gas_limit,
            to: self.to,
            value: self.value,
            input: self.input@,
        }
    }
}

impl PartialEq for TxLegacy {
    fn eq(&self, other: &Self) -> (same: bool) {
        self.chain_id == other.chain_id
            && self.nonce == other.nonce
            && self.gas_price == other.gas_price
            && self.gas_limit == other.gas_limit
            && self.to == other.to
            && self.value == other.value
            && same_bytes(self.input.as_slice(), other.input.as_slice())
    }
}

impl vstd::std_specs::cmp::PartialEqSpecImpl for TxLegacy {
    open spec fn obeys_eq_spec() -> bool {
        true
    }

    open spec fn eq_spec(&self, other: &Self) -> bool {
        self@ == other@
    }
}

impl Clone for TxLegacy {
    fn clone(&self) -> (copy: Self)
        ensures
            copy@ == self@,
    {
        TxLegacy {
            chain_id: self.chain_id,
            nonce: self.nonce,
            gas_price: self.gas_price,
            gas_limit: self.gas_limit,
            to: self.to,
            value: self.value,
            input: copy_bytes(self.input.as_slice()),
        }
    }
}

impl LegacyFields {
    /// The encodings of the fields, one after the other, in front of `tail`.
    #[verifier::opaque]
    pub open spec fn fields_before(self, tail: Seq<u8>) -> Seq<u8> {
        self.nonce.rlp() + (self.gas_price.rlp() + (self.gas_limit.rlp() + (self.to.rlp() + (
        self.value.rlp() + (self.input.rlp() + tail)))))
    }

    /// In front of `tail` there is as much as there is without it.
    pub proof fn lemma_fields_before(self, tail: Seq<u8>)
        ensures
            self.fields_before(tail).len() == self.fields().len() + tail.len(),
    {
        reveal(LegacyFields::fields_before);
    }

    /// The encodings of the fields, one after the other.
    pub open spec fn fields(self) -> Seq<u8> {
        self.fields_before(Seq::empty())
    }

    /// What is hashed for signing: the fields, and, where the chain is given, the chain and two
    /// zeros (EIP-155), as one list.
    pub open spec fn signing_payload(self) -> Seq<u8> {
        rlp_list(
            match self.chain_id {
                Some(id) => self.fields_before(id.rlp() + (rlp_uint(0) + rlp_uint(0))),
                None => self.fields(),
            },
        )
    }
}

impl RlpItem for (LegacyFields, Signature) {
    open spec fn rlp(self) -> Seq<u8> {
        rlp_list(
            self.0.fields_before(
                rlp_uint(eip155_value(self.1.y_parity, self.0.chain_id)) + self.1.scalars(),
            ),
        )
    }

    proof fn lemma_prefix_free(a: Self, ra: Seq<u8>, b: Self, rb: Seq<u8>) {
        reveal(LegacyFields::fields_before);
        let va = eip155_value(a.1.y_parity, a.0.chain_id) as u128;
        let a7 = va.rlp() + a.1.scalars();
        let a6 = a.0.input.rlp() + a7;
        let a5 = a.0.value.rlp() + a6;
        let a4 = a.0.to.rlp() + a5;
        let a3 = a.0.gas_limit.rlp() + a4;
        let a2 = a.0.gas_price.rlp() + a3;
        let a1 = a.0.nonce.rlp() + a2;
        let vb = eip155_value(b.1.y_parity, b.0.chain_id) as u128;
        let b7 = vb.rlp() + b.1.scalars();
        let b6 = b.0.input.rlp() + b7;
        let b5 = b.0.value.rlp() + b6;
        let b4 = b.0.to.rlp() + b5;
        let b3 = b.0.gas_limit.rlp() + b4;
        let b2 = b.0.gas_price.rlp() + b3;
        let b1 = b.0.nonce.rlp() + b2;
        lemma_list_prefix_free(a1, ra, b1, rb);
        <u64 as RlpItem>::lemma_prefix_free(a.0.nonce, a2, b.0.nonce, b2);
        <u128 as RlpItem>::lemma_prefix_free(a.0.gas_price, a3, b.0.gas_price, b3);
        <u64 as RlpItem>::lemma_prefix_free(a.0.gas_limit, a4, b.0.gas_limit, b4);
        <TxKind as RlpItem>::lemma_prefix_free(a.0.to, a5, b.0.to, b5);
        <U256 as RlpItem>::lemma_prefix_free(a.0.value, a6, b.0.value, b6);
        <Seq<u8> as RlpItem>::lemma_prefix_free(a.0.input, a7, b.0.input, b7);
        <u128 as RlpItem>::lemma_prefix_free(va, a.1.scalars(), vb, b.1.scalars());
        lemma_scalars_injective(a.1, b.1);
    }

    proof fn lemma_nonempty(a: Self) {
    }
}

/// A transaction with an access list (EIP-2930).
#[derive(Debug, Hash, Eq)]
pub struct TxEip2930 {
    /// Chain ID for replay protection.
    pub chain_id: ChainId,
    /// Transaction nonce.
    pub nonce: u64,
    /// Price of a unit of gas.
    pub gas_price: u128,
    /// Gas limit.
    pub gas_limit: u64,
    /// Destination.
    pub to: TxKind,
    /// Value transferred in wei.
    pub value: U256,
    /// EIP-2930 access list.
    pub access_list: AccessList,
    /// Calldata or init code.
    pub input: Bytes,
}

/// What a [`TxEip2930`] holds.
#[verifier::ext_equal]
pub struct Eip2930Fields {
    pub chain_id: u64,
    pub nonce: u64,
    pub gas_price: u128,
    pub gas_limit: u64,
    pub to: TxKind,
    pub value: U256,
    pub access_list: Seq<AccessListEntry>,
    pub input: Seq<u8>,
}

impl View for TxEip2930 {
    type V = Eip2930Fields;

    open spec fn view(&self) -> Eip2930Fields {
        Eip2930Fields {
            chain_id: self.chain_id,
            nonce: self.nonce,
            gas_price: self.gas_price,
            gas_limit: self.gas_limit,
            to: self.to,
            value: self.value,
            access_list: self.access_list@,
            input: self.input@,
        }
    }
}

impl PartialEq for TxEip2930 {
    fn eq(&self, other: &Self) -> (same: bool) {
        self.chain_id == other.chain_id
            && self.nonce == other.nonce
            && self.gas_price == other.gas_price
            && self.gas_limit == other.gas_limit
            && self.to == other.to
            && self.value == other.value
            && self.access_list == other.access_list
            && same_bytes(self.input.as_slice(), other.input.as_slice())
    }
}

impl vstd::std_specs::cmp::PartialEqSpecImpl for TxEip2930 {
    open spec fn obeys_eq_spec() -> bool {
        true
    }

    open spec fn eq_spec(&self, other: &Self) -> bool {
        self@ == other@
    }
}

impl Clone for TxEip2930 {
    fn clone(&self) -> (copy: Self)
        ensures
            copy@ == self@,
    {
        TxEip2930 {
            chain_id: self.chain_id,
            nonce: self.nonce,
            gas_price: self.gas_price,
            gas_limit: self.gas_limit,
            to: self.to,
            value: self.value,
            access_list: self.access_list.clone(),
            input: copy_bytes(self.input.as_slice()),
        }
    }
}

impl Eip2930Fields {
    /// The encodings of the fields, one after the other, in front of `tail`.
    #[verifier::opaque]
    pub open spec fn fields_before(self, tail: Seq<u8>) -> Seq<u8> {
        self.chain_id.rlp() + (self.nonce.rlp() + (self.gas_price.rlp() + (self.gas_limit.rlp() + (
        self.to.rlp() + (self.value.rlp() + (self.input.rlp() + (
        self.access_list.rlp() + tail)))))))
    }

    /// In front of `tail` there is as much as there is without it.
    pub proof fn lemma_fields_before(self, tail: Seq<u8>)
        ensures
            self.fields_before(tail).len() == self.fields().len() + tail.len(),
    {
        reveal(Eip2930Fields::fields_before);
    }

    /// The encodings of the fields, one after the other.
    pub open spec fn fields(self) -> Seq<u8> {
        self.fields_before(Seq::empty())
    }

    /// What is hashed for signing: the type byte and the list of the fields.
    pub open spec fn signing_payload(self) -> Seq<u8> {
        seq![1u8] + rlp_list(self.fields())
    }
}

impl RlpItem for (Eip2930Fields, Signature) {
    open spec fn rlp(self) -> Seq<u8> {
        rlp_list(self.0.fields_before(self.1.parity_and_scalars()))
    }

    proof fn lemma_prefix_free(a: Self, ra: Seq<u8>, b: Self, rb: Seq<u8>) {
        reveal(Eip2930Fields::fields_before);
        let a9 = a.1.parity_and_scalars();
        let a8 = a.0.access_list.rlp() + a9;
        let a7 = a.0.input.rlp() + a8;
        let a6 = a.0.value.rlp() + a7;
        let a5 = a.0.to.rlp() + a6;
        let a4 = a.0.gas_limit.rlp() + a5;
        let a3 = a.0.gas_price.rlp() + a4;
        let a2 = a.0.nonce.rlp() + a3;
        let a1 = a.0.chain_id.rlp() + a2;
        let b9 = b.1.parity_and_scalars();
        let b8 = b.0.access_list.rlp() + b9;
        let b7 = b.0.input.rlp() + b8;
        let b6 = b.0.value.rlp() + b7;
        let b5 = b.0.to.rlp() + b6;
        let b4 = b.0.gas_limit.rlp() + b5;
        let b3 = b.0.gas_price.rlp() + b4;
        let b2 = b.0.nonce.rlp() + b3;
        let b1 = b.0.chain_id.rlp() + b2;
        lemma_list_prefix_free(a1, ra, b1, rb);
        <u64 as RlpItem>::lemma_prefix_free(a.0.chain_id, a2, b.0.chain_id, b2);
        <u64 as RlpItem>::lemma_prefix_free(a.0.nonce, a3, b.0.nonce, b3);
        <u128 as RlpItem>::lemma_prefix_free(a.0.gas_price, a4, b.0.gas_price, b4);
        <u64 as RlpItem>::lemma_prefix_free(a.0.gas_limit, a5, b.0.gas_limit, b5);
        <TxKind as RlpItem>::lemma_prefix_free(a.0.to, a6, b.0.to, b6);
        <U256 as RlpItem>::lemma_prefix_free(a.0.value, a7, b.0.value, b7);
        <Seq<u8> as RlpItem>::lemma_prefix_free(a.0.input, a8, b.0.input, b8);
        <Seq<AccessListEntry> as RlpItem>::lemma_prefix_free(
            a.0.access_list,
            a9,
            b.0.access_list,
            b9,
        );
        <bool as RlpItem>::lemma_prefix_free(
            a.1.y_parity,
            a.1.scalars(),
            b.1.y_parity,
            b.1.scalars(),
        );
        lemma_scalars_injective(a.1, b.1);
    }

    proof fn lemma_nonempty(a: Self) {
    }
}

/// A transaction with dynamic fees (EIP-1559).
#[derive(Debug, Hash, Eq)]
pub struct TxEip1559 {
    /// Chain ID for replay protection.
    pub chain_id: ChainId,
    /// Transaction nonce.
    pub nonce: u64,
    /// Gas limit.
    pub gas_limit: u64,
    /// Fee cap per unit of gas.
    pub max_fee_per_gas: u128,
    /// Tip cap per unit of gas.
    pub max_priority_fee_per_gas: u128,
    /// Destination.
    pub to: TxKind,
    /// Value transferred in wei.
    pub value: U256,
    /// EIP-2930 access list.
    pub access_list: AccessList,
    /// Calldata or init code.
    pub input: Bytes,
}

/// What a [`TxEip1559`] holds.
#[verifier::ext_equal]
pub struct Eip1559Fields {
    pub chain_id: u64,
    pub nonce: u64,
    pub gas_limit: u64,
    pub max_fee_per_gas: u128,
    pub max_priority_fee_per_gas: u128,
    pub to: TxKind,
    pub value: U256,
    pub access_list: Seq<AccessListEntry>,
    pub input: Seq<u8>,
}

impl View for TxEip1559 {
    type V = Eip1559Fields;

    open spec fn view(&self) -> Eip1559Fields {
        Eip1559Fields {
            chain_id: self.chain_id,
            nonce: self.nonce,
            gas_limit: self.gas_limit,
            max_fee_per_gas: self.max_fee_per_gas,
            max_priority_fee_per_gas: self.max_priority_fee_per_gas,
            to: self.to,
            value: self.value,
            access_list: self.access_list@,
            input: self.input@,
        }
    }
}

impl PartialEq for TxEip1559 {
    fn eq(&self, other: &Self) -> (same: bool) {
        self.chain_id == other.chain_id
            && self.nonce == other.nonce
            && self.gas_limit == other.gas_limit
            && self.max_fee_per_gas == other.max_fee_per_gas
            && self.max_priority_fee_per_gas == other.max_priority_fee_per_gas
            && self.to == other.to
            && self.value == other.value
            && self.access_list == other.access_list
            && same_bytes(self.input.as_slice(), other.input.as_slice())
    }
}

impl vstd::std_specs::cmp::PartialEqSpecImpl for TxEip1559 {
    open spec fn obeys_eq_spec() -> bool {
        true
    }

    open spec fn eq_spec(&self, other: &Self) -> bool {
        self@ == other@
    }
}

impl Clone for TxEip1559 {
    fn clone(&self) -> (copy: Self)
        ensures
            copy@ == self@,
    {
        TxEip1559 {
            chain_id: self.chain_id,
            nonce: self.nonce,
            gas_limit: self.gas_limit,
            max_fee_per_gas: self.max_fee_per_gas,
            max_priority_fee_per_gas: self.max_priority_fee_per_gas,
            to: self.to,
            value: self.value,
            access_list: self.access_list.clone(),
            input: copy_bytes(self.input.as_slice()),
        }
    }
}

impl Eip1559Fields {
    /// The encodings of the fields, one after the other, in front of `tail`.
    #[verifier::opaque]
    pub open spec fn fields_before(self, tail: Seq<u8>) -> Seq<u8> {
        self.chain_id.rlp() + (self.nonce.rlp() + (self.max_priority_fee_per_gas.rlp() + (
        self.max_fee_per_gas.rlp() + (self.gas_limit.rlp() + (self.to.rlp() + (self.value.rlp() + (
        self.input.rlp() + (self.access_list.rlp() + tail))))))))
    }

    /// In front of `tail` there is as much as there is without it.
    pub proof fn lemma_fields_before(self, tail: Seq<u8>)
        ensures
            self.fields_before(tail).len() == self.fields().len() + tail.len(),
    {
        reveal(Eip1559Fields::fields_before);
    }

    /// The encodings of the fields, one after the other.
    pub open spec fn fields(self) -> Seq<u8> {
        self.fields_before(Seq::empty())
    }

    /// What is hashed for signing: the type byte and the list of the fields.
    pub open spec fn signing_payload(self) -> Seq<u8> {
        seq![2u8] + rlp_list(self.fields())
    }
}

impl RlpItem for (Eip1559Fields, Signature) {
    open spec fn rlp(self) -> Seq<u8> {
        rlp_list(self.0.fields_before(self.1.parity_and_scalars()))
    }

    proof fn lemma_prefix_free(a: Self, ra: Seq<u8>, b: Self, rb: Seq<u8>) {
        reveal(Eip1559Fields::fields_before);
        let a10 = a.1.parity_and_scalars();
        let a9 = a.0.access_list.rlp() + a10;
        let a8 = a.0.input.rlp() + a9;
        let a7 = a.0.value.rlp() + a8;
        let a6 = a.0.to.rlp() + a7;
        let a5 = a.0.gas_limit.rlp() + a6;
        let a4 = a.0.max_fee_per_gas.rlp() + a5;
        let a3 = a.0.max_priority_fee_per_gas.rlp() + a4;
        let a2 = a.0.nonce.rlp() + a3;
        let a1 = a.0.chain_id.rlp() + a2;
        let b10 = b.1.parity_and_scalars();
        let b9 = b.0.access_list.rlp() + b10;
        let b8 = b.0.input.rlp() + b9;
        let b7 = b.0.value.rlp() + b8;
        let b6 = b.0.to.rlp() + b7;
        let b5 = b.0.gas_limit.rlp() + b6;
        let b4 = b.0.max_fee_per_gas.rlp() + b5;
        let b3 = b.0.max_priority_fee_per_gas.rlp() + b4;
        let b2 = b.0.nonce.rlp() + b3;
        let b1 = b.0.chain_id.rlp() + b2;
        lemma_list_prefix_free(a1, ra, b1, rb);
        <u64 as RlpItem>::lemma_prefix_free(a.0.chain_id, a2, b.0.chain_id, b2);
        <u64 as RlpItem>::lemma_prefix_free(a.0.nonce, a3, b.0.nonce, b3);
        <u128 as RlpItem>::lemma_prefix_free(
            a.0.max_priority_fee_per_gas,
            a4,
            b.0.max_priority_fee_per_gas,
            b4,
        );
        <u128 as RlpItem>::lemma_prefix_free(a.0.max_fee_per_gas, a5, b.0.max_fee_per_gas, b5);
        <u64 as RlpItem>::lemma_prefix_free(a.0.gas_limit, a6, b.0.gas_limit, b6);
        <TxKind as RlpItem>::lemma_prefix_free(a.0.to, a7, b.0.to, b7);
        <U256 as RlpItem>::lemma_prefix_free(a.0.value, a8, b.0.value, b8);
        <Seq<u8> as RlpItem>::lemma_prefix_free(a.0.input, a9, b.0.input, b9);
        <Seq<AccessListEntry> as RlpItem>::lemma_prefix_free(
            a.0.access_list,
            a10,
            b.0.access_list,
            b10,
        );
        <bool as RlpItem>::lemma_prefix_free(
            a.1.y_parity,
            a.1.scalars(),
            b.1.y_parity,
            b.1.scalars(),
        );
        lemma_scalars_injective(a.1, b.1);
    }

    proof fn lemma_nonempty(a: Self) {
    }
}

/// A transaction that carries blobs (EIP-4844).
#[derive(Debug, Hash, Eq)]
pub struct TxEip4844 {
    /// Chain ID for replay protection.
    pub chain_id: ChainId,
    /// Transaction nonce.
    pub nonce: u64,
    /// Gas limit.
    pub gas_limit: u64,
    /// Fee cap per unit of gas.
    pub max_fee_per_gas: u128,
    /// Tip cap per unit of gas.
    pub max_priority_fee_per_gas: u128,
    /// Destination.
    pub to: Address,
    /// Value transferred in wei.
    pub value: U256,
    /// EIP-2930 access list.
    pub access_list: AccessList,
    /// Versioned hashes of the blobs.
    pub blob_versioned_hashes: Vec<B256>,
    /// Fee cap per unit of blob gas.
    pub max_fee_per_blob_gas: u128,
    /// Calldata or init code.
    pub input: Bytes,
}

/// What a [`TxEip4844`] holds.
#[verifier::ext_equal]
pub struct Eip4844Fields {
    pub chain_id: u64,
    pub nonce: u64,
    pub gas_limit: u64,
    pub max_fee_per_gas: u128,
    pub max_priority_fee_per_gas: u128,
    pub to: Address,
    pub value: U256,
    pub access_list: Seq<AccessListEntry>,
    pub blob_versioned_hashes: Seq<B256>,
    pub max_fee_per_blob_gas: u128,
    pub input: Seq<u8>,
}

impl View for TxEip4844 {
    type V = Eip4844Fields;

    open spec fn view(&self) -> Eip4844Fields {
        Eip4844Fields {
            chain_id: self.chain_id,
            nonce: self.nonce,
            gas_limit: self.gas_limit,
            max_fee_per_gas: self.max_fee_per_gas,
            max_priority_fee_per_gas: self.max_priority_fee_per_gas,
            to: self.to,
            value: self.value,
            access_list: self.access_list@,
            blob_versioned_hashes: self.blob_versioned_hashes@,
            max_fee_per_blob_gas: self.max_fee_per_blob_gas,
            input: self.input@,
        }
    }
}

impl PartialEq for TxEip4844 {
    fn eq(&self, other: &Self) -> (same: bool) {
        self.chain_id == other.chain_id
            && self.nonce == other.nonce
            && self.gas_limit == other.gas_limit
            && self.max_fee_per_gas == other.max_fee_per_gas
            && self.max_priority_fee_per_gas == other.max_priority_fee_per_gas
            && self.to == other.to
            && self.value == other.value
            && self.access_list == other.access_list
            && same_words(&self.blob_versioned_hashes, &other.blob_versioned_hashes)
            && self.max_fee_per_blob_gas == other.max_fee_per_blob_gas
            && same_bytes(self.input.as_slice(), other.input.as_slice())
    }
}

impl vstd::std_specs::cmp::PartialEqSpecImpl for TxEip4844 {
    open spec fn obeys_eq_spec() -> bool {
        true
    }

    open spec fn eq_spec(&self, other: &Self) -> bool {
        self@ == other@
    }
}

impl Clone for TxEip4844 {
    fn clone(&self) -> (copy: Self)
        ensures
            copy@ == self@,
    {
        TxEip4844 {
            chain_id: self.chain_id,
            nonce: self.nonce,
            gas_limit: self.gas_limit,
            max_fee_per_gas: self.max_fee_per_gas,
            max_priority_fee_per_gas: self.max_priority_fee_per_gas,
            to: self.to,
            value: self.value,
            access_list: self.access_list.clone(),
            blob_versioned_hashes: copy_vec(&self.blob_versioned_hashes),
            max_fee_per_blob_gas: self.max_fee_per_blob_gas,
            input: copy_bytes(self.input.as_slice()),
        }
    }
}

impl Eip4844Fields {
    /// The encodings of the fields, one after the other, in front of `tail`.
    #[verifier::opaque]
    pub open spec fn fields_before(self, tail: Seq<u8>) -> Seq<u8> {
        self.chain_id.rlp() + (self.nonce.rlp() + (self.max_priority_fee_per_gas.rlp() + (
        self.max_fee_per_gas.rlp() + (self.gas_limit.rlp() + (self.to.rlp() + (self.value.rlp() + (
        self.input.rlp() + (self.access_list.rlp() + (self.max_fee_per_blob_gas.rlp() + (
        self.blob_versioned_hashes.rlp() + tail))))))))))
    }

    /// In front of `tail` there is as much as there is without it.
    pub proof fn lemma_fields_before(self, tail: Seq<u8>)
        ensures
            self.fields_before(tail).len() == self.fields().len() + tail.len(),
    {
        reveal(Eip4844Fields::fields_before);
    }

    /// The encodings of the fields, one after the other.
    pub open spec fn fields(self) -> Seq<u8> {
        self.fields_before(Seq::empty())
    }

    /// What is hashed for signing: the type byte and the list of the fields.
    pub open spec fn signing_payload(self) -> Seq<u8> {
        seq![3u8] + rlp_list(self.fields())
    }
}

impl RlpItem for (Eip4844Fields, Signature) {
    open spec fn rlp(self) -> Seq<u8> {
        rlp_list(self.0.fields_before(self.1.parity_and_scalars()))
    }

    proof fn lemma_prefix_free(a: Self, ra: Seq<u8>, b: Self, rb: Seq<u8>) {
        reveal(Eip4844Fields::fields_before);
        let a12 = a.1.parity_and_scalars();
        let a11 = a.0.blob_versioned_hashes.rlp() + a12;
        let a10 = a.0.max_fee_per_blob_gas.rlp() + a11;
        let a9 = a.0.access_list.rlp() + a10;
        let a8 = a.0.input.rlp() + a9;
        let a7 = a.0.value.rlp() + a8;
        let a6 = a.0.to.rlp() + a7;
        let a5 = a.0.gas_limit.rlp() + a6;
        let a4 = a.0.max_fee_per_gas.rlp() + a5;
        let a3 = a.0.max_priority_fee_per_gas.rlp() + a4;
        let a2 = a.0.nonce.rlp() + a3;
        let a1 = a.0.chain_id.rlp() + a2;
        let b12 = b.1.parity_and_scalars();
        let b11 = b.0.blob_versioned_hashes.rlp() + b12;
        let b10 = b.0.max_fee_per_blob_gas.rlp() + b11;
        let b9 = b.0.access_list.rlp() + b10;
        let b8 = b.0.input.rlp() + b9;
        let b7 = b.0.value.rlp() + b8;
        let b6 = b.0.to.rlp() + b7;
        let b5 = b.0.gas_limit.rlp() + b6;
        let b4 = b.0.max_fee_per_gas.rlp() + b5;
        let b3 = b.0.max_priority_fee_per_gas.rlp() + b4;
        let b2 = b.0.nonce.rlp() + b3;
        let b1 = b.0.chain_id.rlp() + b2;
        lemma_list_prefix_free(a1, ra, b1, rb);
        <u64 as RlpItem>::lemma_prefix_free(a.0.chain_id, a2, b.0.chain_id, b2);
        <u64 as RlpItem>::lemma_prefix_free(a.0.nonce, a3, b.0.nonce, b3);
        <u128 as RlpItem>::lemma_prefix_free(
            a.0.max_priority_fee_per_gas,
            a4,
            b.0.max_priority_fee_per_gas,
            b4,
        );
        <u128 as RlpItem>::lemma_prefix_free(a.0.max_fee_per_gas, a5, b.0.max_fee_per_gas, b5);
        <u64 as RlpItem>::lemma_prefix_free(a.0.gas_limit, a6, b.0.gas_limit, b6);
        <Address as RlpItem>::lemma_prefix_free(a.0.to, a7, b.0.to, b7);
        <U256 as RlpItem>::lemma_prefix_free(a.0.value, a8, b.0.value, b8);
        <Seq<u8> as RlpItem>::lemma_prefix_free(a.0.input, a9, b.0.input, b9);
        <Seq<AccessListEntry> as RlpItem>::lemma_prefix_free(
            a.0.access_list,
            a10,
            b.0.access_list,
            b10,
        );
        <u128 as RlpItem>::lemma_prefix_free(
            a.0.max_fee_per_blob_gas,
            a11,
            b.0.max_fee_per_blob_gas,
            b11,
        );
        <Seq<B256> as RlpItem>::lemma_prefix_free(
            a.0.blob_versioned_hashes,
            a12,
            b.0.blob_versioned_hashes,
            b12,
        );
        <bool as RlpItem>::lemma_prefix_free(
            a.1.y_parity,
            a.1.scalars(),
            b.1.y_parity,
            b.1.scalars(),
        );
        lemma_scalars_injective(a.1, b.1);
    }

    proof fn lemma_nonempty(a: Self) {
    }
}

/// A transaction that sets account code (EIP-7702).
#[derive(Debug, Hash, Eq)]
pub struct TxEip7702 {
    /// Chain ID for replay protection.
    pub chain_id: ChainId,
    /// Transaction nonce.
    pub nonce: u64,
    /// Gas limit.
    pub gas_limit: u64,
    /// Fee cap per unit of gas.
    pub max_fee_per_gas: u128,
    /// Tip cap per unit of gas.
    pub max_priority_fee_per_gas: u128,
    /// Destination.
    pub to: Address,
    /// Value transferred in wei.
    pub value: U256,
    /// EIP-2930 access list.
    pub access_list: AccessList,
    /// EIP-7702 authorizations.
    pub authorization_list: Vec<SignedAuthorization>,
    /// Calldata or init code.
    pub input: Bytes,
}

/// What a [`TxEip7702`] holds.
#[verifier::ext_equal]
pub struct Eip7702Fields {
    pub chain_id: u64,
    pub nonce: u64,
    pub gas_limit: u64,
    pub max_fee_per_gas: u128,
    pub max_priority_fee_per_gas: u128,
    pub to: Address,
    pub value: U256,
    pub access_list: Seq<AccessListEntry>,
    pub authorization_list: Seq<SignedAuthorization>,
    pub input: Seq<u8>,
}

impl View for TxEip7702 {
    type V = Eip7702Fields;

    open spec fn view(&self) -> Eip7702Fields {
        Eip7702Fields {
            chain_id: self.chain_id,
            nonce: self.nonce,
            gas_limit: self.gas_limit,
            max_fee_per_gas: self.max_fee_per_gas,
            max_priority_fee_per_gas: self.max_priority_fee_per_gas,
            to: self.to,
            value: self.value,
            access_list: self.access_list@,
            authorization_list: self.authorization_list@,
            input: self.input@,
        }
    }
}

impl PartialEq for TxEip7702 {
    fn eq(&self, other: &Self) -> (same: bool) {
        self.chain_id == other.chain_id
            && self.nonce == other.nonce
            && self.gas_limit == other.gas_limit
            && self.max_fee_per_gas == other.max_fee_per_gas
            && self.max_priority_fee_per_gas == other.max_priority_fee_per_gas
            && self.to == other.to
            && self.value == other.value
            && self.access_list == other.access_list
            && same_authorizations(&self.authorization_list, &other.authorization_list)
            && same_bytes(self.input.as_slice(), other.input.as_slice())
    }
}

impl vstd::std_specs::cmp::PartialEqSpecImpl for TxEip7702 {
    open spec fn obeys_eq_spec() -> bool {
        true
    }

    open spec fn eq_spec(&self, other: &Self) -> bool {
        self@ == other@
    }
}

impl Clone for TxEip7702 {
    fn clone(&self) -> (copy: Self)
        ensures
            copy@ == self@,
    {
        TxEip7702 {
            chain_id: self.chain_id,
            nonce: self.nonce,
            gas_limit: self.gas_limit,
            max_fee_per_gas: self.max_fee_per_gas,
            max_priority_fee_per_gas: self.max_priority_fee_per_gas,
            to: self.to,
            value: self.value,
            access_list: self.access_list.clone(),
            authorization_list: copy_vec(&self.authorization_list),
            input: copy_bytes(self.input.as_slice()),
        }
    }
}

impl Eip7702Fields {
    /// The encodings of the fields, one after the other, in front of `tail`.
    #[verifier::opaque]
    pub open spec fn fields_before(self, tail: Seq<u8>) -> Seq<u8> {
        self.chain_id.rlp() + (self.nonce.rlp() + (self.max_priority_fee_per_gas.rlp() + (
        self.max_fee_per_gas.rlp() + (self.gas_limit.rlp() + (self.to.rlp() + (self.value.rlp() + (
        self.input.rlp() + (self.access_list.rlp() + (self.authorization_list.rlp() + tail)))))))))
    }

    /// In front of `tail` there is as much as there is without it.
    pub proof fn lemma_fields_before(self, tail: Seq<u8>)
        ensures
            self.fields_before(tail).len() == self.fields().len() + tail.len(),
    {
        reveal(Eip7702Fields::fields_before);
    }

    /// The encodings of the fields, one after the other.
    pub open spec fn fields(self) -> Seq<u8> {
        self.fields_before(Seq::empty())
    }

    /// What is hashed for signing: the type byte and the list of the fields.
    pub open spec fn signing_payload(self) -> Seq<u8> {
        seq![4u8] + rlp_list(self.fields())
    }
}

impl RlpItem for (Eip7702Fields, Signature) {
    open spec fn rlp(self) -> Seq<u8> {
        rlp_list(self.0.fields_before(self.1.parity_and_scalars()))
    }

    proof fn lemma_prefix_free(a: Self, ra: Seq<u8>, b: Self, rb: Seq<u8>) {
        reveal(Eip7702Fields::fields_before);
        let a11 = a.1.parity_and_scalars();
        let a10 = a.0.authorization_list.rlp() + a11;
        let a9 = a.0.access_list.rlp() + a10;
        let a8 = a.0.input.rlp() + a9;
        let a7 = a.0.value.rlp() + a8;
        let a6 = a.0.to.rlp() + a7;
        let a5 = a.0.gas_limit.rlp() + a6;
        let a4 = a.0.max_fee_per_gas.rlp() + a5;
        let a3 = a.0.max_priority_fee_per_gas.rlp() + a4;
        let a2 = a.0.nonce.rlp() + a3;
        let a1 = a.0.chain_id.rlp() + a2;
        let b11 = b.1.parity_and_scalars();
        let b10 = b.0.authorization_list.rlp() + b11;
        let b9 = b.0.access_list.rlp() + b10;
        let b8 = b.0.input.rlp() + b9;
        let b7 = b.0.value.rlp() + b8;
        let b6 = b.0.to.rlp() + b7;
        let b5 = b.0.gas_limit.rlp() + b6;
        let b4 = b.0.max_fee_per_gas.rlp() + b5;
        let b3 = b.0.max_priority_fee_per_gas.rlp() + b4;
        let b2 = b.0.nonce.rlp() + b3;
        let b1 = b.0.chain_id.rlp() + b2;
        lemma_list_prefix_free(a1, ra, b1, rb);
        <u64 as RlpItem>::lemma_prefix_free(a.0.chain_id, a2, b.0.chain_id, b2);
        <u64 as RlpItem>::lemma_prefix_free(a.0.nonce, a3, b.0.nonce, b3);
        <u128 as RlpItem>::lemma_prefix_free(
            a.0.max_priority_fee_per_gas,
            a4,
            b.0.max_priority_fee_per_gas,
            b4,
        );
        <u128 as RlpItem>::lemma_prefix_free(a.0.max_fee_per_gas, a5, b.0.max_fee_per_gas, b5);
        <u64 as RlpItem>::lemma_prefix_free(a.0.gas_limit, a6, b.0.gas_limit, b6);
        <Address as RlpItem>::lemma_prefix_free(a.0.to, a7, b.0.to, b7);
        <U256 as RlpItem>::lemma_prefix_free(a.0.value, a8, b.0.value, b8);
        <Seq<u8> as RlpItem>::lemma_prefix_free(a.0.input, a9, b.0.input, b9);
        <Seq<AccessListEntry> as RlpItem>::lemma_prefix_free(
            a.0.access_list,
            a10,
            b.0.access_list,
            b10,
        );
        <Seq<SignedAuthorization> as RlpItem>::lemma_prefix_free(
            a.0.authorization_list,
            a11,
            b.0.authorization_list,
            b11,
        );
        <bool as RlpItem>::lemma_prefix_free(
            a.1.y_parity,
            a.1.scalars(),
            b.1.y_parity,
            b.1.scalars(),
        );
        lemma_scalars_injective(a.1, b.1);
    }

    proof fn lemma_nonempty(a: Self) {
    }
}

} // verus!
