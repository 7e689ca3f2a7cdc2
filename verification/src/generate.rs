//! Transactions drawn from unstructured bytes, for tests and fuzzing.
//!
//! Which value some bytes are drawn out to is up to the crate `arbitrary`; what becomes of it is
//! decided here. Drawing never fails: where bytes are missing, zeros stand in for them.

use alloy_consensus::{
    TxEip1559 as AlloyTxEip1559, TxEip2930 as AlloyTxEip2930, TxEip4844 as AlloyTxEip4844,
    TxEip7702 as AlloyTxEip7702, TxLegacy as AlloyTxLegacy,
};
use alloy_eips::eip2930::AccessList as AlloyAccessList;
use alloy_primitives::{TxKind as AlloyTxKind, U256 as AlloyU256};
use arbitrary::Unstructured;
use vstd::prelude::*;

use crate::compact::le_value;
use crate::crypto::keccak;
use crate::envelope_codec::unhashed;
use crate::primitives::{AccessList, AccessListEntry, Address, Bytes, Signature, TxKind, B256, U256};
use crate::rlp::be_value;
use crate::rlp_codec::{own_access_list, own_kind, own_u256};
use crate::transaction::{dummy_signature, ml_dsa_dummy_signature, Transaction, TxFields};
use crate::transaction_signed::TransactionSigned;
use crate::tx_ecdsa::{
    Eip1559Fields, Eip2930Fields, Eip4844Fields, Eip7702Fields, LegacyFields, TxEip1559, TxEip2930,
    TxEip4844, TxEip7702, TxLegacy,
};
use crate::tx_ecdsa_codec::{
    own_eip1559, own_eip2930, own_eip4844, own_eip7702, own_legacy, own_signature,
};
use crate::tx_ml_dsa::{
    expected_pubkey_len, expected_signature_len, pubkey_len, signature_len, MlDsaFields, TxMlDsa,
};
use crate::tx_type::DiesisTxType;

verus! {

/// Why no transaction was drawn.
#[derive(Clone, Copy, Debug, PartialEq, Eq)]
pub enum GenerateError {
    /// The bytes do not do for a transaction.
    Draw,
    /// The key cannot sign.
    Key,
}

/// The error of the crate `arbitrary`.
#[verifier::external_type_specification]
#[verifier::external_body]
pub struct ExArbitraryError(arbitrary::Error);

/// The bytes that values are drawn from.
#[verifier::external_type_specification]
#[verifier::external_body]
pub struct ExUnstructured<'a>(Unstructured<'a>);

/// The error of `libsecp256k1`.
#[verifier::external_type_specification]
#[verifier::external_body]
pub struct ExSecp256k1Error(secp256k1::Error);

/// The bytes that are still to be drawn from.
pub uninterp spec fn unread(u: Unstructured<'_>) -> Seq<u8>;

/// The first `n` bytes of `s`, with zeros for those that are not there.
pub open spec fn front(s: Seq<u8>, n: nat) -> Seq<u8> {
    Seq::new(
        n,
        |i: int|
            if i < s.len() {
                s[i]
            } else {
                0u8
            },
    )
}

/// What is left of `s` once `n` bytes, or as many as there are, are taken off.
pub open spec fn after(s: Seq<u8>, n: nat) -> Seq<u8> {
    if n <= s.len() {
        s.skip(n as int)
    } else {
        Seq::empty()
    }
}

/// The choice that the next byte stands for, counted round and round; the first where there is no
/// byte.
pub open spec fn drawn_choice(s: Seq<u8>, choices: Seq<u8>) -> (u8, Seq<u8>) {
    if s.len() == 0 {
        (choices[0], s)
    } else {
        (choices[s[0] as int % choices.len() as int], after(s, 1))
    }
}

/// `arbitrary::Unstructured::choose`: the choice that the next byte stands for. One byte is enough
/// for up to 256 choices, and none is taken for a single one.
#[verifier::external_body]
fn draw_choice(u: &mut Unstructured<'_>, choices: &[u8]) -> (result: Result<u8, arbitrary::Error>)
    requires
        1 < choices@.len() <= 256,
    ensures
        result is Ok,
        (result->Ok_0, unread(*final(u))) == drawn_choice(unread(*old(u)), choices@),
{
    u.choose(choices).copied()
}

/// Whether the next byte is odd.
pub open spec fn drawn_bool(s: Seq<u8>) -> (bool, Seq<u8>) {
    (front(s, 1)[0] % 2 == 1, after(s, 1))
}

/// `arbitrary::Unstructured::arbitrary`, for `bool`: whether the next byte is odd.
#[verifier::external_body]
fn draw_bool(u: &mut Unstructured<'_>) -> (result: Result<bool, arbitrary::Error>)
    ensures
        result is Ok,
        (result->Ok_0, unread(*final(u))) == drawn_bool(unread(*old(u))),
{
    u.arbitrary::<bool>()
}

/// The number that the next byte is.
pub open spec fn drawn_u8(s: Seq<u8>) -> (u8, Seq<u8>) {
    (le_value(front(s, 1)) as u8, after(s, 1))
}

/// `arbitrary::Unstructured::arbitrary`, for `u8`: the number that the next bytes stand for.
#[verifier::external_body]
fn draw_u8(u: &mut Unstructured<'_>) -> (result: Result<u8, arbitrary::Error>)
    ensures
        result is Ok,
        (result->Ok_0, unread(*final(u))) == drawn_u8(unread(*old(u))),
{
    u.arbitrary::<u8>()
}

/// The number that the next 4 bytes, the lowest first, stand for.
pub open spec fn drawn_u32(s: Seq<u8>) -> (u32, Seq<u8>) {
    (le_value(front(s, 4)) as u32, after(s, 4))
}

/// `arbitrary::Unstructured::arbitrary`, for `u32`: the number that the next bytes stand for.
#[verifier::external_body]
fn draw_u32(u: &mut Unstructured<'_>) -> (result: Result<u32, arbitrary::Error>)
    ensures
        result is Ok,
        (result->Ok_0, unread(*final(u))) == drawn_u32(unread(*old(u))),
{
    u.arbitrary::<u32>()
}

/// The number that the next 8 bytes, the lowest first, stand for.
pub open spec fn drawn_u64(s: Seq<u8>) -> (u64, Seq<u8>) {
    (le_value(front(s, 8)) as u64, after(s, 8))
}

/// `arbitrary::Unstructured::arbitrary`, for `u64`: the number that the next bytes stand for.
#[verifier::external_body]
fn draw_u64(u: &mut Unstructured<'_>) -> (result: Result<u64, arbitrary::Error>)
    ensures
        result is Ok,
        (result->Ok_0, unread(*final(u))) == drawn_u64(unread(*old(u))),
{
    u.arbitrary::<u64>()
}

/// The number that the next 16 bytes, the lowest first, stand for.
pub open spec fn drawn_u128(s: Seq<u8>) -> (u128, Seq<u8>) {
    (le_value(front(s, 16)) as u128, after(s, 16))
}

/// `arbitrary::Unstructured::arbitrary`, for `u128`: the number that the next bytes stand for.
#[verifier::external_body]
fn draw_u128(u: &mut Unstructured<'_>) -> (result: Result<u128, arbitrary::Error>)
    ensures
        result is Ok,
        (result->Ok_0, unread(*final(u))) == drawn_u128(unread(*old(u))),
{
    u.arbitrary::<u128>()
}

/// The address with the given twenty bytes.
pub open spec fn address_of(bytes: Seq<u8>) -> Address {
    choose|address: Address| #[trigger] address.bytes@ == bytes
}

/// The address with the next twenty bytes.
pub open spec fn drawn_address(s: Seq<u8>) -> (Address, Seq<u8>) {
    (address_of(front(s, 20)), after(s, 20))
}

/// `arbitrary::Unstructured::arbitrary`, for `alloy_primitives::Address`: the address with the next
/// twenty bytes.
#[verifier::external_body]
fn draw_address(u: &mut Unstructured<'_>) -> (result: Result<Address, arbitrary::Error>)
    ensures
        result is Ok,
        (result->Ok_0, unread(*final(u))) == drawn_address(unread(*old(u))),
{
    u.arbitrary::<alloy_primitives::Address>().map(|address| Address { bytes: address.into() })
}

/// The destination that the next bytes stand for: the upper half of the 32-bit numbers calls the
/// address that follows.
pub open spec fn drawn_kind(s: Seq<u8>) -> (TxKind, Seq<u8>) {
    let (n, s) = drawn_u32(s);
    if n < 0x8000_0000 {
        (TxKind::Create, s)
    } else {
        let (to, s) = drawn_address(s);
        (TxKind::Call(to), s)
    }
}

/// `arbitrary::Unstructured::arbitrary`, for `alloy_primitives::TxKind`: the destination that the
/// next bytes stand for.
#[verifier::external_body]
fn draw_kind(u: &mut Unstructured<'_>) -> (result: Result<TxKind, arbitrary::Error>)
    ensures
        result is Ok,
        (result->Ok_0, unread(*final(u))) == drawn_kind(unread(*old(u))),
{
    u.arbitrary::<AlloyTxKind>().map(own_kind)
}

/// The number whose words the next bytes stand for: eight bytes each, the lowest first, and for the
/// most significant word, of which the missing bytes are left out, the highest first.
pub open spec fn drawn_u256(s: Seq<u8>) -> (U256, Seq<u8>) {
    let (w0, s) = drawn_u64(s);
    let (w1, s) = drawn_u64(s);
    let (w2, s) = drawn_u64(s);
    let last = if s.len() < 8 {
        s
    } else {
        s.take(8)
    };
    (U256 { w0, w1, w2, w3: be_value(last) as u64 }, after(s, 8))
}

/// `arbitrary::Unstructured::arbitrary`, for `alloy_primitives::U256`: the number whose words the
/// next bytes stand for.
#[verifier::external_body]
fn draw_u256(u: &mut Unstructured<'_>) -> (result: Result<U256, arbitrary::Error>)
    ensures
        result is Ok,
        (result->Ok_0, unread(*final(u))) == drawn_u256(unread(*old(u))),
{
    u.arbitrary::<AlloyU256>().map(own_u256)
}

/// The bytes that each stand behind an odd byte, up to the first byte that is even.
pub open spec fn drawn_bytes(s: Seq<u8>) -> (Seq<u8>, Seq<u8>)
    decreases s.len(),
{
    let (more, rest) = drawn_bool(s);
    if !more || s.len() == 0 {
        (Seq::empty(), rest)
    } else {
        let (tail, left) = drawn_bytes(after(rest, 1));
        (front(rest, 1) + tail, left)
    }
}

/// `arbitrary::Unstructured::arbitrary`, for `alloy_primitives::Bytes`: the bytes that each stand
/// behind an odd byte.
#[verifier::external_body]
fn draw_bytes(u: &mut Unstructured<'_>) -> (result: Result<Bytes, arbitrary::Error>)
    ensures
        result is Ok,
        (result->Ok_0@, unread(*final(u))) == drawn_bytes(unread(*old(u))),
{
    u.arbitrary::<alloy_primitives::Bytes>().map(|bytes| bytes.to_vec())
}

/// The access list that `arbitrary` makes of the bytes for an `alloy_eips::eip2930::AccessList`,
/// and what is left of them.
pub uninterp spec fn drawn_access_list(s: Seq<u8>) -> (Seq<AccessListEntry>, Seq<u8>);

/// `arbitrary::Unstructured::arbitrary`, for `alloy_eips::eip2930::AccessList`. It never fails: no
/// bytes are too few.
#[verifier::external_body]
fn draw_access_list(u: &mut Unstructured<'_>) -> (result: Result<AccessList, arbitrary::Error>)
    ensures
        result is Ok,
        (result->Ok_0@, unread(*final(u))) == drawn_access_list(unread(*old(u))),
{
    u.arbitrary::<AlloyAccessList>().map(own_access_list)
}

/// The transaction that `arbitrary` makes of the bytes for an `alloy_consensus::TxLegacy`, and what
/// is left of them.
pub uninterp spec fn drawn_legacy(s: Seq<u8>) -> (LegacyFields, Seq<u8>);

/// `arbitrary::Unstructured::arbitrary`, for `alloy_consensus::TxLegacy`. It never fails: no bytes
/// are too few.
#[verifier::external_body]
fn draw_legacy(u: &mut Unstructured<'_>) -> (result: Result<TxLegacy, arbitrary::Error>)
    ensures
        result is Ok,
        (result->Ok_0@, unread(*final(u))) == drawn_legacy(unread(*old(u))),
{
    u.arbitrary::<AlloyTxLegacy>().map(own_legacy)
}

/// The transaction that `arbitrary` makes of the bytes for an `alloy_consensus::TxEip2930`, and
/// what is left of them.
pub uninterp spec fn drawn_eip2930(s: Seq<u8>) -> (Eip2930Fields, Seq<u8>);

/// `arbitrary::Unstructured::arbitrary`, for `alloy_consensus::TxEip2930`. It never fails: no bytes
/// are too few.
#[verifier::external_body]
fn draw_eip2930(u: &mut Unstructured<'_>) -> (result: Result<TxEip2930, arbitrary::Error>)
    ensures
        result is Ok,
        (result->Ok_0@, unread(*final(u))) == drawn_eip2930(unread(*old(u))),
{
    u.arbitrary::<AlloyTxEip2930>().map(own_eip2930)
}

/// The transaction that `arbitrary` makes of the bytes for an `alloy_consensus::TxEip1559`, and
/// what is left of them.
pub uninterp spec fn drawn_eip1559(s: Seq<u8>) -> (Eip1559Fields, Seq<u8>);

/// `arbitrary::Unstructured::arbitrary`, for `alloy_consensus::TxEip1559`. It never fails: no bytes
/// are too few.
#[verifier::external_body]
fn draw_eip1559(u: &mut Unstructured<'_>) -> (result: Result<TxEip1559, arbitrary::Error>)
    ensures
        result is Ok,
        (result->Ok_0@, unread(*final(u))) == drawn_eip1559(unread(*old(u))),
{
    u.arbitrary::<AlloyTxEip1559>().map(own_eip1559)
}

/// The transaction that `arbitrary` makes of the bytes for an `alloy_consensus::TxEip4844`, and
/// what is left of them.
pub uninterp spec fn drawn_eip4844(s: Seq<u8>) -> (Eip4844Fields, Seq<u8>);

/// `arbitrary::Unstructured::arbitrary`, for `alloy_consensus::TxEip4844`. It never fails: no bytes
/// are too few.
#[verifier::external_body]
fn draw_eip4844(u: &mut Unstructured<'_>) -> (result: Result<TxEip4844, arbitrary::Error>)
    ensures
        result is Ok,
        (result->Ok_0@, unread(*final(u))) == drawn_eip4844(unread(*old(u))),
{
    u.arbitrary::<AlloyTxEip4844>().map(own_eip4844)
}

/// The transaction that `arbitrary` makes of the bytes for an `alloy_consensus::TxEip7702`, and
/// what is left of them.
pub uninterp spec fn drawn_eip7702(s: Seq<u8>) -> (Eip7702Fields, Seq<u8>);

/// `arbitrary::Unstructured::arbitrary`, for `alloy_consensus::TxEip7702`. It never fails: no bytes
/// are too few.
#[verifier::external_body]
fn draw_eip7702(u: &mut Unstructured<'_>) -> (result: Result<TxEip7702, arbitrary::Error>)
    ensures
        result is Ok,
        (result->Ok_0@, unread(*final(u))) == drawn_eip7702(unread(*old(u))),
{
    u.arbitrary::<AlloyTxEip7702>().map(own_eip7702)
}

/// The signature over the hash with the key, if it is one.
pub uninterp spec fn signature_by(secret: B256, hash: B256) -> Option<Signature>;

/// `reth_primitives_traits::crypto::secp256k1::sign_message`, which is that of `alloy_consensus`:
/// the signature over the hash with the key. Numbers outside the curve's group are no keys.
#[verifier::external_body]
fn sign_message(secret: B256, hash: B256) -> (result: Result<Signature, secp256k1::Error>)
    ensures
        result is Ok <==> signature_by(secret, hash) is Some,
        result is Ok ==> signature_by(secret, hash) == Some(result->Ok_0),
{
    reth_primitives_traits::crypto::secp256k1::sign_message(
        alloy_primitives::B256::from(secret.bytes),
        alloy_primitives::B256::from(hash.bytes),
    ).map(own_signature)
}

/// What an ML-DSA transaction is made of: the public key, if there is one, and the signature
/// consist of one byte over and over.
#[derive(Debug)]
pub struct MlDsaDraws {
    pub ml_dsa_level: u8,
    pub pubkey_fill: Option<u8>,
    pub chain_id: u64,
    pub nonce: u64,
    pub max_priority_fee_per_gas: u128,
    pub max_fee_per_gas: u128,
    pub gas_limit: u64,
    pub to: TxKind,
    pub value: U256,
    pub input: Bytes,
    pub access_list: AccessList,
    pub sender: Address,
    pub signature_fill: u8,
}

/// The ML-DSA transaction that the bytes `s` are drawn out to, field by field, and what is left of
/// them. The security level comes first, then the public key, if there is one, and the signature
/// comes last; of both, one byte is drawn.
pub open spec fn drawn_ml_dsa(s: Seq<u8>) -> (MlDsaFields, Seq<u8>) {
    let (ml_dsa_level, s) = drawn_choice(s, seq![44u8, 65u8, 87u8]);
    let (has_pubkey, s) = drawn_bool(s);
    let (pubkey, s) = if has_pubkey {
        let (fill, s) = drawn_u8(s);
        (repeated(fill, pubkey_len(ml_dsa_level)->Some_0 as nat), s)
    } else {
        (Seq::<u8>::empty(), s)
    };
    let (chain_id, s) = drawn_u64(s);
    let (nonce, s) = drawn_u64(s);
    let (max_priority_fee_per_gas, s) = drawn_u128(s);
    let (max_fee_per_gas, s) = drawn_u128(s);
    let (gas_limit, s) = drawn_u64(s);
    let (to, s) = drawn_kind(s);
    let (value, s) = drawn_u256(s);
    let (input, s) = drawn_bytes(s);
    let (access_list, s) = drawn_access_list(s);
    let (sender, s) = drawn_address(s);
    let (fill, s) = drawn_u8(s);
    let tx = MlDsaFields {
        chain_id,
        nonce,
        max_priority_fee_per_gas,
        max_fee_per_gas,
        gas_limit,
        to,
        value,
        input,
        access_list,
        sender,
        ml_dsa_level,
        pubkey,
        ml_dsa_signature: repeated(fill, signature_len(ml_dsa_level)->Some_0 as nat),
    };
    (tx, s)
}

/// One byte `len` times.
pub open spec fn repeated(fill: u8, len: nat) -> Seq<u8> {
    Seq::new(len, |i: int| fill)
}

fn arbitrary_bytes(fill: u8, len: usize) -> (bytes: Bytes)
    ensures
        bytes@ == repeated(fill, len as nat),
{
    let bytes: Bytes = vec![fill; len];
    assert(bytes@ =~= repeated(fill, len as nat));
    bytes
}

impl MlDsaDraws {
    /// The transaction.
    pub open spec fn fields(self) -> MlDsaFields {
        MlDsaFields {
            chain_id: self.chain_id,
            nonce: self.nonce,
            max_priority_fee_per_gas: self.max_priority_fee_per_gas,
            max_fee_per_gas: self.max_fee_per_gas,
            gas_limit: self.gas_limit,
            to: self.to,
            value: self.value,
            input: self.input@,
            access_list: self.access_list@,
            sender: self.sender,
            ml_dsa_level: self.ml_dsa_level,
            pubkey: match self.pubkey_fill {
                Some(fill) => repeated(fill, pubkey_len(self.ml_dsa_level)->Some_0 as nat),
                None => Seq::empty(),
            },
            ml_dsa_signature: repeated(
                self.signature_fill,
                signature_len(self.ml_dsa_level)->Some_0 as nat,
            ),
        }
    }
}

impl TxMlDsa {
    /// Makes a transaction of a supported security level of what was drawn. Its key material has
    /// the lengths of the level.
    pub fn from_draws(draws: MlDsaDraws) -> (tx: Self)
        requires
            pubkey_len(draws.ml_dsa_level) is Some,
        ensures
            tx@ == draws.fields(),
            tx@.key_material_shaped(),
    {
        let pubkey_len: usize = expected_pubkey_len(draws.ml_dsa_level).unwrap();
        let signature_len: usize = expected_signature_len(draws.ml_dsa_level).unwrap();
        let pubkey: Bytes = match draws.pubkey_fill {
            Some(fill) => arbitrary_bytes(fill, pubkey_len),
            None => Vec::new(),
        };
        let tx = TxMlDsa {
            chain_id: draws.chain_id,
            nonce: draws.nonce,
            max_priority_fee_per_gas: draws.max_priority_fee_per_gas,
            max_fee_per_gas: draws.max_fee_per_gas,
            gas_limit: draws.gas_limit,
            to: draws.to,
            value: draws.value,
            input: draws.input,
            access_list: draws.access_list,
            sender: draws.sender,
            ml_dsa_level: draws.ml_dsa_level,
            pubkey,
            ml_dsa_signature: arbitrary_bytes(draws.signature_fill, signature_len),
        };
        assert(tx@ =~= draws.fields());
        tx
    }

    /// Draws a transaction of one of the supported security levels.
    pub fn arbitrary(u: &mut Unstructured<'_>) -> (result: Result<Self, arbitrary::Error>)
        ensures
            result is Ok,
            (result->Ok_0@, unread(*final(u))) == drawn_ml_dsa(unread(*old(u))),
            result->Ok_0@.key_material_shaped(),
    {
        let ml_dsa_level: u8 = draw_choice(u, &[44u8, 65, 87])?;
        let pubkey_fill: Option<u8> = if draw_bool(u)? {
            Some(draw_u8(u)?)
        } else {
            None
        };
        let draws = MlDsaDraws {
            ml_dsa_level,
            pubkey_fill,
            chain_id: draw_u64(u)?,
            nonce: draw_u64(u)?,
            max_priority_fee_per_gas: draw_u128(u)?,
            max_fee_per_gas: draw_u128(u)?,
            gas_limit: draw_u64(u)?,
            to: draw_kind(u)?,
            value: draw_u256(u)?,
            input: draw_bytes(u)?,
            access_list: draw_access_list(u)?,
            sender: draw_address(u)?,
            signature_fill: draw_u8(u)?,
        };
        Ok(Self::from_draws(draws))
    }
}

/// The type that a 32-bit number stands for: the six types divide the numbers evenly.
pub open spec fn drawn_type(n: u32) -> DiesisTxType {
    let variant = n * 6 / 0x1_0000_0000;
    if variant == 0 {
        DiesisTxType::Legacy
    } else if variant == 1 {
        DiesisTxType::Eip2930
    } else if variant == 2 {
        DiesisTxType::Eip1559
    } else if variant == 3 {
        DiesisTxType::Eip4844
    } else if variant == 4 {
        DiesisTxType::Eip7702
    } else {
        DiesisTxType::MlDsa
    }
}

impl DiesisTxType {
    /// The type that a 32-bit number stands for.
    pub fn from_draw(n: u32) -> (ty: Self)
        ensures
            ty == drawn_type(n),
    {
        match n as u64 * 6 / 0x1_0000_0000 {
            0 => DiesisTxType::Legacy,
            1 => DiesisTxType::Eip2930,
            2 => DiesisTxType::Eip1559,
            3 => DiesisTxType::Eip4844,
            4 => DiesisTxType::Eip7702,
            _ => DiesisTxType::MlDsa,
        }
    }
}

/// The transaction that the bytes `s` are drawn out to: first its type, then its fields.
pub open spec fn drawn_transaction(s: Seq<u8>) -> (TxFields, Seq<u8>) {
    let (n, s) = drawn_u32(s);
    match drawn_type(n) {
        DiesisTxType::Legacy => (TxFields::Legacy(drawn_legacy(s).0), drawn_legacy(s).1),
        DiesisTxType::Eip2930 => (TxFields::Eip2930(drawn_eip2930(s).0), drawn_eip2930(s).1),
        DiesisTxType::Eip1559 => (TxFields::Eip1559(drawn_eip1559(s).0), drawn_eip1559(s).1),
        DiesisTxType::Eip4844 => (TxFields::Eip4844(drawn_eip4844(s).0), drawn_eip4844(s).1),
        DiesisTxType::Eip7702 => (TxFields::Eip7702(drawn_eip7702(s).0), drawn_eip7702(s).1),
        DiesisTxType::MlDsa => (TxFields::MlDsa(drawn_ml_dsa(s).0), drawn_ml_dsa(s).1),
    }
}

impl Transaction {
    /// Draws a transaction of any type.
    pub fn arbitrary(u: &mut Unstructured<'_>) -> (result: Result<Self, arbitrary::Error>)
        ensures
            result is Ok,
            (result->Ok_0@, unread(*final(u))) == drawn_transaction(unread(*old(u))),
            result->Ok_0@ matches TxFields::MlDsa(tx) ==> tx.key_material_shaped(),
    {
        let tx_type = DiesisTxType::from_draw(draw_u32(u)?);
        Ok(
            match tx_type {
                DiesisTxType::Legacy => Transaction::Legacy(draw_legacy(u)?),
                DiesisTxType::Eip2930 => Transaction::Eip2930(draw_eip2930(u)?),
                DiesisTxType::Eip1559 => Transaction::Eip1559(draw_eip1559(u)?),
                DiesisTxType::Eip4844 => Transaction::Eip4844(draw_eip4844(u)?),
                DiesisTxType::Eip7702 => Transaction::Eip7702(draw_eip7702(u)?),
                DiesisTxType::MlDsa => Transaction::MlDsa(TxMlDsa::arbitrary(u)?),
            },
        )
    }
}

/// Whether `result` is what signing the transaction `tx` with the key gives: an ML-DSA transaction
/// gets the dummy signature, any other the one by the key, where it is one.
pub open spec fn signed_with(
    result: Result<TransactionSigned, GenerateError>,
    tx: TxFields,
    secret: B256,
) -> bool {
    if tx is MlDsa {
        result is Ok && result->Ok_0@ == unhashed(tx, dummy_signature())
    } else {
        match signature_by(secret, keccak(tx.signing_payload())) {
            None => result == Err::<TransactionSigned, GenerateError>(GenerateError::Key),
            Some(signature) => result is Ok && result->Ok_0@ == unhashed(tx, signature),
        }
    }
}

impl TransactionSigned {
    /// Signs a transaction with the key. An ML-DSA transaction, which carries its own signature,
    /// gets the dummy in place of an ECDSA signature.
    pub fn sign_with(transaction: Transaction, secret: B256) -> (result: Result<
        Self,
        GenerateError,
    >)
        ensures
            signed_with(result, transaction@, secret),
    {
        if matches!(transaction, Transaction::MlDsa(_)) {
            return Ok(Self::new_unhashed(transaction, ml_dsa_dummy_signature()));
        }
        match sign_message(secret, transaction.signature_hash()) {
            Ok(signature) => Ok(Self::new_unhashed(transaction, signature)),
            Err(_) => Err(GenerateError::Key),
        }
    }

    /// Draws a transaction of any type and signs it with the key.
    pub fn arbitrary(u: &mut Unstructured<'_>, secret: B256) -> (result: Result<
        Self,
        GenerateError,
    >)
        ensures
            signed_with(result, drawn_transaction(unread(*old(u))).0, secret),
            unread(*final(u)) == drawn_transaction(unread(*old(u))).1,
            result matches Ok(signed) ==> signed@.decodable(),
    {
        match Transaction::arbitrary(u) {
            Ok(transaction) => Self::sign_with(transaction, secret),
            Err(_) => Err(GenerateError::Draw),
        }
    }
}

} // verus!
