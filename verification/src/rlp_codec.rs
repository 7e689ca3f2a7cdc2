//! RLP encoding and decoding of single items, through `alloy_rlp`.
//!
//! Every function here hands its argument to the encoder or decoder that `alloy_rlp`,
//! `alloy_primitives` or `alloy_eips` has for it. Encoders append the encoding to the buffer.
//! Decoders succeed on exactly the inputs that start with the encoding of a value, and take it
//! off; which error the others get has a name per decoder, since it is a function of the input.
//! Where a decoder fails, it may have taken some bytes off the front. As with `Vec::push`, a buffer
//! that memory cannot hold ends the program.

use alloy_eips::eip2930::{AccessList as AlloyAccessList, AccessListItem as AlloyAccessListItem};
use alloy_primitives::{TxKind as AlloyTxKind, U256 as AlloyU256};
use vstd::prelude::*;

use crate::primitives::{
    AccessList, AccessListEntry, AccessListItem, Address, Bytes, TxKind, B256, U256,
};
use crate::rlp::{is_tail, rlp_header, rlp_string, split_header, split_item, RlpError, RlpItem};

verus! {

/// The error type of `alloy_rlp`.
#[verifier::external_type_specification]
#[verifier::external_body]
pub struct ExRlpError(alloy_rlp::Error);

/// The access list of `alloy_eips`.
#[verifier::external_type_specification]
#[verifier::external_body]
pub struct ExAccessList(AlloyAccessList);

/// The access list entry of `alloy_eips`.
#[verifier::external_type_specification]
#[verifier::external_body]
pub struct ExAccessListItem(AlloyAccessListItem);

/// The variant of [`RlpError`] with the name and fields of an `alloy_rlp::Error`.
#[verifier::external_body]
pub(crate) fn rlp_error(error: alloy_rlp::Error) -> RlpError {
    match error {
        alloy_rlp::Error::Overflow => RlpError::Overflow,
        alloy_rlp::Error::LeadingZero => RlpError::LeadingZero,
        alloy_rlp::Error::InputTooShort => RlpError::InputTooShort,
        alloy_rlp::Error::NonCanonicalSingleByte => RlpError::NonCanonicalSingleByte,
        alloy_rlp::Error::NonCanonicalSize => RlpError::NonCanonicalSize,
        alloy_rlp::Error::UnexpectedLength => RlpError::UnexpectedLength,
        alloy_rlp::Error::UnexpectedString => RlpError::UnexpectedString,
        alloy_rlp::Error::UnexpectedList => RlpError::UnexpectedList,
        alloy_rlp::Error::ListLengthMismatch { expected, got } =>
            RlpError::ListLengthMismatch { expected, got },
        alloy_rlp::Error::Custom(message) => RlpError::Custom(message),
    }
}

/// The same entries as an `alloy_eips` access list.
#[verifier::external_body]
pub(crate) fn alloy_access_list(list: &AccessList) -> AlloyAccessList {
    AlloyAccessList(
        list.items.iter().map(
            |item| AlloyAccessListItem {
                address: alloy_primitives::Address::from(item.address.bytes),
                storage_keys: item.storage_keys.iter().map(|key| key.bytes.into()).collect(),
            },
        ).collect(),
    )
}

/// The same entries as an [`AccessList`] of this library.
#[verifier::external_body]
pub(crate) fn own_access_list(list: AlloyAccessList) -> AccessList {
    AccessList {
        items: list.0.into_iter().map(
            |item| AccessListItem {
                address: Address { bytes: item.address.into() },
                storage_keys: item.storage_keys.iter().map(|key| B256 { bytes: key.0 }).collect(),
            },
        ).collect(),
    }
}

/// The destination type of `alloy_primitives`.
#[verifier::external_type_specification]
#[verifier::external_body]
pub struct ExTxKind(AlloyTxKind);

/// The same destination as an `alloy_primitives::TxKind`.
#[verifier::external_body]
pub(crate) fn alloy_kind(kind: TxKind) -> AlloyTxKind {
    match kind {
        TxKind::Create => AlloyTxKind::Create,
        TxKind::Call(to) => AlloyTxKind::Call(alloy_primitives::Address::from(to.bytes)),
    }
}

/// The same destination as a [`TxKind`] of this library.
#[verifier::external_body]
pub(crate) fn own_kind(kind: AlloyTxKind) -> TxKind {
    match kind {
        AlloyTxKind::Create => TxKind::Create,
        AlloyTxKind::Call(to) => TxKind::Call(Address { bytes: to.into() }),
    }
}

/// The number type of `alloy_primitives`.
#[verifier::external_type_specification]
#[verifier::external_body]
#[verifier::reject_recursive_types(BITS)]
#[verifier::reject_recursive_types(LIMBS)]
pub struct ExUint<const BITS: usize, const LIMBS: usize>(alloy_primitives::Uint<BITS, LIMBS>);

/// The same number as an `alloy_primitives::U256`.
#[verifier::external_body]
pub(crate) fn alloy_u256(value: U256) -> AlloyU256 {
    AlloyU256::from_limbs([value.w0, value.w1, value.w2, value.w3])
}

/// The same number as a [`U256`] of this library.
#[verifier::external_body]
pub(crate) fn own_u256(value: AlloyU256) -> U256 {
    let words = value.into_limbs();
    U256 { w0: words[0], w1: words[1], w2: words[2], w3: words[3] }
}

/// Result of a decoder of items of type `T` on the input `s`, with `rest` left in the buffer and
/// `error` the error on inputs that do not start with an item.
pub open spec fn decodes<T: RlpItem>(
    s: Seq<u8>,
    result: Result<T, RlpError>,
    rest: Seq<u8>,
    error: RlpError,
) -> bool {
    match split_item::<T>(s) {
        Some((x, tail)) => result == Ok::<T, RlpError>(x) && rest == tail,
        None => result == Err::<T, RlpError>(error),
    }
}

/// `<u8 as alloy_rlp::Encodable>::encode`: appends the RLP encoding of the value.
#[verifier::external_body]
pub(crate) fn encode_u8(value: u8, out: &mut Vec<u8>)
    ensures
        final(out)@ == old(out)@ + value.rlp(),
{
    alloy_rlp::Encodable::encode(&value, out)
}

/// `<u8 as alloy_rlp::Encodable>::length`: the number of bytes of the RLP encoding.
#[verifier::external_body]
pub(crate) fn u8_length(value: u8) -> (n: usize)
    ensures
        n == value.rlp().len(),
{
    alloy_rlp::Encodable::length(&value)
}

/// `<u64 as alloy_rlp::Encodable>::encode`: appends the RLP encoding of the value.
#[verifier::external_body]
pub(crate) fn encode_u64(value: u64, out: &mut Vec<u8>)
    ensures
        final(out)@ == old(out)@ + value.rlp(),
{
    alloy_rlp::Encodable::encode(&value, out)
}

/// `<u64 as alloy_rlp::Encodable>::length`: the number of bytes of the RLP encoding.
#[verifier::external_body]
pub(crate) fn u64_length(value: u64) -> (n: usize)
    ensures
        n == value.rlp().len(),
{
    alloy_rlp::Encodable::length(&value)
}

/// `<u128 as alloy_rlp::Encodable>::encode`: appends the RLP encoding of the value.
#[verifier::external_body]
pub(crate) fn encode_u128(value: u128, out: &mut Vec<u8>)
    ensures
        final(out)@ == old(out)@ + value.rlp(),
{
    alloy_rlp::Encodable::encode(&value, out)
}

/// `<u128 as alloy_rlp::Encodable>::length`: the number of bytes of the RLP encoding.
#[verifier::external_body]
pub(crate) fn u128_length(value: u128) -> (n: usize)
    ensures
        n == value.rlp().len(),
{
    alloy_rlp::Encodable::length(&value)
}

/// `<alloy_primitives::U256 as alloy_rlp::Encodable>::encode`: appends the RLP encoding of the
/// value.
#[verifier::external_body]
pub(crate) fn encode_u256(value: U256, out: &mut Vec<u8>)
    ensures
        final(out)@ == old(out)@ + value.rlp(),
{
    alloy_rlp::Encodable::encode(&alloy_u256(value), out)
}

/// `<alloy_primitives::U256 as alloy_rlp::Encodable>::length`: the number of bytes of the RLP
/// encoding.
#[verifier::external_body]
pub(crate) fn u256_length(value: U256) -> (n: usize)
    ensures
        n == value.rlp().len(),
{
    alloy_rlp::Encodable::length(&alloy_u256(value))
}

/// `<alloy_primitives::Address as alloy_rlp::Encodable>::encode`: appends the RLP encoding of the
/// value.
#[verifier::external_body]
pub(crate) fn encode_address(value: Address, out: &mut Vec<u8>)
    ensures
        final(out)@ == old(out)@ + value.rlp(),
{
    alloy_rlp::Encodable::encode(&alloy_primitives::Address::from(value.bytes), out)
}

/// `<alloy_primitives::Address as alloy_rlp::Encodable>::length`: the number of bytes of the RLP
/// encoding.
#[verifier::external_body]
pub(crate) fn address_length(value: Address) -> (n: usize)
    ensures
        n == value.rlp().len(),
{
    alloy_rlp::Encodable::length(&alloy_primitives::Address::from(value.bytes))
}

/// `<alloy_primitives::TxKind as alloy_rlp::Encodable>::encode`: appends the RLP encoding of the
/// value.
#[verifier::external_body]
pub(crate) fn encode_kind(value: TxKind, out: &mut Vec<u8>)
    ensures
        final(out)@ == old(out)@ + value.rlp(),
{
    alloy_rlp::Encodable::encode(&alloy_kind(value), out)
}

/// `<alloy_primitives::TxKind as alloy_rlp::Encodable>::length`: the number of bytes of the RLP
/// encoding.
#[verifier::external_body]
pub(crate) fn kind_length(value: TxKind) -> (n: usize)
    ensures
        n == value.rlp().len(),
{
    alloy_rlp::Encodable::length(&alloy_kind(value))
}

/// `<[u8] as alloy_rlp::Encodable>::encode`: appends the RLP encoding of the value.
#[verifier::external_body]
pub(crate) fn encode_string(value: &[u8], out: &mut Vec<u8>)
    ensures
        final(out)@ == old(out)@ + rlp_string(value@),
{
    alloy_rlp::Encodable::encode(value, out)
}

/// `<[u8] as alloy_rlp::Encodable>::length`: the number of bytes of the RLP encoding.
#[verifier::external_body]
pub(crate) fn string_length(value: &[u8]) -> (n: usize)
    requires
        rlp_string(value@).len() <= usize::MAX,
    ensures
        n == rlp_string(value@).len(),
{
    alloy_rlp::Encodable::length(value)
}

/// `<alloy_eips::eip2930::AccessList as alloy_rlp::Encodable>::encode`: appends the RLP encoding of
/// the value.
#[verifier::external_body]
pub(crate) fn encode_access_list(value: &AccessList, out: &mut Vec<u8>)
    ensures
        final(out)@ == old(out)@ + value@.rlp(),
{
    alloy_rlp::Encodable::encode(&alloy_access_list(value), out)
}

/// `<alloy_eips::eip2930::AccessList as alloy_rlp::Encodable>::length`: the number of bytes of the
/// RLP encoding.
#[verifier::external_body]
pub(crate) fn access_list_length(value: &AccessList) -> (n: usize)
    requires
        value@.rlp().len() <= usize::MAX,
    ensures
        n == value@.rlp().len(),
{
    alloy_rlp::Encodable::length(&alloy_access_list(value))
}

/// `alloy_rlp::Header::encode`: appends the header of an item with that many payload bytes.
#[verifier::external_body]
pub(crate) fn encode_header(list: bool, payload_length: usize, out: &mut Vec<u8>)
    ensures
        final(out)@ == old(out)@ + rlp_header(list, payload_length as nat),
{
    alloy_rlp::Header { list, payload_length }.encode(out)
}

/// `alloy_rlp::Header::length`: the number of bytes of the header.
#[verifier::external_body]
pub(crate) fn header_length(list: bool, payload_length: usize) -> (n: usize)
    ensures
        n == rlp_header(list, payload_length as nat).len(),
{
    alloy_rlp::Header { list, payload_length }.length()
}

/// The error of `<u8 as alloy_rlp::Decodable>::decode` on an input that starts with no such item.
pub uninterp spec fn u8_decode_error(s: Seq<u8>) -> RlpError;

/// `<u8 as alloy_rlp::Decodable>::decode`: takes the item off the front of the buffer.
#[verifier::external_body]
pub(crate) fn decode_u8(buf: &mut &[u8]) -> (result: Result<u8, RlpError>)
    ensures
        decodes(old(buf)@, result, final(buf)@, u8_decode_error(old(buf)@)),
        is_tail(final(buf)@, old(buf)@),
{
    <u8 as alloy_rlp::Decodable>::decode(buf).map_err(rlp_error)
}

/// The error of `<u64 as alloy_rlp::Decodable>::decode` on an input that starts with no such item.
pub uninterp spec fn u64_decode_error(s: Seq<u8>) -> RlpError;

/// `<u64 as alloy_rlp::Decodable>::decode`: takes the item off the front of the buffer.
#[verifier::external_body]
pub(crate) fn decode_u64(buf: &mut &[u8]) -> (result: Result<u64, RlpError>)
    ensures
        decodes(old(buf)@, result, final(buf)@, u64_decode_error(old(buf)@)),
        is_tail(final(buf)@, old(buf)@),
{
    <u64 as alloy_rlp::Decodable>::decode(buf).map_err(rlp_error)
}

/// The error of `<u128 as alloy_rlp::Decodable>::decode` on an input that starts with no such item.
pub uninterp spec fn u128_decode_error(s: Seq<u8>) -> RlpError;

/// `<u128 as alloy_rlp::Decodable>::decode`: takes the item off the front of the buffer.
#[verifier::external_body]
pub(crate) fn decode_u128(buf: &mut &[u8]) -> (result: Result<u128, RlpError>)
    ensures
        decodes(old(buf)@, result, final(buf)@, u128_decode_error(old(buf)@)),
        is_tail(final(buf)@, old(buf)@),
{
    <u128 as alloy_rlp::Decodable>::decode(buf).map_err(rlp_error)
}

/// The error of `<alloy_primitives::U256 as alloy_rlp::Decodable>::decode` on an input that starts
/// with no such item.
pub uninterp spec fn u256_decode_error(s: Seq<u8>) -> RlpError;

/// `<alloy_primitives::U256 as alloy_rlp::Decodable>::decode`: takes the item off the front of the
/// buffer.
#[verifier::external_body]
pub(crate) fn decode_u256(buf: &mut &[u8]) -> (result: Result<U256, RlpError>)
    ensures
        decodes(old(buf)@, result, final(buf)@, u256_decode_error(old(buf)@)),
        is_tail(final(buf)@, old(buf)@),
{
    match <AlloyU256 as alloy_rlp::Decodable>::decode(buf) {
        Ok(value) => Ok(own_u256(value)),
        Err(error) => Err(rlp_error(error)),
    }
}

/// The error of `<alloy_primitives::Address as alloy_rlp::Decodable>::decode` on an input that
/// starts with no such item.
pub uninterp spec fn address_decode_error(s: Seq<u8>) -> RlpError;

/// `<alloy_primitives::Address as alloy_rlp::Decodable>::decode`: takes the item off the front of
/// the buffer.
#[verifier::external_body]
pub(crate) fn decode_address(buf: &mut &[u8]) -> (result: Result<Address, RlpError>)
    ensures
        decodes(old(buf)@, result, final(buf)@, address_decode_error(old(buf)@)),
        is_tail(final(buf)@, old(buf)@),
{
    match <alloy_primitives::Address as alloy_rlp::Decodable>::decode(buf) {
        Ok(value) => Ok(Address { bytes: value.into() }),
        Err(error) => Err(rlp_error(error)),
    }
}

/// The error of `<alloy_primitives::TxKind as alloy_rlp::Decodable>::decode` on an input that
/// starts with no such item.
pub uninterp spec fn kind_decode_error(s: Seq<u8>) -> RlpError;

/// `<alloy_primitives::TxKind as alloy_rlp::Decodable>::decode`: takes the item off the front of
/// the buffer.
#[verifier::external_body]
pub(crate) fn decode_kind(buf: &mut &[u8]) -> (result: Result<TxKind, RlpError>)
    ensures
        decodes(old(buf)@, result, final(buf)@, kind_decode_error(old(buf)@)),
        is_tail(final(buf)@, old(buf)@),
{
    match <AlloyTxKind as alloy_rlp::Decodable>::decode(buf) {
        Ok(value) => Ok(own_kind(value)),
        Err(error) => Err(rlp_error(error)),
    }
}

/// The error of `<alloy_primitives::Bytes as alloy_rlp::Decodable>::decode` on an input that starts
/// with no such item.
pub uninterp spec fn bytes_decode_error(s: Seq<u8>) -> RlpError;

/// `<alloy_primitives::Bytes as alloy_rlp::Decodable>::decode`: takes the item off the front of the
/// buffer.
#[verifier::external_body]
pub(crate) fn decode_bytes(buf: &mut &[u8]) -> (result: Result<Bytes, RlpError>)
    ensures
        match split_item::<Seq<u8>>(old(buf)@) {
            Some((x, tail)) => result is Ok && result->Ok_0@ == x && final(buf)@ == tail,
            None => result == Err::<Bytes, RlpError>(bytes_decode_error(old(buf)@)),
        },
        is_tail(final(buf)@, old(buf)@),
{
    match <alloy_primitives::Bytes as alloy_rlp::Decodable>::decode(buf) {
        Ok(value) => Ok(value.to_vec()),
        Err(error) => Err(rlp_error(error)),
    }
}

/// The error of `<alloy_eips::eip2930::AccessList as alloy_rlp::Decodable>::decode` on an input
/// that starts with no such item.
pub uninterp spec fn access_list_decode_error(s: Seq<u8>) -> RlpError;

/// `<alloy_eips::eip2930::AccessList as alloy_rlp::Decodable>::decode`: takes the item off the
/// front of the buffer.
#[verifier::external_body]
pub(crate) fn decode_access_list(buf: &mut &[u8]) -> (result: Result<AccessList, RlpError>)
    ensures
        match split_item::<Seq<AccessListEntry>>(old(buf)@) {
            Some((x, tail)) => result is Ok && result->Ok_0@ == x && final(buf)@ == tail,
            None => result == Err::<AccessList, RlpError>(access_list_decode_error(old(buf)@)),
        },
        is_tail(final(buf)@, old(buf)@),
{
    match <AlloyAccessList as alloy_rlp::Decodable>::decode(buf) {
        Ok(value) => Ok(own_access_list(value)),
        Err(error) => Err(rlp_error(error)),
    }
}

/// The error of `alloy_rlp::Header::decode` on an input that starts with no complete item.
pub uninterp spec fn header_decode_error(s: Seq<u8>) -> RlpError;

/// `alloy_rlp::Header::decode`: takes the header of an item off the front of the buffer and
/// returns whether it is that of a list, and how many payload bytes follow.
#[verifier::external_body]
pub(crate) fn decode_header(buf: &mut &[u8]) -> (result: Result<(bool, usize), RlpError>)
    ensures
        match split_header(old(buf)@) {
            Some((list, n, tail)) => result is Ok && result->Ok_0.0 == list && result->Ok_0.1 == n
                && final(buf)@ == tail,
            None => result == Err::<(bool, usize), RlpError>(header_decode_error(old(buf)@)),
        },
        is_tail(final(buf)@, old(buf)@),
{
    match alloy_rlp::Header::decode(buf) {
        Ok(header) => Ok((header.list, header.payload_length)),
        Err(error) => Err(rlp_error(error)),
    }
}

/// The error of `alloy_rlp::Header::decode_bytes` on an input that starts with no string.
pub uninterp spec fn string_decode_error(s: Seq<u8>) -> RlpError;

/// `alloy_rlp::Header::decode_bytes`, asked for a string: takes the string off the front of the
/// buffer and returns its bytes.
#[verifier::external_body]
pub(crate) fn decode_string<'a>(buf: &mut &'a [u8]) -> (result: Result<&'a [u8], RlpError>)
    ensures
        match split_item::<Seq<u8>>(old(buf)@) {
            Some((x, tail)) => result is Ok && result->Ok_0@ == x && final(buf)@ == tail,
            None => result == Err::<&[u8], RlpError>(string_decode_error(old(buf)@)),
        },
        is_tail(final(buf)@, old(buf)@),
{
    alloy_rlp::Header::decode_bytes(buf, false).map_err(rlp_error)
}

} // verus!
