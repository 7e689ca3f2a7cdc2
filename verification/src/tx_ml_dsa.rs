//! ML-DSA (FIPS 204) post-quantum transactions, type byte `0x70`.
//!
//! - ML-DSA cannot recover the public key from a signature, so `sender` is an explicit field in the
//!   transaction body.
//! - The ML-DSA signature lives inside the transaction (`ml_dsa_signature`), not in the outer
//!   ECDSA signature of a signed transaction.
//! - The full public key is carried on the first transaction for registry, and left empty on
//!   subsequent transactions.

use vstd::prelude::*;

use crate::crypto::{keccak, keccak256};
use crate::fees::effective_price;
use crate::primitives::{
    copy_bytes, same_bytes, AccessList, AccessListEntry, Address, Bytes, ChainId, Signature,
    SignedAuthorization, TxHash, TxKind, B256, U256,
};
use crate::rlp::{
    is_tail, lemma_add_assoc, lemma_list_prefix_free, lemma_split_header_parts, lemma_split_item,
    lemma_split_item_parts, lemma_split_list_header, lemma_tail_transitive, rlp_list, split_header,
    split_item, starts_with_header, RlpError, RlpItem, LENGTH_LIMIT,
};
use crate::rlp_codec::{
    access_list_decode_error, access_list_length, address_decode_error, address_length,
    bytes_decode_error, decode_access_list, decode_address, decode_bytes, decode_header,
    decode_kind, decode_string, decode_u128, decode_u256, decode_u64, decode_u8, encode_access_list,
    encode_address, encode_header, encode_kind, encode_string, encode_u128, encode_u256, encode_u64,
    encode_u8, header_decode_error, header_length, kind_decode_error, kind_length,
    string_decode_error, string_length, u128_decode_error, u128_length, u256_decode_error,
    u256_length, u64_decode_error, u64_length, u8_decode_error, u8_length,
};
use crate::signed::Signed;
use crate::tx_type::ML_DSA_TX_TYPE_ID;

verus! {

/// ML-DSA-44 public key length in bytes.
pub const ML_DSA_44_PUBKEY_LEN: usize = 1312;

/// ML-DSA-65 public key length in bytes.
pub const ML_DSA_65_PUBKEY_LEN: usize = 1952;

/// ML-DSA-87 public key length in bytes.
pub const ML_DSA_87_PUBKEY_LEN: usize = 2592;

/// ML-DSA-44 signature length in bytes.
pub const ML_DSA_44_SIGNATURE_LEN: usize = 2420;

/// ML-DSA-65 signature length in bytes.
pub const ML_DSA_65_SIGNATURE_LEN: usize = 3309;

/// ML-DSA-87 signature length in bytes.
pub const ML_DSA_87_SIGNATURE_LEN: usize = 4627;

/// Public key length of a security level; the levels are 44, 65 and 87.
pub open spec fn pubkey_len(level: u8) -> Option<usize> {
    if level == 44 {
        Some(1312)
    } else if level == 65 {
        Some(1952)
    } else if level == 87 {
        Some(2592)
    } else {
        None
    }
}

/// Signature length of a security level; the levels are 44, 65 and 87.
pub open spec fn signature_len(level: u8) -> Option<usize> {
    if level == 44 {
        Some(2420)
    } else if level == 65 {
        Some(3309)
    } else if level == 87 {
        Some(4627)
    } else {
        None
    }
}

/// Returns the expected public key length for an ML-DSA security level.
pub fn expected_pubkey_len(level: u8) -> (len: Option<usize>)
    ensures
        len == pubkey_len(level),
{
    match level {
        44 => Some(ML_DSA_44_PUBKEY_LEN),
        65 => Some(ML_DSA_65_PUBKEY_LEN),
        87 => Some(ML_DSA_87_PUBKEY_LEN),
        _ => None,
    }
}

/// Returns the expected signature length for an ML-DSA security level.
pub fn expected_signature_len(level: u8) -> (len: Option<usize>)
    ensures
        len == signature_len(level),
{
    match level {
        44 => Some(ML_DSA_44_SIGNATURE_LEN),
        65 => Some(ML_DSA_65_SIGNATURE_LEN),
        87 => Some(ML_DSA_87_SIGNATURE_LEN),
        _ => None,
    }
}

/// An ML-DSA (FIPS 204) post-quantum transaction.
///
/// Follows the EIP-1559 fee market model but uses ML-DSA signatures instead of ECDSA. The sender
/// address is explicit because ML-DSA does not support public key recovery from signatures.
#[derive(Debug, Hash, Eq)]
pub struct TxMlDsa {
    /// Chain ID for replay protection.
    pub chain_id: ChainId,
    /// Transaction nonce.
    pub nonce: u64,
    /// Maximum priority fee per gas (tip to the block producer).
    pub max_priority_fee_per_gas: u128,
    /// Maximum total fee per gas the sender is willing to pay.
    pub max_fee_per_gas: u128,
    /// Gas limit for this transaction.
    pub gas_limit: u64,
    /// Destination address (or create sentinel).
    pub to: TxKind,
    /// Value transferred in wei.
    pub value: U256,
    /// Calldata or init code.
    pub input: Bytes,
    /// EIP-2930 access list.
    pub access_list: AccessList,
    /// Explicit sender address (ML-DSA has no key recovery).
    pub sender: Address,
    /// ML-DSA security level: 44, 65, or 87.
    pub ml_dsa_level: u8,
    /// Full ML-DSA public key on first transaction, empty after registration.
    pub pubkey: Bytes,
    /// ML-DSA signature bytes.
    pub ml_dsa_signature: Bytes,
}

/// What a [`TxMlDsa`] holds.
#[verifier::ext_equal]
pub struct MlDsaFields {
    pub chain_id: u64,
    pub nonce: u64,
    pub max_priority_fee_per_gas: u128,
    pub max_fee_per_gas: u128,
    pub gas_limit: u64,
    pub to: TxKind,
    pub value: U256,
    pub input: Seq<u8>,
    pub access_list: Seq<AccessListEntry>,
    pub sender: Address,
    pub ml_dsa_level: u8,
    pub pubkey: Seq<u8>,
    pub ml_dsa_signature: Seq<u8>,
}

impl View for TxMlDsa {
    type V = MlDsaFields;

    open spec fn view(&self) -> MlDsaFields {
        MlDsaFields {
            chain_id: self.chain_id,
            nonce: self.nonce,
            max_priority_fee_per_gas: self.max_priority_fee_per_gas,
            max_fee_per_gas: self.max_fee_per_gas,
            gas_limit: self.gas_limit,
            to: self.to,
            value: self.value,
            input: self.input@,
            access_list: self.access_list@,
            sender: self.sender,
            ml_dsa_level: self.ml_dsa_level,
            pubkey: self.pubkey@,
            ml_dsa_signature: self.ml_dsa_signature@,
        }
    }
}

impl PartialEq for TxMlDsa {
    fn eq(&self, other: &Self) -> (same: bool) {
        self.chain_id == other.chain_id
            && self.nonce == other.nonce
            && self.max_priority_fee_per_gas == other.max_priority_fee_per_gas
            && self.max_fee_per_gas == other.max_fee_per_gas
            && self.gas_limit == other.gas_limit
            && self.to == other.to
            && self.value == other.value
            && same_bytes(self.input.as_slice(), other.input.as_slice())
            && self.access_list == other.access_list
            && self.sender == other.sender
            && self.ml_dsa_level == other.ml_dsa_level
            && same_bytes(self.pubkey.as_slice(), other.pubkey.as_slice())
            && same_bytes(self.ml_dsa_signature.as_slice(), other.ml_dsa_signature.as_slice())
    }
}

impl vstd::std_specs::cmp::PartialEqSpecImpl for TxMlDsa {
    open spec fn obeys_eq_spec() -> bool {
        true
    }

    open spec fn eq_spec(&self, other: &Self) -> bool {
        self@ == other@
    }
}

impl Clone for TxMlDsa {
    fn clone(&self) -> (copy: Self)
        ensures
            copy@ == self@,
    {
        TxMlDsa {
            chain_id: self.chain_id,
            nonce: self.nonce,
            max_priority_fee_per_gas: self.max_priority_fee_per_gas,
            max_fee_per_gas: self.max_fee_per_gas,
            gas_limit: self.gas_limit,
            to: self.to,
            value: self.value,
            input: copy_bytes(self.input.as_slice()),
            access_list: self.access_list.clone(),
            sender: self.sender,
            ml_dsa_level: self.ml_dsa_level,
            pubkey: copy_bytes(self.pubkey.as_slice()),
            ml_dsa_signature: copy_bytes(self.ml_dsa_signature.as_slice()),
        }
    }
}

impl MlDsaFields {
    /// The encodings of the fields that are signed, one after the other, in front of `tail`.
    pub open spec fn signing_fields_before(self, tail: Seq<u8>) -> Seq<u8> {
        self.chain_id.rlp() + (self.nonce.rlp() + (self.max_priority_fee_per_gas.rlp() + (
        self.max_fee_per_gas.rlp() + (self.gas_limit.rlp() + (self.to.rlp() + (self.value.rlp() + (
        self.input.rlp() + (self.access_list.rlp() + (self.sender.rlp() + (self.ml_dsa_level.rlp()
            + tail))))))))))
    }

    /// The encodings of the fields that are signed, one after the other.
    pub open spec fn signing_fields(self) -> Seq<u8> {
        self.signing_fields_before(Seq::empty())
    }

    /// The encodings of all fields: those that are signed, the public key and the signature.
    pub open spec fn all_fields(self) -> Seq<u8> {
        self.signing_fields_before(self.pubkey.rlp() + self.ml_dsa_signature.rlp())
    }

    /// What is hashed for signing: `0x70 || rlp_list([signing_fields])`.
    pub open spec fn signing_payload(self) -> Seq<u8> {
        seq![ML_DSA_TX_TYPE_ID] + rlp_list(self.signing_fields())
    }

    /// The EIP-2718 encoding: `0x70 || rlp_list([all_fields])`.
    pub open spec fn encoded(self) -> Seq<u8> {
        seq![ML_DSA_TX_TYPE_ID] + rlp_list(self.all_fields())
    }

    /// Whether the key material has the lengths of the security level: a supported level, a public
    /// key that is absent or of the level's length, and a signature of the level's length.
    pub open spec fn key_material_shaped(self) -> bool {
        &&& pubkey_len(self.ml_dsa_level) is Some
        &&& self.pubkey.len() == 0 || self.pubkey.len() == pubkey_len(self.ml_dsa_level)->Some_0
        &&& self.ml_dsa_signature.len() == signature_len(self.ml_dsa_level)->Some_0
    }
}

/// Result of decoding an item of type `T` off the front of `s`, with `error` the error on inputs
/// that start with none.
pub open spec fn take<T: RlpItem>(s: Seq<u8>, error: RlpError) -> Result<(T, Seq<u8>), RlpError> {
    match split_item::<T>(s) {
        Some((x, rest)) => Ok((x, rest)),
        None => Err(error),
    }
}

/// Result of decoding a public key of the given security level off the front of `s`.
pub open spec fn take_pubkey(s: Seq<u8>, level: u8) -> Result<(Seq<u8>, Seq<u8>), RlpError> {
    match pubkey_len(level) {
        None => Err(RlpError::Custom("unsupported ML-DSA security level")),
        Some(len) => match take::<Seq<u8>>(s, string_decode_error(s)) {
            Err(error) => Err(error),
            Ok((key, rest)) => if key.len() != 0 && key.len() != len {
                Err(RlpError::Custom("invalid ML-DSA public key length"))
            } else {
                Ok((key, rest))
            },
        },
    }
}

/// Result of decoding a signature of the given security level off the front of `s`.
pub open spec fn take_signature(s: Seq<u8>, level: u8) -> Result<(Seq<u8>, Seq<u8>), RlpError> {
    match signature_len(level) {
        None => Err(RlpError::Custom("unsupported ML-DSA security level")),
        Some(len) => match take::<Seq<u8>>(s, string_decode_error(s)) {
            Err(error) => Err(error),
            Ok((signature, rest)) => if signature.len() != len {
                Err(RlpError::Custom("invalid ML-DSA signature length"))
            } else {
                Ok((signature, rest))
            },
        },
    }
}

/// Result of decoding all fields of a transaction off the front of `s`, one after the other: the
/// first field that cannot be decoded gives the error.
#[verifier::opaque]
pub open spec fn take_fields(s: Seq<u8>) -> Result<(MlDsaFields, Seq<u8>), RlpError> {
    match take::<u64>(s, u64_decode_error(s)) { Err(error) => Err(error), Ok((chain_id, s)) =>
    match take::<u64>(s, u64_decode_error(s)) { Err(error) => Err(error), Ok((nonce, s)) =>
    match take::<u128>(s, u128_decode_error(s)) { Err(error) => Err(error),
    Ok((max_priority_fee_per_gas, s)) =>
    match take::<u128>(s, u128_decode_error(s)) { Err(error) => Err(error),
    Ok((max_fee_per_gas, s)) =>
    match take::<u64>(s, u64_decode_error(s)) { Err(error) => Err(error), Ok((gas_limit, s)) =>
    match take::<TxKind>(s, kind_decode_error(s)) { Err(error) => Err(error), Ok((to, s)) =>
    match take::<U256>(s, u256_decode_error(s)) { Err(error) => Err(error), Ok((value, s)) =>
    match take::<Seq<u8>>(s, bytes_decode_error(s)) { Err(error) => Err(error), Ok((input, s)) =>
    match take::<Seq<AccessListEntry>>(s, access_list_decode_error(s)) { Err(error) => Err(error),
    Ok((access_list, s)) =>
    match take::<Address>(s, address_decode_error(s)) { Err(error) => Err(error), Ok((sender, s)) =>
    match take::<u8>(s, u8_decode_error(s)) { Err(error) => Err(error), Ok((ml_dsa_level, s)) =>
    match take_pubkey(s, ml_dsa_level) { Err(error) => Err(error), Ok((pubkey, s)) =>
    match take_signature(s, ml_dsa_level) { Err(error) => Err(error), Ok((ml_dsa_signature, s)) => {
        let tx = MlDsaFields {
            chain_id,
            nonce,
            max_priority_fee_per_gas,
            max_fee_per_gas,
            gas_limit,
            to,
            value,
            input,
            access_list,
            sender,
            ml_dsa_level,
            pubkey,
            ml_dsa_signature,
        };
        Ok((tx, s))
    } } } } } } } } } } } } } }
}

/// Result of decoding a transaction, without its type byte, off the front of `s`: a list header,
/// then the fields, which must make up exactly the list.
pub open spec fn take_body(s: Seq<u8>) -> Result<(MlDsaFields, Seq<u8>), RlpError> {
    match split_header(s) {
        None => Err(header_decode_error(s)),
        Some((list, n, fields)) => if !list {
            Err(RlpError::UnexpectedString)
        } else {
            match take_fields(fields) {
                Err(error) => Err(error),
                Ok((tx, rest)) => if rest.len() + n != fields.len() {
                    Err(RlpError::UnexpectedLength)
                } else {
                    Ok((tx, rest))
                },
            }
        },
    }
}

/// Whether `s` is the fields of `tx`, whose key material has the lengths of its security level,
/// followed by `rest`.
pub open spec fn starts_with_fields(s: Seq<u8>, tx: MlDsaFields, rest: Seq<u8>) -> bool {
    tx.key_material_shaped() && s == tx.all_fields() + rest
}

/// Whether `s` starts with a header and all fields of a transaction.
pub open spec fn starts_with_compact(s: Seq<u8>) -> bool {
    &&& split_header(s) is Some
    &&& exists|tx: MlDsaFields, rest: Seq<u8>|
        starts_with_fields(split_header(s)->Some_0.2, tx, rest)
}

/// The transaction whose compact form `s` starts with, and what follows.
pub open spec fn compact_split(s: Seq<u8>) -> (MlDsaFields, Seq<u8>) {
    take_fields(split_header(s)->Some_0.2)->Ok_0
}

/// Decodes the public key of a transaction of the given security level.
fn decode_pubkey_field(buf: &mut &[u8], level: u8) -> (result: Result<Bytes, RlpError>)
    ensures
        match take_pubkey(old(buf)@, level) {
            Ok((key, rest)) => result is Ok && result->Ok_0@ == key && final(buf)@ == rest,
            Err(error) => result == Err::<Bytes, RlpError>(error),
        },
        is_tail(final(buf)@, old(buf)@),
{
    assert(is_tail(buf@, buf@)) by {
        assert(buf@ =~= buf@.skip(0));
    }
    let expected_len: usize = match expected_pubkey_len(level) {
        Some(len) => len,
        None => return Err(RlpError::Custom("unsupported ML-DSA security level")),
    };
    let bytes = decode_string(buf)?;
    if !bytes.is_empty() && bytes.len() != expected_len {
        return Err(RlpError::Custom("invalid ML-DSA public key length"));
    }
    Ok(copy_bytes(bytes))
}

/// Decodes the signature of a transaction of the given security level.
fn decode_signature_field(buf: &mut &[u8], level: u8) -> (result: Result<Bytes, RlpError>)
    ensures
        match take_signature(old(buf)@, level) {
            Ok((signature, rest)) => result is Ok && result->Ok_0@ == signature && final(buf)@
                == rest,
            Err(error) => result == Err::<Bytes, RlpError>(error),
        },
        is_tail(final(buf)@, old(buf)@),
{
    assert(is_tail(buf@, buf@)) by {
        assert(buf@ =~= buf@.skip(0));
    }
    let expected_len: usize = match expected_signature_len(level) {
        Some(len) => len,
        None => return Err(RlpError::Custom("unsupported ML-DSA security level")),
    };
    let bytes = decode_string(buf)?;
    if bytes.len() != expected_len {
        return Err(RlpError::Custom("invalid ML-DSA signature length"));
    }
    Ok(copy_bytes(bytes))
}

/// Appends the RLP list whose items have the given encodings.
fn append_list(payload: &[u8], out: &mut Vec<u8>)
    ensures
        final(out)@ == old(out)@ + rlp_list(payload@),
{
    encode_header(true, payload.len(), out);
    out.extend_from_slice(payload);
    assert(out@ =~= old(out)@ + rlp_list(payload@));
}

impl TxMlDsa {
    /// RLP-encodes only the signing fields (no pubkey or `ml_dsa_signature`).
    pub fn rlp_encode_signing_fields(&self, out: &mut Vec<u8>)
        ensures
            final(out)@ == old(out)@ + self@.signing_fields(),
    {
        let ghost before = out@;
        encode_u64(self.chain_id, out);
        encode_u64(self.nonce, out);
        encode_u128(self.max_priority_fee_per_gas, out);
        encode_u128(self.max_fee_per_gas, out);
        encode_u64(self.gas_limit, out);
        encode_kind(self.to, out);
        encode_u256(self.value, out);
        encode_string(self.input.as_slice(), out);
        encode_access_list(&self.access_list, out);
        encode_address(self.sender, out);
        encode_u8(self.ml_dsa_level, out);
        proof {
            lemma_signing_fields_appended(self@, before);
        }
    }

    /// Returns the RLP-encoded length of the signing fields (no RLP header).
    pub fn rlp_signing_fields_length(&self) -> (n: usize)
        requires
            self@.signing_fields().len() <= usize::MAX,
        ensures
            n == self@.signing_fields().len(),
    {
        u64_length(self.chain_id)
            + u64_length(self.nonce)
            + u128_length(self.max_priority_fee_per_gas)
            + u128_length(self.max_fee_per_gas)
            + u64_length(self.gas_limit)
            + kind_length(self.to)
            + u256_length(self.value)
            + string_length(self.input.as_slice())
            + access_list_length(&self.access_list)
            + address_length(self.sender)
            + u8_length(self.ml_dsa_level)
    }

    /// RLP-encodes all fields (signing fields, pubkey and `ml_dsa_signature`).
    pub fn rlp_encode_fields(&self, out: &mut Vec<u8>)
        ensures
            final(out)@ == old(out)@ + self@.all_fields(),
    {
        self.rlp_encode_signing_fields(out);
        encode_string(self.pubkey.as_slice(), out);
        encode_string(self.ml_dsa_signature.as_slice(), out);
        proof {
            let signed = self@.signing_fields();
            let pubkey = self@.pubkey.rlp();
            let signature = self@.ml_dsa_signature.rlp();
            lemma_add_assoc(old(out)@ + signed, pubkey, signature);
            lemma_add_assoc(old(out)@, signed, pubkey + signature);
            lemma_signing_fields_tail(self@, Seq::empty(), pubkey + signature);
            assert(Seq::<u8>::empty() + (pubkey + signature) =~= pubkey + signature);
        }
    }

    /// Returns the RLP-encoded length of all fields (no RLP header).
    pub fn rlp_encoded_fields_length(&self) -> (n: usize)
        requires
            self@.all_fields().len() <= usize::MAX,
        ensures
            n == self@.all_fields().len(),
    {
        self.rlp_signing_fields_length() + string_length(self.pubkey.as_slice()) + string_length(
            self.ml_dsa_signature.as_slice(),
        )
    }

    /// EIP-2718 encode: `0x70 || rlp_list([all_fields])`.
    pub fn eip2718_encode(&self, out: &mut Vec<u8>)
        ensures
            final(out)@ == old(out)@ + self@.encoded(),
    {
        let mut fields: Vec<u8> = Vec::new();
        self.rlp_encode_fields(&mut fields);
        assert(fields@ =~= self@.all_fields());
        out.push(ML_DSA_TX_TYPE_ID);
        append_list(fields.as_slice(), out);
        assert(out@ =~= old(out)@ + self@.encoded());
    }

    /// Returns the length of the EIP-2718 encoding.
    pub fn eip2718_encoded_length(&self) -> (n: usize)
        requires
            self@.encoded().len() <= usize::MAX,
        ensures
            n == self@.encoded().len(),
    {
        let fields_len: usize = self.rlp_encoded_fields_length();
        // 1 byte type + header + fields
        1 + header_length(true, fields_len) + fields_len
    }

    /// Length of the signing payload: header + signing fields.
    fn rlp_signing_payload_length(&self) -> (n: usize)
        requires
            rlp_list(self@.signing_fields()).len() <= usize::MAX,
        ensures
            n == rlp_list(self@.signing_fields()).len(),
    {
        let fields_len: usize = self.rlp_signing_fields_length();
        header_length(true, fields_len) + fields_len
    }

    /// Computes the signing hash: `keccak256(0x70 || rlp_list([signing_fields]))`.
    pub fn signature_hash(&self) -> (hash: B256)
        ensures
            hash == keccak(self@.signing_payload()),
    {
        let mut buf: Vec<u8> = Vec::new();
        self.encode_for_signing(&mut buf);
        assert(buf@ =~= self@.signing_payload());
        keccak256(buf.as_slice())
    }

    /// Computes the transaction hash: `keccak256(eip2718_encoded)`.
    pub fn tx_hash(&self) -> (hash: TxHash)
        ensures
            hash == keccak(self@.encoded()),
    {
        let mut buf: Vec<u8> = Vec::new();
        self.eip2718_encode(&mut buf);
        assert(buf@ =~= self@.encoded());
        keccak256(buf.as_slice())
    }

    /// Appends what is hashed for signing: `0x70 || rlp_list([signing_fields])`.
    pub fn encode_for_signing(&self, out: &mut Vec<u8>)
        ensures
            final(out)@ == old(out)@ + self@.signing_payload(),
    {
        let mut fields: Vec<u8> = Vec::new();
        self.rlp_encode_signing_fields(&mut fields);
        assert(fields@ =~= self@.signing_fields());
        out.push(ML_DSA_TX_TYPE_ID);
        append_list(fields.as_slice(), out);
        assert(out@ =~= old(out)@ + self@.signing_payload());
    }

    /// Length of what is hashed for signing.
    pub fn payload_len_for_signature(&self) -> (n: usize)
        requires
            self@.signing_payload().len() <= usize::MAX,
        ensures
            n == self@.signing_payload().len(),
    {
        // 1 byte type prefix + header + signing fields
        1 + self.rlp_signing_payload_length()
    }

    /// Decodes all fields from RLP bytes (assumes the RLP list header has already been consumed).
    pub fn rlp_decode_fields(buf: &mut &[u8]) -> (result: Result<Self, RlpError>)
        ensures
            match take_fields(old(buf)@) {
                Ok((tx, rest)) => result is Ok && result->Ok_0@ == tx && final(buf)@ == rest,
                Err(error) => result == Err::<Self, RlpError>(error),
            },
            is_tail(final(buf)@, old(buf)@),
    {
        broadcast use lemma_tail_transitive;

        reveal(take_fields);
        let chain_id = decode_u64(buf)?;
        let nonce = decode_u64(buf)?;
        let max_priority_fee_per_gas = decode_u128(buf)?;
        let max_fee_per_gas = decode_u128(buf)?;
        let gas_limit = decode_u64(buf)?;
        let to = decode_kind(buf)?;
        let value = decode_u256(buf)?;
        let input = decode_bytes(buf)?;
        let access_list = decode_access_list(buf)?;
        let sender = decode_address(buf)?;
        let ml_dsa_level = decode_u8(buf)?;
        let pubkey = decode_pubkey_field(buf, ml_dsa_level)?;
        let ml_dsa_signature = decode_signature_field(buf, ml_dsa_level)?;
        Ok(
            Self {
                chain_id,
                nonce,
                max_priority_fee_per_gas,
                max_fee_per_gas,
                gas_limit,
                to,
                value,
                input,
                access_list,
                sender,
                ml_dsa_level,
                pubkey,
                ml_dsa_signature,
            },
        )
    }

    /// Decodes from EIP-2718 body bytes (after the type byte has already been consumed).
    pub fn eip2718_decode(buf: &mut &[u8]) -> (result: Result<Self, RlpError>)
        ensures
            match take_body(old(buf)@) {
                Ok((tx, rest)) => result is Ok && result->Ok_0@ == tx && final(buf)@ == rest,
                Err(error) => result == Err::<Self, RlpError>(error),
            },
            is_tail(final(buf)@, old(buf)@),
            split_header(old(buf)@) matches Some((list, n, payload)) ==> {
                &&& !list ==> final(buf)@ == payload
                &&& list && take_fields(payload) is Ok ==> final(buf)@ == take_fields(
                    payload,
                )->Ok_0.1
            },
    {
        broadcast use lemma_tail_transitive;

        let (list, payload_length) = decode_header(buf)?;
        if !list {
            return Err(RlpError::UnexpectedString);
        }
        let remaining: usize = buf.len();
        let tx = Self::rlp_decode_fields(buf)?;
        if remaining - buf.len() != payload_length {
            return Err(RlpError::UnexpectedLength);
        }
        Ok(tx)
    }

    /// The type byte, `0x70`.
    pub fn ty(&self) -> (ty: u8)
        ensures
            ty == ML_DSA_TX_TYPE_ID,
    {
        ML_DSA_TX_TYPE_ID
    }

    /// The chain that the transaction is for.
    pub fn chain_id(&self) -> (id: Option<ChainId>)
        ensures
            id == Some(self@.chain_id),
    {
        Some(self.chain_id)
    }

    /// The transaction nonce.
    pub fn nonce(&self) -> (nonce: u64)
        ensures
            nonce == self@.nonce,
    {
        self.nonce
    }

    /// The gas limit.
    pub fn gas_limit(&self) -> (limit: u64)
        ensures
            limit == self@.gas_limit,
    {
        self.gas_limit
    }

    /// There is no fixed gas price.
    pub fn gas_price(&self) -> (price: Option<u128>)
        ensures
            price is None,
    {
        None
    }

    /// The fee cap.
    pub fn max_fee_per_gas(&self) -> (fee: u128)
        ensures
            fee == self@.max_fee_per_gas,
    {
        self.max_fee_per_gas
    }

    /// The tip cap.
    pub fn max_priority_fee_per_gas(&self) -> (fee: Option<u128>)
        ensures
            fee == Some(self@.max_priority_fee_per_gas),
    {
        Some(self.max_priority_fee_per_gas)
    }

    /// There is no blob fee cap.
    pub fn max_fee_per_blob_gas(&self) -> (fee: Option<u128>)
        ensures
            fee is None,
    {
        None
    }

    /// The tip cap.
    pub fn priority_fee_or_price(&self) -> (fee: u128)
        ensures
            fee == self@.max_priority_fee_per_gas,
    {
        self.max_priority_fee_per_gas
    }

    /// The price paid for a unit of gas under the given base fee.
    pub fn effective_gas_price(&self, base_fee: Option<u64>) -> (price: u128)
        ensures
            price == effective_price(
                self@.max_fee_per_gas,
                self@.max_priority_fee_per_gas,
                base_fee,
            ),
    {
        alloy_eips::eip1559::calc_effective_gas_price(
            self.max_fee_per_gas,
            self.max_priority_fee_per_gas,
            base_fee,
        )
    }

    /// Fees are dynamic.
    pub fn is_dynamic_fee(&self) -> (b: bool)
        ensures
            b,
    {
        true
    }

    /// The destination.
    pub fn kind(&self) -> (kind: TxKind)
        ensures
            kind == self@.to,
    {
        self.to
    }

    /// Whether the transaction creates a contract.
    pub fn is_create(&self) -> (b: bool)
        ensures
            b == (self@.to is Create),
    {
        self.to.is_create()
    }

    /// The value transferred.
    pub fn value(&self) -> (value: U256)
        ensures
            value == self@.value,
    {
        self.value
    }

    /// The calldata or init code.
    pub fn input(&self) -> (input: &Bytes)
        ensures
            input@ == self@.input,
    {
        &self.input
    }

    /// The access list.
    pub fn access_list(&self) -> (list: Option<&AccessList>)
        ensures
            list is Some,
            list->Some_0@ == self@.access_list,
    {
        Some(&self.access_list)
    }

    /// There are no blobs.
    pub fn blob_versioned_hashes(&self) -> (hashes: Option<&[B256]>)
        ensures
            hashes is None,
    {
        None
    }

    /// There are no authorizations.
    pub fn authorization_list(&self) -> (list: Option<&[SignedAuthorization]>)
        ensures
            list is None,
    {
        None
    }

    /// Changes the chain that the transaction is for.
    pub fn set_chain_id(&mut self, chain_id: ChainId)
        ensures
            final(self)@ == (MlDsaFields { chain_id, ..old(self)@ }),
    {
        self.chain_id = chain_id;
    }

    /// Adds an outer ECDSA signature, which the hash does not depend on: the ML-DSA signature is
    /// part of the transaction.
    pub fn into_signed(self, signature: Signature) -> (signed: Signed<Self>)
        ensures
            signed.tx == self,
            signed.signature == signature,
            signed.hash == keccak(self@.encoded()),
    {
        let hash = self.tx_hash();
        Signed::new_unchecked(self, signature, hash)
    }

    /// Checks that the key material has the lengths of the security level.
    pub fn validate_key_material_shape(&self) -> (result: Result<(), RlpError>)
        ensures
            result is Ok <==> self@.key_material_shaped(),
            result is Err ==> fields_verdict(self@, Seq::empty()) == Err::<
                (MlDsaFields, Seq<u8>),
                RlpError,
            >(result->Err_0),
    {
        let (pubkey_len, signature_len) = match (
            expected_pubkey_len(self.ml_dsa_level),
            expected_signature_len(self.ml_dsa_level),
        ) {
            (Some(pubkey_len), Some(signature_len)) => (pubkey_len, signature_len),
            _ => return Err(RlpError::Custom("unsupported ML-DSA security level")),
        };
        if !self.pubkey.is_empty() && self.pubkey.len() != pubkey_len {
            return Err(RlpError::Custom("invalid ML-DSA public key length"));
        }
        if self.ml_dsa_signature.len() != signature_len {
            return Err(RlpError::Custom("invalid ML-DSA signature length"));
        }
        Ok(())
    }

    /// Appends the compact form, an RLP list of all fields, and returns its length.
    pub fn to_compact(&self, buf: &mut Vec<u8>) -> (n: usize)
        ensures
            final(buf)@ == old(buf)@ + rlp_list(self@.all_fields()),
            n == rlp_list(self@.all_fields()).len(),
    {
        let mut fields: Vec<u8> = Vec::new();
        self.rlp_encode_fields(&mut fields);
        assert(fields@ =~= self@.all_fields());
        let mut rlp_buf: Vec<u8> = Vec::new();
        append_list(fields.as_slice(), &mut rlp_buf);
        assert(rlp_buf@ =~= rlp_list(self@.all_fields()));
        buf.extend_from_slice(rlp_buf.as_slice());
        assert(buf@ =~= old(buf)@ + rlp_list(self@.all_fields()));
        rlp_buf.len()
    }

    /// Reads the compact form off the front of the buffer: a header, then all fields. The length
    /// that the header gives is not compared with that of the fields.
    pub fn from_compact(buf: &[u8], len: usize) -> (result: (Self, &[u8]))
        requires
            starts_with_compact(buf@),
        ensures
            compact_split(buf@) == (result.0@, result.1@),
    {
        let mut remainder = buf;
        proof {
            let fields = split_header(buf@)->Some_0.2;
            let (tx, rest) = choose|tx: MlDsaFields, rest: Seq<u8>|
                starts_with_fields(fields, tx, rest);
            assert(buf@.len() == buf.len());
            lemma_split_header_parts(buf@);
            lemma_take_fields(tx, rest);
        }
        match decode_header(&mut remainder) {
            Ok(_) => {},
            Err(_) => {
                assert(false);
            },
        }
        match Self::rlp_decode_fields(&mut remainder) {
            Ok(tx) => (tx, remainder),
            Err(_) => {
                proof {
                    assert(false);
                }
                vstd::pervasive::unreached()
            },
        }
    }
}

/// Result of decoding the fields of `tx` followed by `rest`.
pub open spec fn fields_verdict(
    tx: MlDsaFields,
    rest: Seq<u8>,
) -> Result<(MlDsaFields, Seq<u8>), RlpError> {
    if pubkey_len(tx.ml_dsa_level) is None {
        Err(RlpError::Custom("unsupported ML-DSA security level"))
    } else if tx.pubkey.len() != 0 && tx.pubkey.len() != pubkey_len(tx.ml_dsa_level)->Some_0 {
        Err(RlpError::Custom("invalid ML-DSA public key length"))
    } else if tx.ml_dsa_signature.len() != signature_len(tx.ml_dsa_level)->Some_0 {
        Err(RlpError::Custom("invalid ML-DSA signature length"))
    } else {
        Ok((tx, rest))
    }
}

/// Appending the encodings of the signed fields one by one appends them all.
proof fn lemma_signing_fields_appended(tx: MlDsaFields, before: Seq<u8>)
    ensures
        before + tx.chain_id.rlp() + tx.nonce.rlp() + tx.max_priority_fee_per_gas.rlp()
            + tx.max_fee_per_gas.rlp() + tx.gas_limit.rlp() + tx.to.rlp() + tx.value.rlp()
            + tx.input.rlp() + tx.access_list.rlp() + tx.sender.rlp() + tx.ml_dsa_level.rlp()
            == before + tx.signing_fields(),
{
    let none = Seq::<u8>::empty();
    let f11 = tx.ml_dsa_level.rlp() + none;
    let f10 = tx.sender.rlp() + f11;
    let f9 = tx.access_list.rlp() + f10;
    let f8 = tx.input.rlp() + f9;
    let f7 = tx.value.rlp() + f8;
    let f6 = tx.to.rlp() + f7;
    let f5 = tx.gas_limit.rlp() + f6;
    let f4 = tx.max_fee_per_gas.rlp() + f5;
    let f3 = tx.max_priority_fee_per_gas.rlp() + f4;
    let f2 = tx.nonce.rlp() + f3;
    let p1 = before + tx.chain_id.rlp();
    let p2 = p1 + tx.nonce.rlp();
    let p3 = p2 + tx.max_priority_fee_per_gas.rlp();
    let p4 = p3 + tx.max_fee_per_gas.rlp();
    let p5 = p4 + tx.gas_limit.rlp();
    let p6 = p5 + tx.to.rlp();
    let p7 = p6 + tx.value.rlp();
    let p8 = p7 + tx.input.rlp();
    let p9 = p8 + tx.access_list.rlp();
    let p10 = p9 + tx.sender.rlp();
    let p11 = p10 + tx.ml_dsa_level.rlp();
    lemma_add_assoc(before, tx.chain_id.rlp(), f2);
    lemma_add_assoc(p1, tx.nonce.rlp(), f3);
    lemma_add_assoc(p2, tx.max_priority_fee_per_gas.rlp(), f4);
    lemma_add_assoc(p3, tx.max_fee_per_gas.rlp(), f5);
    lemma_add_assoc(p4, tx.gas_limit.rlp(), f6);
    lemma_add_assoc(p5, tx.to.rlp(), f7);
    lemma_add_assoc(p6, tx.value.rlp(), f8);
    lemma_add_assoc(p7, tx.input.rlp(), f9);
    lemma_add_assoc(p8, tx.access_list.rlp(), f10);
    lemma_add_assoc(p9, tx.sender.rlp(), f11);
    lemma_add_assoc(p10, tx.ml_dsa_level.rlp(), none);
    assert(p11 + none =~= p11);
}

/// What follows the signed fields can be split.
proof fn lemma_signing_fields_tail(tx: MlDsaFields, a: Seq<u8>, b: Seq<u8>)
    ensures
        tx.signing_fields_before(a) + b == tx.signing_fields_before(a + b),
{
    let a11 = tx.ml_dsa_level.rlp() + a;
    let a10 = tx.sender.rlp() + a11;
    let a9 = tx.access_list.rlp() + a10;
    let a8 = tx.input.rlp() + a9;
    let a7 = tx.value.rlp() + a8;
    let a6 = tx.to.rlp() + a7;
    let a5 = tx.gas_limit.rlp() + a6;
    let a4 = tx.max_fee_per_gas.rlp() + a5;
    let a3 = tx.max_priority_fee_per_gas.rlp() + a4;
    let a2 = tx.nonce.rlp() + a3;
    lemma_add_assoc(tx.ml_dsa_level.rlp(), a, b);
    lemma_add_assoc(tx.sender.rlp(), a11, b);
    lemma_add_assoc(tx.access_list.rlp(), a10, b);
    lemma_add_assoc(tx.input.rlp(), a9, b);
    lemma_add_assoc(tx.value.rlp(), a8, b);
    lemma_add_assoc(tx.to.rlp(), a7, b);
    lemma_add_assoc(tx.gas_limit.rlp(), a6, b);
    lemma_add_assoc(tx.max_fee_per_gas.rlp(), a5, b);
    lemma_add_assoc(tx.max_priority_fee_per_gas.rlp(), a4, b);
    lemma_add_assoc(tx.nonce.rlp(), a3, b);
    lemma_add_assoc(tx.chain_id.rlp(), a2, b);
}

/// What follows all fields follows the signature.
proof fn lemma_all_fields_tail(tx: MlDsaFields, rest: Seq<u8>)
    ensures
        tx.all_fields() + rest == tx.signing_fields_before(
            tx.pubkey.rlp() + (tx.ml_dsa_signature.rlp() + rest),
        ),
{
    lemma_signing_fields_tail(tx, tx.pubkey.rlp() + tx.ml_dsa_signature.rlp(), rest);
    lemma_add_assoc(tx.pubkey.rlp(), tx.ml_dsa_signature.rlp(), rest);
}

/// Decoding the fields of a transaction gives the transaction back if its key material has the
/// lengths of its security level, and names the first length that is wrong otherwise.
pub proof fn lemma_take_fields(tx: MlDsaFields, rest: Seq<u8>)
    requires
        tx.all_fields().len() + rest.len() < LENGTH_LIMIT,
    ensures
        take_fields(tx.all_fields() + rest) == fields_verdict(tx, rest),
{
    reveal(take_fields);
    lemma_all_fields_tail(tx, rest);
    let t13 = tx.ml_dsa_signature.rlp() + rest;
    let t12 = tx.pubkey.rlp() + t13;
    let t11 = tx.ml_dsa_level.rlp() + t12;
    let t10 = tx.sender.rlp() + t11;
    let t9 = tx.access_list.rlp() + t10;
    let t8 = tx.input.rlp() + t9;
    let t7 = tx.value.rlp() + t8;
    let t6 = tx.to.rlp() + t7;
    let t5 = tx.gas_limit.rlp() + t6;
    let t4 = tx.max_fee_per_gas.rlp() + t5;
    let t3 = tx.max_priority_fee_per_gas.rlp() + t4;
    let t2 = tx.nonce.rlp() + t3;
    lemma_split_item(tx.chain_id, t2);
    lemma_split_item(tx.nonce, t3);
    lemma_split_item(tx.max_priority_fee_per_gas, t4);
    lemma_split_item(tx.max_fee_per_gas, t5);
    lemma_split_item(tx.gas_limit, t6);
    lemma_split_item(tx.to, t7);
    lemma_split_item(tx.value, t8);
    lemma_split_item(tx.input, t9);
    lemma_split_item(tx.access_list, t10);
    lemma_split_item(tx.sender, t11);
    lemma_split_item(tx.ml_dsa_level, t12);
    lemma_split_item(tx.pubkey, t13);
    lemma_split_item(tx.ml_dsa_signature, rest);
}

/// The signed fields are known, with what follows, from the bytes that they start.
proof fn lemma_signing_fields_prefix_free(
    a: MlDsaFields,
    ra: Seq<u8>,
    b: MlDsaFields,
    rb: Seq<u8>,
)
    requires
        a.signing_fields_before(ra) == b.signing_fields_before(rb),
        a.signing_fields_before(ra).len() < LENGTH_LIMIT,
    ensures
        ra == rb,
        a == (MlDsaFields { pubkey: a.pubkey, ml_dsa_signature: a.ml_dsa_signature, ..b }),
{
    let a11 = a.ml_dsa_level.rlp() + ra;
    let a10 = a.sender.rlp() + a11;
    let a9 = a.access_list.rlp() + a10;
    let a8 = a.input.rlp() + a9;
    let a7 = a.value.rlp() + a8;
    let a6 = a.to.rlp() + a7;
    let a5 = a.gas_limit.rlp() + a6;
    let a4 = a.max_fee_per_gas.rlp() + a5;
    let a3 = a.max_priority_fee_per_gas.rlp() + a4;
    let a2 = a.nonce.rlp() + a3;
    let b11 = b.ml_dsa_level.rlp() + rb;
    let b10 = b.sender.rlp() + b11;
    let b9 = b.access_list.rlp() + b10;
    let b8 = b.input.rlp() + b9;
    let b7 = b.value.rlp() + b8;
    let b6 = b.to.rlp() + b7;
    let b5 = b.gas_limit.rlp() + b6;
    let b4 = b.max_fee_per_gas.rlp() + b5;
    let b3 = b.max_priority_fee_per_gas.rlp() + b4;
    let b2 = b.nonce.rlp() + b3;
    <u64 as RlpItem>::lemma_prefix_free(a.chain_id, a2, b.chain_id, b2);
    <u64 as RlpItem>::lemma_prefix_free(a.nonce, a3, b.nonce, b3);
    <u128 as RlpItem>::lemma_prefix_free(
        a.max_priority_fee_per_gas,
        a4,
        b.max_priority_fee_per_gas,
        b4,
    );
    <u128 as RlpItem>::lemma_prefix_free(a.max_fee_per_gas, a5, b.max_fee_per_gas, b5);
    <u64 as RlpItem>::lemma_prefix_free(a.gas_limit, a6, b.gas_limit, b6);
    <TxKind as RlpItem>::lemma_prefix_free(a.to, a7, b.to, b7);
    <U256 as RlpItem>::lemma_prefix_free(a.value, a8, b.value, b8);
    <Seq<u8> as RlpItem>::lemma_prefix_free(a.input, a9, b.input, b9);
    <Seq<AccessListEntry> as RlpItem>::lemma_prefix_free(a.access_list, a10, b.access_list, b10);
    <Address as RlpItem>::lemma_prefix_free(a.sender, a11, b.sender, b11);
    <u8 as RlpItem>::lemma_prefix_free(a.ml_dsa_level, ra, b.ml_dsa_level, rb);
}

/// The bytes of which decoding makes a transaction are the fields of that transaction, whose key
/// material has the lengths of its security level, and what is left over.
pub proof fn lemma_take_fields_parts(s: Seq<u8>)
    requires
        take_fields(s) is Ok,
    ensures
        s == take_fields(s)->Ok_0.0.all_fields() + take_fields(s)->Ok_0.1,
        take_fields(s)->Ok_0.0.key_material_shaped(),
{
    reveal(take_fields);
    let (tx, rest) = take_fields(s)->Ok_0;
    let s1 = s;
    lemma_split_item_parts::<u64>(s1);
    let s2 = split_item::<u64>(s1)->Some_0.1;
    lemma_split_item_parts::<u64>(s2);
    let s3 = split_item::<u64>(s2)->Some_0.1;
    lemma_split_item_parts::<u128>(s3);
    let s4 = split_item::<u128>(s3)->Some_0.1;
    lemma_split_item_parts::<u128>(s4);
    let s5 = split_item::<u128>(s4)->Some_0.1;
    lemma_split_item_parts::<u64>(s5);
    let s6 = split_item::<u64>(s5)->Some_0.1;
    lemma_split_item_parts::<TxKind>(s6);
    let s7 = split_item::<TxKind>(s6)->Some_0.1;
    lemma_split_item_parts::<U256>(s7);
    let s8 = split_item::<U256>(s7)->Some_0.1;
    lemma_split_item_parts::<Seq<u8>>(s8);
    let s9 = split_item::<Seq<u8>>(s8)->Some_0.1;
    lemma_split_item_parts::<Seq<AccessListEntry>>(s9);
    let s10 = split_item::<Seq<AccessListEntry>>(s9)->Some_0.1;
    lemma_split_item_parts::<Address>(s10);
    let s11 = split_item::<Address>(s10)->Some_0.1;
    lemma_split_item_parts::<u8>(s11);
    let s12 = split_item::<u8>(s11)->Some_0.1;
    lemma_split_item_parts::<Seq<u8>>(s12);
    let s13 = split_item::<Seq<u8>>(s12)->Some_0.1;
    lemma_split_item_parts::<Seq<u8>>(s13);
    lemma_all_fields_tail(tx, rest);
}

/// Encoding a transaction and decoding what follows the type byte gives the transaction back and
/// leaves what came after it, whenever its key material has the lengths of its security level.
pub proof fn law_eip2718_roundtrip(tx: MlDsaFields, rest: Seq<u8>)
    requires
        tx.key_material_shaped(),
        tx.encoded().len() + rest.len() < LENGTH_LIMIT,
    ensures
        (tx.encoded() + rest)[0] == ML_DSA_TX_TYPE_ID,
        take_body((tx.encoded() + rest).skip(1)) == Ok::<_, RlpError>((tx, rest)),
{
    law_eip2718_verdict(tx, rest);
}

/// What decoding makes of an encoded transaction depends on its key material alone: the
/// transaction comes back if that has the lengths of its security level; otherwise an unsupported
/// level is named first, a wrong public key length next, a wrong signature length last.
pub proof fn law_eip2718_verdict(tx: MlDsaFields, rest: Seq<u8>)
    requires
        tx.encoded().len() + rest.len() < LENGTH_LIMIT,
    ensures
        (tx.encoded() + rest)[0] == ML_DSA_TX_TYPE_ID,
        take_body((tx.encoded() + rest).skip(1)) == fields_verdict(tx, rest),
{
    let body = rlp_list(tx.all_fields()) + rest;
    assert((tx.encoded() + rest).skip(1) =~= body);
    lemma_split_list_header(tx.all_fields(), rest);
    lemma_take_fields(tx, rest);
}

/// Decoding succeeds on nothing but encodings: the input was the encoding of the transaction that
/// came out, without its type byte, followed by what was left, and the transaction's key material
/// has the lengths of its security level.
pub proof fn law_eip2718_canonical(s: Seq<u8>)
    requires
        take_body(s) is Ok,
    ensures
        seq![ML_DSA_TX_TYPE_ID] + s == take_body(s)->Ok_0.0.encoded() + take_body(s)->Ok_0.1,
        take_body(s)->Ok_0.0.key_material_shaped(),
{
    let (tx, rest) = take_body(s)->Ok_0;
    let (list, n, fields) = split_header(s)->Some_0;
    assert(starts_with_header(s, list, n, fields));
    lemma_take_fields_parts(fields);
    assert(n == tx.all_fields().len());
    assert(s =~= rlp_list(tx.all_fields()) + rest);
    assert(seq![ML_DSA_TX_TYPE_ID] + s =~= tx.encoded() + rest);
}

/// Different transactions have different encodings.
pub proof fn law_encoding_injective(a: MlDsaFields, b: MlDsaFields)
    requires
        a.encoded() == b.encoded(),
        a.encoded().len() < LENGTH_LIMIT,
    ensures
        a == b,
{
    let none = Seq::<u8>::empty();
    assert(rlp_list(a.all_fields()) + none =~= a.encoded().skip(1));
    assert(rlp_list(b.all_fields()) + none =~= b.encoded().skip(1));
    lemma_list_prefix_free(a.all_fields(), none, b.all_fields(), none);
    lemma_signing_fields_prefix_free(
        a,
        a.pubkey.rlp() + a.ml_dsa_signature.rlp(),
        b,
        b.pubkey.rlp() + b.ml_dsa_signature.rlp(),
    );
    Seq::<u8>::lemma_prefix_free(
        a.pubkey,
        a.ml_dsa_signature.rlp(),
        b.pubkey,
        b.ml_dsa_signature.rlp(),
    );
    assert(a.ml_dsa_signature.rlp() + none =~= a.ml_dsa_signature.rlp());
    assert(b.ml_dsa_signature.rlp() + none =~= b.ml_dsa_signature.rlp());
    Seq::<u8>::lemma_prefix_free(a.ml_dsa_signature, none, b.ml_dsa_signature, none);
    assert(a =~= b);
}

/// The public key and the signature do not enter what is signed: transactions that agree on the
/// other fields have the same signing payload, and no others have.
pub proof fn law_signing_payload(a: MlDsaFields, b: MlDsaFields)
    requires
        a.signing_payload().len() < LENGTH_LIMIT,
    ensures
        a.signing_payload() == b.signing_payload() <==> a == (MlDsaFields {
            pubkey: a.pubkey,
            ml_dsa_signature: a.ml_dsa_signature,
            ..b
        }),
{
    if a.signing_payload() == b.signing_payload() {
        let none = Seq::<u8>::empty();
        assert(rlp_list(a.signing_fields()) + none =~= a.signing_payload().skip(1));
        assert(rlp_list(b.signing_fields()) + none =~= b.signing_payload().skip(1));
        lemma_list_prefix_free(a.signing_fields(), none, b.signing_fields(), none);
        lemma_signing_fields_prefix_free(a, none, b, none);
    }
}

/// Reading the compact form of a transaction gives the transaction back and leaves what follows,
/// whenever its key material has the lengths of its security level.
pub proof fn law_compact_roundtrip(tx: MlDsaFields, rest: Seq<u8>)
    requires
        tx.key_material_shaped(),
        rlp_list(tx.all_fields()).len() + rest.len() < LENGTH_LIMIT,
    ensures
        starts_with_compact(rlp_list(tx.all_fields()) + rest),
        compact_split(rlp_list(tx.all_fields()) + rest) == (tx, rest),
{
    lemma_split_list_header(tx.all_fields(), rest);
    let s = rlp_list(tx.all_fields()) + rest;
    assert(starts_with_fields(split_header(s)->Some_0.2, tx, rest));
    lemma_take_fields(tx, rest);
}

} // verus!
