//! EIP-2718 and network encoding of signed transactions.

use vstd::prelude::*;

use crate::crypto::keccak;
use crate::primitives::Signature;
use crate::rlp::{
    is_tail, lemma_add_assoc, lemma_split_header_parts, lemma_split_header_unique,
    lemma_split_list_header, lemma_split_item, lemma_split_item_parts, lemma_tail_transitive,
    rlp_header, rlp_uint, split_header, split_item, starts_with_header, RlpError, RlpItem,
    LENGTH_LIMIT,
};
use crate::rlp_codec::{decode_header, encode_header, header_decode_error, header_length};
use crate::transaction::{
    dummy_signature, law_encoding_shows_type, ml_dsa_dummy_signature, Transaction, TxFields,
};
use crate::transaction_signed::{SignedTx, TransactionSigned};
use crate::tx_ecdsa::{
    eip155_value, Eip1559Fields, Eip2930Fields, Eip4844Fields, Eip7702Fields, LegacyFields,
};
use crate::tx_ecdsa_codec::{
    decode_eip1559, decode_eip2930, decode_eip4844, decode_eip7702, decode_legacy,
    eip1559_decode_error, eip2930_decode_error, eip4844_decode_error, eip7702_decode_error,
    legacy_decode_error,
};
use crate::tx_ml_dsa::{law_eip2718_canonical, law_eip2718_roundtrip, take_body, TxMlDsa};
use crate::tx_type::{DiesisTxType, Eip2718Error, TxType, ML_DSA_TX_TYPE_ID};

verus! {

/// Largest byte that can be a type byte.
const TX_TYPE_BYTE_MAX: u8 = 0x7f;

/// Result of a decoder: the signed transaction and the bytes that follow it, or an error.
pub type Taken = Result<(SignedTx, Seq<u8>), Eip2718Error>;

/// A signed transaction whose hash is open.
pub open spec fn unhashed(transaction: TxFields, signature: Signature) -> SignedTx {
    SignedTx { hash: None, signature, transaction }
}

/// Result of decoding what follows the type byte `ty`. Whatever is wrong with an ML-DSA
/// transaction, the error names its type.
pub open spec fn take_typed(ty: u8, s: Seq<u8>) -> Taken {
    if ty == ML_DSA_TX_TYPE_ID {
        match take_body(s) {
            Ok((tx, rest)) => Ok((unhashed(TxFields::MlDsa(tx), dummy_signature()), rest)),
            Err(_) => Err(Eip2718Error::UnexpectedType(ty)),
        }
    } else if ty == 1 {
        match split_item::<(Eip2930Fields, Signature)>(s) {
            Some((x, rest)) => Ok((unhashed(TxFields::Eip2930(x.0), x.1), rest)),
            None => Err(Eip2718Error::RlpError(eip2930_decode_error(s))),
        }
    } else if ty == 2 {
        match split_item::<(Eip1559Fields, Signature)>(s) {
            Some((x, rest)) => Ok((unhashed(TxFields::Eip1559(x.0), x.1), rest)),
            None => Err(Eip2718Error::RlpError(eip1559_decode_error(s))),
        }
    } else if ty == 3 {
        match split_item::<(Eip4844Fields, Signature)>(s) {
            Some((x, rest)) => Ok((unhashed(TxFields::Eip4844(x.0), x.1), rest)),
            None => Err(Eip2718Error::RlpError(eip4844_decode_error(s))),
        }
    } else if ty == 4 {
        match split_item::<(Eip7702Fields, Signature)>(s) {
            Some((x, rest)) => Ok((unhashed(TxFields::Eip7702(x.0), x.1), rest)),
            None => Err(Eip2718Error::RlpError(eip7702_decode_error(s))),
        }
    } else {
        Err(Eip2718Error::UnexpectedType(ty))
    }
}

/// Result of decoding a legacy transaction, which has no type byte.
pub open spec fn take_legacy(s: Seq<u8>) -> Taken {
    match split_item::<(LegacyFields, Signature)>(s) {
        Some((x, rest)) => Ok((unhashed(TxFields::Legacy(x.0), x.1), rest)),
        None => Err(Eip2718Error::RlpError(legacy_decode_error(s))),
    }
}

/// Result of decoding an EIP-2718 envelope: a first byte up to `0x7f` is the type byte, anything
/// else starts a legacy transaction.
pub open spec fn take_2718(s: Seq<u8>) -> Taken {
    if s.len() > 0 && s[0] <= 0x7f {
        take_typed(s[0], s.skip(1))
    } else {
        take_legacy(s)
    }
}

/// Result of decoding the network form: a list is a legacy transaction, a string holds a typed
/// envelope. A typed envelope that is not wrapped in a string is accepted too.
pub open spec fn take_network(s: Seq<u8>) -> Taken {
    match split_header(s) {
        None => Err(Eip2718Error::RlpError(header_decode_error(s))),
        Some((list, n, payload)) => if list {
            take_legacy(s)
        } else if payload.len() == 0 {
            Err(Eip2718Error::RlpError(RlpError::InputTooShort))
        } else {
            match take_typed(payload[0], payload.skip(1)) {
                Err(error) => Err(error),
                Ok((tx, rest)) => if payload.len() - rest.len() != n && payload[0] > 0x80 {
                    Err(Eip2718Error::RlpError(RlpError::UnexpectedLength))
                } else {
                    Ok((tx, rest))
                },
            }
        },
    }
}

/// Whether transactions with the type byte `ty` have a decoder. Legacy transactions, whose type is
/// zero, have no type byte.
pub open spec fn has_typed_decoder(ty: u8) -> bool {
    1 <= ty <= 4 || ty == ML_DSA_TX_TYPE_ID
}

/// What is left of the envelope `s` where it is refused for its type byte: all but that byte.
pub open spec fn left_2718(s: Seq<u8>, rest: Seq<u8>) -> bool {
    s.len() > 0 && s[0] <= 0x7f && !has_typed_decoder(s[0]) ==> rest == s.skip(1)
}

/// What is left of the network form `s` where it is refused before a decoder sees it: everything,
/// where it does not start with an item; nothing, where nothing follows the header of a string; and
/// what follows the type byte, where that has no decoder.
pub open spec fn left_network(s: Seq<u8>, rest: Seq<u8>) -> bool {
    match split_header(s) {
        None => rest == s,
        Some((list, n, payload)) => {
            &&& !list && payload.len() == 0 ==> rest == payload
            &&& !list && payload.len() > 0 && !has_typed_decoder(payload[0]) ==> rest
                == payload.skip(1)
        },
    }
}

/// The RLP error that stands for an envelope error.
pub open spec fn as_rlp_error(error: Eip2718Error) -> RlpError {
    match error {
        Eip2718Error::RlpError(error) => error,
        Eip2718Error::UnexpectedType(_) => RlpError::Custom("Unexpected type flag"),
    }
}

impl SignedTx {
    /// The network form: the EIP-2718 encoding in an RLP string, and of a legacy transaction
    /// without the string.
    pub open spec fn network(self) -> Seq<u8> {
        if self.transaction is Legacy {
            self.encoded()
        } else {
            rlp_header(false, self.encoded().len()) + self.encoded()
        }
    }

    /// Whether the decoders give the signed transaction back: the key material of an ML-DSA
    /// transaction has the lengths of its security level.
    pub open spec fn decodable(self) -> bool {
        self.transaction matches TxFields::MlDsa(tx) ==> tx.key_material_shaped()
    }
}

/// Whether a decoder's outcome on the bytes `s`, with `rest` left, is the one `expected`.
pub open spec fn taken_as(
    expected: Taken,
    result: Result<TransactionSigned, Eip2718Error>,
    rest: Seq<u8>,
) -> bool {
    match expected {
        Ok((tx, tail)) => result is Ok && result->Ok_0@ == tx && rest == tail,
        Err(error) => result == Err::<TransactionSigned, Eip2718Error>(error),
    }
}

impl TxType {
    /// The Ethereum type with the given type byte.
    pub open spec fn of_byte(byte: u8) -> Option<TxType> {
        if byte == 0 {
            Some(TxType::Legacy)
        } else if byte == 1 {
            Some(TxType::Eip2930)
        } else if byte == 2 {
            Some(TxType::Eip1559)
        } else if byte == 3 {
            Some(TxType::Eip4844)
        } else if byte == 4 {
            Some(TxType::Eip7702)
        } else {
            None
        }
    }
}

impl TryFrom<u8> for TxType {
    type Error = Eip2718Error;

    fn try_from(value: u8) -> (result: Result<Self, Eip2718Error>) {
        match value {
            0 => Ok(Self::Legacy),
            1 => Ok(Self::Eip2930),
            2 => Ok(Self::Eip1559),
            3 => Ok(Self::Eip4844),
            4 => Ok(Self::Eip7702),
            ty => Err(Eip2718Error::UnexpectedType(ty)),
        }
    }
}

impl vstd::std_specs::convert::TryFromSpecImpl<u8> for TxType {
    open spec fn obeys_try_from_spec() -> bool {
        true
    }

    open spec fn try_from_spec(value: u8) -> Result<Self, Eip2718Error> {
        match Self::of_byte(value) {
            Some(ty) => Ok(ty),
            None => Err(Eip2718Error::UnexpectedType(value)),
        }
    }
}

/// The bytes of which a typed decoder makes a transaction are the encoding of that transaction,
/// without its type byte, and what is left over.
pub proof fn lemma_typed_parts(ty: u8, s: Seq<u8>)
    ensures
        take_typed(ty, s) matches Ok((tx, rest)) ==> {
            &&& seq![ty] + s == tx.encoded() + rest
            &&& tx.encoded().len() <= s.len() + 1
            &&& tx.decodable()
            &&& tx.hash is None
        },
{
    if take_typed(ty, s) is Ok {
        let (tx, rest) = take_typed(ty, s)->Ok_0;
        if ty == ML_DSA_TX_TYPE_ID {
            law_eip2718_canonical(s);
        } else {
            if ty == 1 {
                lemma_split_item_parts::<(Eip2930Fields, Signature)>(s);
            } else if ty == 2 {
                lemma_split_item_parts::<(Eip1559Fields, Signature)>(s);
            } else if ty == 3 {
                lemma_split_item_parts::<(Eip4844Fields, Signature)>(s);
            } else {
                lemma_split_item_parts::<(Eip7702Fields, Signature)>(s);
            }
            assert(seq![ty] + s =~= tx.encoded() + rest);
        }
        assert((seq![ty] + s).len() == tx.encoded().len() + rest.len());
    }
}

/// `<alloy_consensus::TxEnvelope as IsTyped2718>::is_type`: whether the byte is one of Ethereum's
/// five transaction types, which are numbered from zero.
#[verifier::external_body]
fn is_ethereum_type(type_id: u8) -> (b: bool)
    ensures
        b == (type_id <= 4),
{
    <alloy_consensus::TxEnvelope as alloy_eips::eip2718::IsTyped2718>::is_type(type_id)
}

impl TransactionSigned {
    /// Whether the byte is the type of some transaction.
    pub fn is_type(type_id: u8) -> (b: bool)
        ensures
            b == (DiesisTxType::of_byte(type_id) is Some),
    {
        type_id == ML_DSA_TX_TYPE_ID || is_ethereum_type(type_id)
    }

    /// Decodes what follows the type byte `ty`.
    pub fn typed_decode(ty: u8, buf: &mut &[u8]) -> (result: Result<Self, Eip2718Error>)
        ensures
            taken_as(take_typed(ty, old(buf)@), result, final(buf)@),
            is_tail(final(buf)@, old(buf)@),
            !has_typed_decoder(ty) ==> final(buf)@ == old(buf)@,
    {
        assert(buf@ =~= buf@.skip(0));
        // ML-DSA comes first, since Ethereum has no type for it.
        if ty == ML_DSA_TX_TYPE_ID {
            return match TxMlDsa::eip2718_decode(buf) {
                Ok(tx) => Ok(
                    Self::new_unhashed(Transaction::MlDsa(tx), ml_dsa_dummy_signature()),
                ),
                Err(_) => Err(Eip2718Error::UnexpectedType(ty)),
            };
        }
        match TxType::try_from(ty) {
            Err(_) => Err(Eip2718Error::UnexpectedType(ty)),
            Ok(TxType::Legacy) => Err(Eip2718Error::UnexpectedType(0)),
            Ok(TxType::Eip2930) => match decode_eip2930(buf) {
                Ok((tx, signature)) => Ok(
                    Self::new_unhashed(Transaction::Eip2930(tx), signature),
                ),
                Err(error) => Err(Eip2718Error::RlpError(error)),
            },
            Ok(TxType::Eip1559) => match decode_eip1559(buf) {
                Ok((tx, signature)) => Ok(
                    Self::new_unhashed(Transaction::Eip1559(tx), signature),
                ),
                Err(error) => Err(Eip2718Error::RlpError(error)),
            },
            Ok(TxType::Eip4844) => match decode_eip4844(buf) {
                Ok((tx, signature)) => Ok(
                    Self::new_unhashed(Transaction::Eip4844(tx), signature),
                ),
                Err(error) => Err(Eip2718Error::RlpError(error)),
            },
            Ok(TxType::Eip7702) => match decode_eip7702(buf) {
                Ok((tx, signature)) => Ok(
                    Self::new_unhashed(Transaction::Eip7702(tx), signature),
                ),
                Err(error) => Err(Eip2718Error::RlpError(error)),
            },
        }
    }

    /// Decodes a legacy transaction, which has no type byte.
    pub fn fallback_decode(buf: &mut &[u8]) -> (result: Result<Self, Eip2718Error>)
        ensures
            taken_as(take_legacy(old(buf)@), result, final(buf)@),
            is_tail(final(buf)@, old(buf)@),
    {
        match decode_legacy(buf) {
            Ok((tx, signature)) => Ok(Self::new_unhashed(Transaction::Legacy(tx), signature)),
            Err(error) => Err(Eip2718Error::RlpError(error)),
        }
    }

    /// Decodes an EIP-2718 envelope.
    pub fn decode_2718(buf: &mut &[u8]) -> (result: Result<Self, Eip2718Error>)
        ensures
            taken_as(take_2718(old(buf)@), result, final(buf)@),
            is_tail(final(buf)@, old(buf)@),
            left_2718(old(buf)@, final(buf)@),
    {
        broadcast use lemma_tail_transitive;

        if !buf.is_empty() && buf[0] <= TX_TYPE_BYTE_MAX {
            let ty: u8 = buf[0];
            let ghost s = buf@;
            let (_, rest) = buf.split_at(1);
            *buf = rest;
            assert(buf@ =~= s.skip(1));
            assert(is_tail(buf@, s));
            Self::typed_decode(ty, buf)
        } else {
            Self::fallback_decode(buf)
        }
    }

    /// Decodes the network form.
    pub fn network_decode(buf: &mut &[u8]) -> (result: Result<Self, Eip2718Error>)
        ensures
            taken_as(take_network(old(buf)@), result, final(buf)@),
            is_tail(final(buf)@, old(buf)@),
            left_network(old(buf)@, final(buf)@),
    {
        broadcast use lemma_tail_transitive;

        let ghost s = buf@;
        proof {
            assert(s =~= s.skip(0));
            assert(is_tail(s, s));
        }
        let mut after_header: &[u8] = *buf;
        let (list, payload_length) = match decode_header(&mut after_header) {
            Ok(header) => header,
            Err(error) => return Err(Eip2718Error::RlpError(error)),
        };
        // A list can only be a legacy transaction.
        if list {
            return Self::fallback_decode(buf);
        }
        *buf = after_header;
        let remaining_len: usize = buf.len();
        if remaining_len == 0 || remaining_len < payload_length {
            proof {
                lemma_split_header_parts(s);
            }
            return Err(Eip2718Error::RlpError(RlpError::InputTooShort));
        }
        let ty: u8 = after_header[0];
        let (_, rest) = after_header.split_at(1);
        *buf = rest;
        proof {
            lemma_split_header_parts(s);
            assert(buf@ =~= after_header@.skip(1));
            assert(is_tail(buf@, after_header@));
        }
        let tx = match Self::typed_decode(ty, buf) {
            Ok(tx) => tx,
            Err(error) => return Err(error),
        };
        let bytes_consumed: usize = remaining_len - buf.len();
        // The header of an envelope without its string is the type byte read as a string of one.
        if bytes_consumed != payload_length && ty > 0x80 {
            return Err(Eip2718Error::RlpError(RlpError::UnexpectedLength));
        }
        Ok(tx)
    }

    /// Appends the network form.
    pub fn network_encode(&self, out: &mut Vec<u8>)
        ensures
            final(out)@ == old(out)@ + self@.network(),
    {
        let encoded = self.encoded_2718();
        if !self.transaction().is_legacy() {
            encode_header(false, encoded.len(), out);
        }
        out.extend_from_slice(encoded.as_slice());
        assert(out@ =~= old(out)@ + self@.network());
    }

    /// Length of the network form.
    pub fn network_len(&self) -> (n: usize)
        requires
            self@.network().len() <= usize::MAX,
        ensures
            n == self@.network().len(),
    {
        let mut payload_length: usize = self.encode_2718_len();
        if !self.transaction().is_legacy() {
            payload_length = payload_length + header_length(false, payload_length);
        }
        payload_length
    }

    /// Appends the RLP encoding, which is the network form.
    pub fn encode(&self, out: &mut Vec<u8>)
        ensures
            final(out)@ == old(out)@ + self@.network(),
    {
        self.network_encode(out)
    }

    /// Length of the RLP encoding.
    pub fn length(&self) -> (n: usize)
        requires
            self@.network().len() <= usize::MAX,
        ensures
            n == self@.network().len(),
    {
        self.network_len()
    }

    /// Decodes the RLP encoding, which is the network form.
    pub fn decode(buf: &mut &[u8]) -> (result: Result<Self, RlpError>)
        ensures
            match take_network(old(buf)@) {
                Ok((tx, rest)) => result is Ok && result->Ok_0@ == tx && final(buf)@ == rest,
                Err(error) => result == Err::<Self, RlpError>(as_rlp_error(error)),
            },
            is_tail(final(buf)@, old(buf)@),
            left_network(old(buf)@, final(buf)@),
    {
        match Self::network_decode(buf) {
            Ok(tx) => Ok(tx),
            Err(Eip2718Error::RlpError(error)) => Err(error),
            Err(Eip2718Error::UnexpectedType(_)) => Err(RlpError::Custom("Unexpected type flag")),
        }
    }
}

/// The bytes of which the legacy decoder makes a transaction are the encoding of that transaction
/// and what is left over.
pub proof fn lemma_legacy_parts(s: Seq<u8>)
    ensures
        take_legacy(s) matches Ok((tx, rest)) ==> s == tx.encoded() + rest && tx.decodable()
            && tx.hash is None,
{
    if take_legacy(s) is Ok {
        lemma_split_item_parts::<(LegacyFields, Signature)>(s);
    }
}

/// Decoding what follows the type byte of an encoded typed transaction gives it back.
proof fn lemma_typed_roundtrip(tx: SignedTx, body: Seq<u8>, rest: Seq<u8>)
    requires
        tx.hash is None,
        tx.decodable(),
        tx.valid(),
        !(tx.transaction is Legacy),
        tx.encoded().len() + rest.len() < LENGTH_LIMIT,
        tx.encoded() == seq![tx.transaction.tx_type().byte()] + body,
    ensures
        take_typed(tx.transaction.tx_type().byte(), body + rest) == Ok::<_, Eip2718Error>(
            (tx, rest),
        ),
{
    let ty = tx.transaction.tx_type().byte();
    assert(body =~= tx.encoded().skip(1));
    assert((tx.encoded() + rest).skip(1) =~= body + rest);
    match tx.transaction {
        TxFields::Legacy(_) => {},
        TxFields::Eip2930(f) => {
            assert(tx.encoded().skip(1) =~= (f, tx.signature).rlp());
            lemma_split_item((f, tx.signature), rest);
        },
        TxFields::Eip1559(f) => {
            assert(tx.encoded().skip(1) =~= (f, tx.signature).rlp());
            lemma_split_item((f, tx.signature), rest);
        },
        TxFields::Eip4844(f) => {
            assert(tx.encoded().skip(1) =~= (f, tx.signature).rlp());
            lemma_split_item((f, tx.signature), rest);
        },
        TxFields::Eip7702(f) => {
            assert(tx.encoded().skip(1) =~= (f, tx.signature).rlp());
            lemma_split_item((f, tx.signature), rest);
        },
        TxFields::MlDsa(f) => {
            law_eip2718_roundtrip(f, rest);
        },
    }
}

/// Decoding an EIP-2718 encoding gives the signed transaction back and leaves what follows.
pub proof fn law_envelope_roundtrip(tx: SignedTx, rest: Seq<u8>)
    requires
        tx.valid(),
        tx.hash is None,
        tx.decodable(),
        tx.encoded().len() + rest.len() < LENGTH_LIMIT,
    ensures
        take_2718(tx.encoded() + rest) == Ok::<_, Eip2718Error>((tx, rest)),
{
    law_encoding_shows_type(tx.transaction, tx.signature);
    let s = tx.encoded() + rest;
    assert(s[0] == tx.encoded()[0]);
    if tx.transaction is Legacy {
        lemma_split_item((tx.transaction->Legacy_0, tx.signature), rest);
    } else {
        let body = tx.encoded().skip(1);
        assert(tx.encoded() =~= seq![tx.transaction.tx_type().byte()] + body);
        assert(s.skip(1) =~= body + rest);
        lemma_typed_roundtrip(tx, body, rest);
    }
}

/// Decoding succeeds on nothing but EIP-2718 encodings: the input was the encoding of the signed
/// transaction that came out, followed by what was left.
pub proof fn law_envelope_canonical(s: Seq<u8>)
    ensures
        take_2718(s) matches Ok((tx, rest)) ==> s == tx.encoded() + rest && tx.decodable(),
{
    if s.len() > 0 && s[0] <= 0x7f {
        lemma_typed_parts(s[0], s.skip(1));
        assert(s =~= seq![s[0]] + s.skip(1));
    } else {
        lemma_legacy_parts(s);
    }
}

/// The hash of a decoded transaction is that of the bytes that it was decoded from.
pub proof fn law_decoded_hash(s: Seq<u8>)
    ensures
        take_2718(s) matches Ok((tx, rest)) ==> tx.tx_hash() == keccak(
            s.take(s.len() - rest.len()),
        ),
{
    if take_2718(s) is Ok {
        let (tx, rest) = take_2718(s)->Ok_0;
        law_envelope_canonical(s);
        if s.len() > 0 && s[0] <= 0x7f {
            lemma_typed_parts(s[0], s.skip(1));
        } else {
            lemma_legacy_parts(s);
        }
        assert(s.take(s.len() - rest.len()) =~= tx.encoded());
    }
}

/// Different signed transactions have different EIP-2718 encodings.
pub proof fn law_envelope_injective(a: SignedTx, b: SignedTx)
    requires
        a.valid(),
        b.valid(),
        a.decodable(),
        b.decodable(),
        a.hash is None,
        b.hash is None,
        a.encoded() == b.encoded(),
        a.encoded().len() < LENGTH_LIMIT,
    ensures
        a == b,
{
    let none = Seq::<u8>::empty();
    law_envelope_roundtrip(a, none);
    law_envelope_roundtrip(b, none);
}

/// Decoding the network form gives the signed transaction back and leaves what follows.
pub proof fn law_network_roundtrip(tx: SignedTx, rest: Seq<u8>)
    requires
        tx.valid(),
        tx.hash is None,
        tx.decodable(),
        tx.network().len() + rest.len() < LENGTH_LIMIT,
    ensures
        take_network(tx.network() + rest) == Ok::<_, Eip2718Error>((tx, rest)),
{
    let s = tx.network() + rest;
    let encoded = tx.encoded();
    law_encoding_shows_type(tx.transaction, tx.signature);
    if tx.transaction is Legacy {
        let f = tx.transaction->Legacy_0;
        lemma_split_item((f, tx.signature), rest);
        let payload = f.fields_before(
            rlp_uint(eip155_value(tx.signature.y_parity, f.chain_id)) + tx.signature.scalars(),
        );
        lemma_split_list_header(payload, rest);
    } else {
        let ty = tx.transaction.tx_type().byte();
        let body = encoded.skip(1);
        assert(encoded =~= seq![ty] + body);
        lemma_typed_roundtrip(tx, body, rest);
        lemma_typed_body_nonempty(tx);
        let payload = encoded + rest;
        lemma_add_assoc(rlp_header(false, encoded.len()), encoded, rest);
        assert(starts_with_header(s, false, encoded.len(), payload));
        lemma_split_header_unique(s, false, encoded.len(), payload);
        assert(payload.skip(1) =~= body + rest);
        assert(payload[0] == ty);
    }
}

/// A typed transaction's encoding is longer than its type byte.
proof fn lemma_typed_body_nonempty(tx: SignedTx)
    requires
        !(tx.transaction is Legacy),
    ensures
        tx.encoded().len() > 1,
{
}

} // verus!
