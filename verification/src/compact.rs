//! The compact form in which transactions are stored.
//!
//! A signed transaction is stored as a byte of flags, the two scalars of the signature, and the
//! compact form of the transaction, which is compressed where the input has 32 bytes or more.

use alloy_consensus::{
    EthereumTxEnvelope as AlloyTxEnvelope, TxEip1559 as AlloyTxEip1559, TxEip2930 as AlloyTxEip2930,
    TxEip4844 as AlloyTxEip4844, TxEip7702 as AlloyTxEip7702, TxLegacy as AlloyTxLegacy,
};
use alloy_primitives::Signature as AlloySignature;
use reth_codecs::Compact;
use vstd::prelude::*;

use crate::envelope::{enveloped_plain, hashed, EthereumTxEnvelope};
use crate::primitives::{lemma_u256_bound, lemma_u256_injective, Signature};
use crate::rlp::{pow256, rlp_list, LENGTH_LIMIT};
use crate::transaction::{canonical_signature, Transaction, TxFields};
use crate::transaction_signed::{SignedTx, TransactionSigned};
use crate::tx_ecdsa::{
    Eip1559Fields, Eip2930Fields, Eip4844Fields, Eip7702Fields, LegacyFields, TxEip1559, TxEip2930,
    TxEip4844, TxEip7702, TxLegacy,
};
use crate::tx_ecdsa_codec::{
    alloy_eip1559, alloy_eip2930, alloy_eip4844, alloy_eip7702, alloy_legacy, alloy_signature,
    own_eip1559, own_eip2930, own_eip4844, own_eip7702, own_legacy, own_signature,
};
use crate::tx_ml_dsa::{compact_split, law_compact_roundtrip, starts_with_compact, TxMlDsa};
use crate::tx_type::{law_type_compact_roundtrip, DiesisTxType};

verus! {

/// The `k` little-endian bytes of a number.
pub open spec fn le_bytes(n: nat, k: nat) -> Seq<u8>
    decreases k,
{
    if k == 0 {
        Seq::empty()
    } else {
        seq![(n % 256) as u8] + le_bytes(n / 256, (k - 1) as nat)
    }
}

/// The number that little-endian bytes stand for.
pub open spec fn le_value(s: Seq<u8>) -> nat
    decreases s.len(),
{
    if s.len() == 0 {
        0
    } else {
        s[0] as nat + 256 * le_value(s.skip(1))
    }
}

/// Little-endian bytes give their number back.
pub proof fn lemma_le_roundtrip(n: nat, k: nat)
    requires
        n < pow256(k),
    ensures
        le_bytes(n, k).len() == k,
        le_value(le_bytes(n, k)) == n,
    decreases k,
{
    if k > 0 {
        lemma_le_roundtrip(n / 256, (k - 1) as nat);
        assert(le_bytes(n, k).skip(1) =~= le_bytes(n / 256, (k - 1) as nat));
    }
}

impl Signature {
    /// The compact form of the scalars: 32 little-endian bytes of each.
    pub open spec fn compact_scalars(self) -> Seq<u8> {
        le_bytes(self.r.as_nat(), 32) + le_bytes(self.s.as_nat(), 32)
    }
}

/// `<alloy_primitives::Signature as reth_codecs::Compact>::to_compact`: appends the scalars and
/// returns the parity.
#[verifier::external_body]
fn signature_to_compact(signature: Signature, buf: &mut Vec<u8>) -> (parity: usize)
    ensures
        final(buf)@ == old(buf)@ + signature.compact_scalars(),
        parity == if signature.y_parity {
            1usize
        } else {
            0usize
        },
{
    alloy_signature(signature).to_compact(buf)
}

/// `<alloy_primitives::Signature as reth_codecs::Compact>::from_compact`: reads the scalars off
/// the front of the buffer; the identifier is the parity.
#[verifier::external_body]
fn signature_from_compact(buf: &[u8], identifier: usize) -> (result: (Signature, &[u8]))
    requires
        buf@.len() >= 64,
    ensures
        result.0.r.as_nat() == le_value(buf@.subrange(0, 32)),
        result.0.s.as_nat() == le_value(buf@.subrange(32, 64)),
        result.0.y_parity == (identifier != 0),
        result.1@ == buf@.skip(64),
{
    let (signature, rest) = AlloySignature::from_compact(buf, identifier);
    (own_signature(signature), rest)
}

/// What `reth_zstd_compressors` decompresses the bytes to, with its dictionary for transactions,
/// if they are a compressed frame.
pub uninterp spec fn zstd_content(s: Seq<u8>) -> Option<Seq<u8>>;

/// `reth_zstd_compressors::with_tx_compressor` with `Compressor::compress`: some frame whose
/// content is the data. Which of the possible frames it is depends on the compressor.
#[verifier::external_body]
fn compress_transaction(data: &[u8]) -> (frame: Vec<u8>)
    ensures
        zstd_content(frame@) == Some(data@),
{
    reth_zstd_compressors::with_tx_compressor(
        |compressor| compressor.compress(data).expect("Failed to compress"),
    )
}

/// `reth_zstd_compressors::with_tx_decompressor` with `ReusableDecompressor::decompress`: the
/// content of a compressed frame.
#[verifier::external_body]
fn decompress_transaction(frame: &[u8]) -> (data: Vec<u8>)
    requires
        zstd_content(frame@) is Some,
    ensures
        zstd_content(frame@) == Some(data@),
{
    reth_zstd_compressors::with_tx_decompressor(
        |decompressor| decompressor.decompress(frame).to_vec(),
    )
}

/// The compact form of an `alloy_consensus::TxLegacy`.
pub uninterp spec fn legacy_compact(tx: LegacyFields) -> Seq<u8>;

/// `<alloy_consensus::TxLegacy as reth_codecs::Compact>::to_compact`: appends the compact form.
#[verifier::external_body]
fn legacy_to_compact(tx: &TxLegacy, buf: &mut Vec<u8>)
    ensures
        final(buf)@ == old(buf)@ + legacy_compact(tx@),
{
    alloy_legacy(tx).to_compact(buf);
}

/// `<alloy_consensus::TxLegacy as reth_codecs::Compact>::from_compact` on a whole compact form: the
/// transaction that it was made from. The input comes last and reaches to the end of the buffer,
/// so that nothing is left.
#[verifier::external_body]
fn legacy_from_compact(buf: &[u8]) -> (result: (TxLegacy, &[u8]))
    requires
        exists|tx: LegacyFields| buf@ == legacy_compact(tx),
    ensures
        forall|tx: LegacyFields| buf@ == legacy_compact(tx) ==> result.0@ == tx,
        result.1@.len() == 0,
{
    let (tx, rest) = AlloyTxLegacy::from_compact(buf, buf.len());
    (own_legacy(tx), rest)
}

/// The compact form of an `alloy_consensus::TxEip2930`.
pub uninterp spec fn eip2930_compact(tx: Eip2930Fields) -> Seq<u8>;

/// `<alloy_consensus::TxEip2930 as reth_codecs::Compact>::to_compact`: appends the compact form.
#[verifier::external_body]
fn eip2930_to_compact(tx: &TxEip2930, buf: &mut Vec<u8>)
    ensures
        final(buf)@ == old(buf)@ + eip2930_compact(tx@),
{
    alloy_eip2930(tx).to_compact(buf);
}

/// `<alloy_consensus::TxEip2930 as reth_codecs::Compact>::from_compact` on a whole compact form:
/// the transaction that it was made from. The input comes last and reaches to the end of the
/// buffer, so that nothing is left.
#[verifier::external_body]
fn eip2930_from_compact(buf: &[u8]) -> (result: (TxEip2930, &[u8]))
    requires
        exists|tx: Eip2930Fields| buf@ == eip2930_compact(tx),
    ensures
        forall|tx: Eip2930Fields| buf@ == eip2930_compact(tx) ==> result.0@ == tx,
        result.1@.len() == 0,
{
    let (tx, rest) = AlloyTxEip2930::from_compact(buf, buf.len());
    (own_eip2930(tx), rest)
}

/// The compact form of an `alloy_consensus::TxEip1559`.
pub uninterp spec fn eip1559_compact(tx: Eip1559Fields) -> Seq<u8>;

/// `<alloy_consensus::TxEip1559 as reth_codecs::Compact>::to_compact`: appends the compact form.
#[verifier::external_body]
fn eip1559_to_compact(tx: &TxEip1559, buf: &mut Vec<u8>)
    ensures
        final(buf)@ == old(buf)@ + eip1559_compact(tx@),
{
    alloy_eip1559(tx).to_compact(buf);
}

/// `<alloy_consensus::TxEip1559 as reth_codecs::Compact>::from_compact` on a whole compact form:
/// the transaction that it was made from. The input comes last and reaches to the end of the
/// buffer, so that nothing is left.
#[verifier::external_body]
fn eip1559_from_compact(buf: &[u8]) -> (result: (TxEip1559, &[u8]))
    requires
        exists|tx: Eip1559Fields| buf@ == eip1559_compact(tx),
    ensures
        forall|tx: Eip1559Fields| buf@ == eip1559_compact(tx) ==> result.0@ == tx,
        result.1@.len() == 0,
{
    let (tx, rest) = AlloyTxEip1559::from_compact(buf, buf.len());
    (own_eip1559(tx), rest)
}

/// The compact form of an `alloy_consensus::TxEip4844`.
pub uninterp spec fn eip4844_compact(tx: Eip4844Fields) -> Seq<u8>;

/// `<alloy_consensus::TxEip4844 as reth_codecs::Compact>::to_compact`: appends the compact form.
#[verifier::external_body]
fn eip4844_to_compact(tx: &TxEip4844, buf: &mut Vec<u8>)
    ensures
        final(buf)@ == old(buf)@ + eip4844_compact(tx@),
{
    alloy_eip4844(tx).to_compact(buf);
}

/// `<alloy_consensus::TxEip4844 as reth_codecs::Compact>::from_compact` on a whole compact form:
/// the transaction that it was made from. The input comes last and reaches to the end of the
/// buffer, so that nothing is left.
#[verifier::external_body]
fn eip4844_from_compact(buf: &[u8]) -> (result: (TxEip4844, &[u8]))
    requires
        exists|tx: Eip4844Fields| buf@ == eip4844_compact(tx),
    ensures
        forall|tx: Eip4844Fields| buf@ == eip4844_compact(tx) ==> result.0@ == tx,
        result.1@.len() == 0,
{
    let (tx, rest) = AlloyTxEip4844::from_compact(buf, buf.len());
    (own_eip4844(tx), rest)
}

/// The compact form of an `alloy_consensus::TxEip7702`.
pub uninterp spec fn eip7702_compact(tx: Eip7702Fields) -> Seq<u8>;

/// `<alloy_consensus::TxEip7702 as reth_codecs::Compact>::to_compact`: appends the compact form.
#[verifier::external_body]
fn eip7702_to_compact(tx: &TxEip7702, buf: &mut Vec<u8>)
    ensures
        final(buf)@ == old(buf)@ + eip7702_compact(tx@),
{
    alloy_eip7702(tx).to_compact(buf);
}

/// `<alloy_consensus::TxEip7702 as reth_codecs::Compact>::from_compact` on a whole compact form:
/// the transaction that it was made from. The input comes last and reaches to the end of the
/// buffer, so that nothing is left.
#[verifier::external_body]
fn eip7702_from_compact(buf: &[u8]) -> (result: (TxEip7702, &[u8]))
    requires
        exists|tx: Eip7702Fields| buf@ == eip7702_compact(tx),
    ensures
        forall|tx: Eip7702Fields| buf@ == eip7702_compact(tx) ==> result.0@ == tx,
        result.1@.len() == 0,
{
    let (tx, rest) = AlloyTxEip7702::from_compact(buf, buf.len());
    (own_eip7702(tx), rest)
}

impl TxFields {
    /// The compact form of the fields.
    pub open spec fn compact_fields(self) -> Seq<u8> {
        match self {
            TxFields::Legacy(tx) => legacy_compact(tx),
            TxFields::Eip2930(tx) => eip2930_compact(tx),
            TxFields::Eip1559(tx) => eip1559_compact(tx),
            TxFields::Eip4844(tx) => eip4844_compact(tx),
            TxFields::Eip7702(tx) => eip7702_compact(tx),
            TxFields::MlDsa(tx) => rlp_list(tx.all_fields()),
        }
    }

    /// The compact form of the transaction: its type, as far as the identifier does not show it,
    /// and the fields.
    pub open spec fn compact(self) -> Seq<u8> {
        self.tx_type().compact_bytes() + self.compact_fields()
    }

    /// Whether a reader of `s`, with the given identifier, finds this transaction and leaves
    /// `rest`: its type is there, and then its fields. Only after an ML-DSA transaction, whose
    /// form shows where it ends, can there be anything left.
    pub open spec fn reads_from(self, s: Seq<u8>, identifier: usize, rest: Seq<u8>) -> bool {
        &&& DiesisTxType::of_compact(s, identifier) matches Some((tx_type, body))
        &&& tx_type == self.tx_type()
        &&& match self {
            TxFields::MlDsa(tx) => starts_with_compact(body) && compact_split(body) == (tx, rest),
            _ => body == self.compact_fields() && rest.len() == 0,
        }
    }

    /// Whether a reader of `s`, with the given identifier, finds this transaction.
    pub open spec fn starts_readable(self, s: Seq<u8>, identifier: usize) -> bool {
        exists|rest: Seq<u8>| self.reads_from(s, identifier, rest)
    }
}

impl Transaction {
    /// Appends the compact form and returns the identifier of the type.
    pub fn to_compact(&self, buf: &mut Vec<u8>) -> (identifier: usize)
        ensures
            identifier == self@.tx_type().compact_identifier(),
            final(buf)@ == old(buf)@ + self@.compact(),
    {
        let identifier: usize = self.tx_type().to_compact(buf);
        match self {
            Transaction::Legacy(tx) => legacy_to_compact(tx, buf),
            Transaction::Eip2930(tx) => eip2930_to_compact(tx, buf),
            Transaction::Eip1559(tx) => eip1559_to_compact(tx, buf),
            Transaction::Eip4844(tx) => eip4844_to_compact(tx, buf),
            Transaction::Eip7702(tx) => eip7702_to_compact(tx, buf),
            Transaction::MlDsa(tx) => {
                tx.to_compact(buf);
            },
        }
        assert(buf@ =~= old(buf)@ + self@.compact());
        identifier
    }

    /// Reads a compact form with the given identifier.
    pub fn from_compact(buf: &[u8], identifier: usize) -> (result: (Self, &[u8]))
        requires
            exists|tx: TxFields, rest: Seq<u8>| tx.reads_from(buf@, identifier, rest),
        ensures
            forall|tx: TxFields, rest: Seq<u8>|
                tx.reads_from(buf@, identifier, rest) ==> result.0@ == tx && result.1@ == rest,
            raw_read_as(buf@, identifier, result.0@, result.1@),
    {
        let ghost s = buf@;
        let (tx_type, buf) = DiesisTxType::from_compact(buf, identifier);
        let result = match tx_type {
            DiesisTxType::Legacy => {
                let (tx, rest) = legacy_from_compact(buf);
                (Transaction::Legacy(tx), rest)
            },
            DiesisTxType::Eip2930 => {
                let (tx, rest) = eip2930_from_compact(buf);
                (Transaction::Eip2930(tx), rest)
            },
            DiesisTxType::Eip1559 => {
                let (tx, rest) = eip1559_from_compact(buf);
                (Transaction::Eip1559(tx), rest)
            },
            DiesisTxType::Eip4844 => {
                let (tx, rest) = eip4844_from_compact(buf);
                (Transaction::Eip4844(tx), rest)
            },
            DiesisTxType::Eip7702 => {
                let (tx, rest) = eip7702_from_compact(buf);
                (Transaction::Eip7702(tx), rest)
            },
            DiesisTxType::MlDsa => {
                let (tx, rest) = TxMlDsa::from_compact(buf, buf.len());
                (Transaction::MlDsa(tx), rest)
            },
        };
        proof {
            assert forall|tx: TxFields, rest: Seq<u8>| #[trigger]
                tx.reads_from(s, identifier, rest) implies result.0@ == tx && result.1@ == rest by {
            }
        }
        result
    }
}

/// Whether `read`, with `left` left over, is the raw transaction that a reader of `s`, with the
/// given identifier, finds there.
pub open spec fn raw_read_as(s: Seq<u8>, identifier: usize, read: TxFields, left: Seq<u8>) -> bool {
    forall|tx: TxFields, rest: Seq<u8>| #[trigger]
        tx.reads_from(s, identifier, rest) ==> read == tx && left == rest
}

/// Whether `read`, with `left` left over, is the signed transaction that a reader of `s` finds
/// there.
pub open spec fn read_as(s: Seq<u8>, read: SignedTx, left: Seq<u8>) -> bool {
    forall|tx: SignedTx, rest: Seq<u8>| #[trigger]
        tx.reads_stored(s, rest) ==> read == tx.canonical() && left == rest
}

/// The byte of flags in front of a stored transaction: the parity of the signature in bit 0, the
/// identifier of the type in bits 1 and 2, and in bit 3 whether the transaction is compressed.
pub open spec fn compact_flags(y_parity: bool, identifier: usize, compressed: bool) -> int {
    (if y_parity {
        1int
    } else {
        0
    }) + 2 * identifier + (if compressed {
        8int
    } else {
        0
    })
}

/// What the bits of the flags are.
proof fn lemma_flags(sig_bit: u8, tx_bits: u8, zstd_bit: u8)
    requires
        sig_bit <= 1,
        tx_bits <= 3,
        zstd_bit <= 1,
    ensures
        sig_bit | (tx_bits << 1) | (zstd_bit << 3) == sig_bit + 2 * tx_bits + 8 * zstd_bit,
{
    assert(sig_bit | (tx_bits << 1u8) | (zstd_bit << 3u8) == sig_bit + 2 * tx_bits + 8 * zstd_bit)
        by (bit_vector)
        requires
            sig_bit <= 1,
            tx_bits <= 3,
            zstd_bit <= 1,
    ;
}

/// What the bits of a byte are in numbers.
proof fn lemma_read_flags(flags: u8)
    ensures
        flags & 1 == flags % 2,
        flags >> 3 == flags / 8,
        (flags & 6) >> 1 == flags / 2 % 4,
        flags >> 1 == flags / 2,
{
    assert(flags & 1 == flags % 2 && flags >> 3u8 == flags / 8 && (flags & 6) >> 1u8 == flags / 2
        % 4 && flags >> 1u8 == flags / 2) by (bit_vector);
}

impl SignedTx {
    /// Whether the transaction is compressed when it is stored.
    pub open spec fn stored_compressed(self) -> bool {
        self.transaction.input().len() >= 32
    }

    /// Whether `s` is a stored form of this signed transaction: flags, scalars, and the compact
    /// form of the transaction or a compressed frame of it.
    pub open spec fn stored_as(self, s: Seq<u8>) -> bool {
        let identifier = self.transaction.tx_type().compact_identifier();
        &&& s.len() >= 65
        &&& s[0] == compact_flags(self.signature.y_parity, identifier, self.stored_compressed())
        &&& s.subrange(1, 65) == self.signature.compact_scalars()
        &&& if self.stored_compressed() {
            zstd_content(s.skip(65)) == Some(self.transaction.compact())
        } else {
            s.skip(65) == self.transaction.compact()
        }
    }

    /// Whether a reader of `s` finds this signed transaction, with its hash open, and leaves
    /// `rest`. Whether there is a compressed frame is for the flags to say. The frame itself is
    /// left in the buffer, and what follows the transaction in the frame is ignored.
    pub open spec fn reads_stored(self, s: Seq<u8>, rest: Seq<u8>) -> bool {
        &&& self.hash is None
        &&& s.len() >= 65
        &&& self.signature.y_parity == (s[0] % 2 == 1)
        &&& s.subrange(1, 65) == self.signature.compact_scalars()
        &&& if s[0] >= 8 {
            &&& rest == s.skip(65)
            &&& zstd_content(s.skip(65)) is Some
            &&& self.transaction.starts_readable(
                zstd_content(s.skip(65))->Some_0,
                (s[0] / 2 % 4) as usize,
            )
        } else {
            self.transaction.reads_from(s.skip(65), (s[0] / 2) as usize, rest)
        }
    }

    /// The same with the canonical signature.
    pub open spec fn canonical(self) -> SignedTx {
        SignedTx { signature: canonical_signature(self.transaction, self.signature), ..self }
    }
}

impl TransactionSigned {
    /// Appends a stored form and returns how many bytes that took.
    pub fn to_compact(&self, buf: &mut Vec<u8>) -> (n: usize)
        ensures
            n == final(buf)@.len() - old(buf)@.len(),
            final(buf)@.take(old(buf)@.len() as int) == old(buf)@,
            self@.stored_as(final(buf)@.skip(old(buf)@.len() as int)),
            self@.transaction.compact().len() <= usize::MAX,
    {
        proof {
            use_type_invariant(self);
            lemma_scalars(self@.signature);
        }
        let start: usize = buf.len();
        let ghost before = buf@;
        let mut stored: Vec<u8> = Vec::new();
        // Placeholder for the flags.
        stored.push(0);
        let sig_bit: u8 = signature_to_compact(*self.signature(), &mut stored) as u8;
        let ghost scalars = self@.signature.compact_scalars();
        assert(stored@ =~= seq![0u8] + scalars);
        let zstd_bit: bool = self.transaction().input().len() >= 32;
        let tx_bits: u8 = if zstd_bit {
            let mut tmp: Vec<u8> = Vec::with_capacity(256);
            let tx_bits: usize = self.transaction().to_compact(&mut tmp);
            assert(tmp@ =~= self@.transaction.compact());
            assert(tmp@.len() == tmp.len());
            let frame = compress_transaction(tmp.as_slice());
            stored.extend_from_slice(frame.as_slice());
            assert(stored@.skip(65) =~= frame@);
            tx_bits as u8
        } else {
            let tx_bits: usize = self.transaction().to_compact(&mut stored);
            assert(stored@.skip(65) =~= self@.transaction.compact());
            tx_bits as u8
        };
        let zstd_flag: u8 = if zstd_bit {
            1
        } else {
            0
        };
        proof {
            lemma_flags(sig_bit, tx_bits, zstd_flag);
        }
        let ghost tail = stored@.skip(65);
        stored.set(0, sig_bit | (tx_bits << 1) | (zstd_flag << 3));
        buf.extend_from_slice(stored.as_slice());
        proof {
            assert(stored@.len() == stored.len());
            assert(stored@.subrange(1, 65) =~= scalars);
            assert(stored@.skip(65) =~= tail);
            assert(buf@ =~= before + stored@);
            assert(buf@.skip(before.len() as int) =~= stored@);
            assert(buf@.take(before.len() as int) =~= before);
        }
        buf.len() - start
    }

    /// Reads a stored form. The length given is not used. Whichever outer signature is stored with
    /// an ML-DSA transaction, it is read with the dummy.
    pub fn from_compact(buf: &[u8], len: usize) -> (result: (Self, &[u8]))
        requires
            exists|tx: SignedTx, rest: Seq<u8>| tx.reads_stored(buf@, rest),
        ensures
            forall|tx: SignedTx, rest: Seq<u8>|
                tx.reads_stored(buf@, rest) ==> result.0@ == tx.canonical() && result.1@ == rest,
            read_as(buf@, result.0@, result.1@),
    {
        let ghost s = buf@;
        let bitflags: u8 = buf[0];
        let (_, after_flags) = buf.split_at(1);
        assert(after_flags@ =~= s.skip(1));
        let sig_bit: usize = (bitflags & 1) as usize;
        proof {
            lemma_read_flags(bitflags);
        }
        let (signature, body) = signature_from_compact(after_flags, sig_bit);
        assert(body@ =~= s.skip(65));
        proof {
            assert forall|tx: SignedTx, rest: Seq<u8>| tx.reads_stored(s, rest) implies tx.signature
                == signature by {
                lemma_stored_signature(tx.signature, s, signature);
            }
        }
        let zstd_bit: u8 = bitflags >> 3;
        if zstd_bit != 0 {
            let transaction_type: usize = ((bitflags & 6) >> 1) as usize;
            let data = decompress_transaction(body);
            let (transaction, _) = Transaction::from_compact(data.as_slice(), transaction_type);
            (Self::new_unhashed(transaction, signature), body)
        } else {
            let transaction_type: usize = (bitflags >> 1) as usize;
            let (transaction, rest) = Transaction::from_compact(body, transaction_type);
            (Self::new_unhashed(transaction, signature), rest)
        }
    }

    /// Stores the signed transaction and reads it back: what comes out is what went in, with its
    /// hash left open.
    pub fn through_storage(&self) -> (read: Self)
        requires
            self@.decodable(),
        ensures
            read@ == (SignedTx { hash: None, ..self@ }),
    {
        let mut buf: Vec<u8> = Vec::new();
        let len: usize = self.to_compact(&mut buf);
        proof {
            use_type_invariant(self);
            assert(buf@.skip(0) =~= buf@);
            law_stored_form_is_readable(SignedTx { hash: None, ..self@ }, buf@);
        }
        let (read, _) = Self::from_compact(buf.as_slice(), len);
        read
    }
}

/// The envelope of `alloy_consensus`.
#[verifier::external_type_specification]
#[verifier::external_body]
#[verifier::reject_recursive_types(Eip4844)]
pub struct ExEnvelope<Eip4844>(AlloyTxEnvelope<Eip4844>);

/// The same envelope as an `alloy_consensus::EthereumTxEnvelope`.
#[verifier::external_body]
fn alloy_envelope(envelope: &EthereumTxEnvelope<TxEip4844>) -> AlloyTxEnvelope<AlloyTxEip4844> {
    let (tx, signature, hash) = match envelope {
        EthereumTxEnvelope::Legacy(of) => (alloy_legacy(&of.tx).into(), of.signature, of.hash),
        EthereumTxEnvelope::Eip2930(of) => (alloy_eip2930(&of.tx).into(), of.signature, of.hash),
        EthereumTxEnvelope::Eip1559(of) => (alloy_eip1559(&of.tx).into(), of.signature, of.hash),
        EthereumTxEnvelope::Eip4844(of) => (alloy_eip4844(&of.tx).into(), of.signature, of.hash),
        EthereumTxEnvelope::Eip7702(of) => (alloy_eip7702(&of.tx).into(), of.signature, of.hash),
    };
    AlloyTxEnvelope::new_unchecked(tx, alloy_signature(signature), hash.bytes.into())
}

/// `<alloy_consensus::EthereumTxEnvelope as reth_codecs::Compact>::to_compact`: appends flags,
/// scalars and the compact form of the transaction, or a compressed frame of it where the input has
/// 32 bytes or more, and returns how many bytes that took.
#[verifier::external_body]
fn envelope_to_compact(envelope: &EthereumTxEnvelope<TxEip4844>, buf: &mut Vec<u8>) -> (n: usize)
    ensures
        n == final(buf)@.len() - old(buf)@.len(),
        final(buf)@.take(old(buf)@.len() as int) == old(buf)@,
        envelope.content().stored_as(final(buf)@.skip(old(buf)@.len() as int)),
{
    alloy_envelope(envelope).to_compact(buf)
}

impl EthereumTxEnvelope<TxEip4844> {
    /// The signed transaction in the envelope.
    pub open spec fn content(self) -> SignedTx {
        match self {
            EthereumTxEnvelope::Legacy(of) => SignedTx {
                hash: Some(of.hash),
                signature: of.signature,
                transaction: TxFields::Legacy(of.tx@),
            },
            EthereumTxEnvelope::Eip2930(of) => SignedTx {
                hash: Some(of.hash),
                signature: of.signature,
                transaction: TxFields::Eip2930(of.tx@),
            },
            EthereumTxEnvelope::Eip1559(of) => SignedTx {
                hash: Some(of.hash),
                signature: of.signature,
                transaction: TxFields::Eip1559(of.tx@),
            },
            EthereumTxEnvelope::Eip4844(of) => SignedTx {
                hash: Some(of.hash),
                signature: of.signature,
                transaction: TxFields::Eip4844(of.tx@),
            },
            EthereumTxEnvelope::Eip7702(of) => SignedTx {
                hash: Some(of.hash),
                signature: of.signature,
                transaction: TxFields::Eip7702(of.tx@),
            },
        }
    }

    /// Appends the stored form of Ethereum's own envelope and returns how many bytes that took.
    pub fn to_compact(&self, buf: &mut Vec<u8>) -> (n: usize)
        ensures
            n == final(buf)@.len() - old(buf)@.len(),
            final(buf)@.take(old(buf)@.len() as int) == old(buf)@,
            self.content().stored_as(final(buf)@.skip(old(buf)@.len() as int)),
    {
        envelope_to_compact(self, buf)
    }
}

/// Two stored forms of a signed transaction agree on flags and scalars. They are equal where the
/// transaction is not compressed or the frames are the same, and otherwise hold frames of the same
/// content.
pub proof fn law_stored_form_is_fixed(tx: SignedTx, a: Seq<u8>, b: Seq<u8>)
    requires
        tx.stored_as(a),
        tx.stored_as(b),
    ensures
        a.take(65) == b.take(65),
        !tx.stored_compressed() ==> a == b,
        a.skip(65) == b.skip(65) ==> a == b,
        tx.stored_compressed() ==> zstd_content(a.skip(65)) == zstd_content(b.skip(65)),
{
    assert(a.take(65) =~= seq![a[0]] + a.subrange(1, 65));
    assert(b.take(65) =~= seq![b[0]] + b.subrange(1, 65));
    assert(a =~= a.take(65) + a.skip(65));
    assert(b =~= b.take(65) + b.skip(65));
}

/// A signed transaction is stored as Ethereum's own envelope of it is: the two forms agree on flags
/// and scalars, are equal where the transaction is not compressed or the frames are the same, and
/// otherwise hold frames of the same content.
pub proof fn law_stored_as_the_envelope(
    envelope: EthereumTxEnvelope<TxEip4844>,
    tx: SignedTx,
    own: Seq<u8>,
    enveloped: Seq<u8>,
)
    requires
        enveloped_plain(envelope, tx),
        tx.stored_as(own),
        envelope.content().stored_as(enveloped),
    ensures
        own.take(65) == enveloped.take(65),
        !tx.stored_compressed() ==> own == enveloped,
        own.skip(65) == enveloped.skip(65) ==> own == enveloped,
        tx.stored_compressed() ==> zstd_content(own.skip(65)) == zstd_content(enveloped.skip(65)),
{
    assert(envelope.content() == hashed(tx));
    law_stored_form_is_fixed(tx, own, enveloped);
}

/// A reader finds in a stored form the signed transaction that was stored, and leaves the
/// compressed frame, if there is one, and otherwise nothing.
pub proof fn law_stored_form_is_readable(tx: SignedTx, s: Seq<u8>)
    requires
        tx.hash is None,
        tx.decodable(),
        tx.stored_as(s),
        tx.transaction.compact().len() < LENGTH_LIMIT,
    ensures
        tx.reads_stored(
            s,
            if tx.stored_compressed() {
                s.skip(65)
            } else {
                Seq::empty()
            },
        ),
{
    lemma_compact_is_readable(tx.transaction);
}

/// A reader finds in a compact form the transaction that it was made from, and leaves nothing.
pub proof fn lemma_compact_is_readable(tx: TxFields)
    requires
        tx matches TxFields::MlDsa(tx) ==> tx.key_material_shaped(),
        tx.compact().len() < LENGTH_LIMIT,
    ensures
        tx.reads_from(tx.compact(), tx.tx_type().compact_identifier(), Seq::empty()),
{
    law_type_compact_roundtrip(tx.tx_type(), tx.compact_fields());
    if tx is MlDsa {
        law_compact_roundtrip(tx->MlDsa_0, Seq::empty());
        assert(tx.compact_fields() + Seq::<u8>::empty() =~= tx.compact_fields());
    }
}

/// The scalars of a signature take 32 bytes each.
pub proof fn lemma_scalars(signature: Signature)
    ensures
        le_bytes(signature.r.as_nat(), 32).len() == 32,
        le_bytes(signature.s.as_nat(), 32).len() == 32,
        le_value(le_bytes(signature.r.as_nat(), 32)) == signature.r.as_nat(),
        le_value(le_bytes(signature.s.as_nat(), 32)) == signature.s.as_nat(),
{
    reveal_with_fuel(pow256, 33);
    lemma_u256_bound(signature.r);
    lemma_u256_bound(signature.s);
    lemma_le_roundtrip(signature.r.as_nat(), 32);
    lemma_le_roundtrip(signature.s.as_nat(), 32);
}

/// The signature read from a stored form is the one that stands there.
proof fn lemma_stored_signature(stored: Signature, s: Seq<u8>, read: Signature)
    requires
        s.len() >= 65,
        s.subrange(1, 65) == stored.compact_scalars(),
        read.r.as_nat() == le_value(s.skip(1).subrange(0, 32)),
        read.s.as_nat() == le_value(s.skip(1).subrange(32, 64)),
        read.y_parity == stored.y_parity,
    ensures
        stored == read,
{
    lemma_scalars(stored);
    let scalars = s.subrange(1, 65);
    assert(s.skip(1).subrange(0, 32) =~= scalars.subrange(0, 32));
    assert(s.skip(1).subrange(32, 64) =~= scalars.subrange(32, 64));
    assert(scalars.subrange(0, 32) =~= le_bytes(stored.r.as_nat(), 32));
    assert(scalars.subrange(32, 64) =~= le_bytes(stored.s.as_nat(), 32));
    lemma_u256_injective(stored.r, read.r);
    lemma_u256_injective(stored.s, read.s);
}

} // verus!
