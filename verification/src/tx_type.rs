//! Transaction type identifiers.

use vstd::prelude::*;

use crate::hashing::feed_u8;
use crate::rlp::{is_tail, lemma_split_item, split_item, RlpError, RlpItem, LENGTH_LIMIT};
use crate::rlp_codec::{decode_u8, encode_u8, u8_decode_error, u8_length};

verus! {

/// Type byte of ML-DSA post-quantum transactions.
pub const ML_DSA_TX_TYPE_ID: u8 = 0x70;

/// Compact identifier of legacy transactions.
pub const COMPACT_IDENTIFIER_LEGACY: usize = 0;

/// Compact identifier of EIP-2930 transactions.
pub const COMPACT_IDENTIFIER_EIP2930: usize = 1;

/// Compact identifier of EIP-1559 transactions.
pub const COMPACT_IDENTIFIER_EIP1559: usize = 2;

/// Compact identifier of all other transactions, whose type byte is written out.
pub const COMPACT_EXTENDED_IDENTIFIER_FLAG: usize = 3;

/// Why an EIP-2718 envelope could not be decoded.
#[derive(Clone, Copy, Debug, PartialEq, Eq)]
pub enum Eip2718Error {
    /// The content is not valid RLP.
    RlpError(RlpError),
    /// Got an unexpected type flag while decoding.
    UnexpectedType(u8),
}

/// Transaction types that Ethereum itself knows.
#[derive(Clone, Copy, Debug, PartialEq, Eq, Hash, Structural)]
pub enum TxType {
    /// Legacy transaction.
    Legacy,
    /// EIP-2930 access-list transaction.
    Eip2930,
    /// EIP-1559 dynamic-fee transaction.
    Eip1559,
    /// EIP-4844 blob transaction.
    Eip4844,
    /// EIP-7702 set-code transaction.
    Eip7702,
}

/// Diesis transaction type identifier.
///
/// This mirrors Ethereum's transaction type set and adds the Diesis ML-DSA transaction lane
/// (`0x70`). Use this for receipts and executor paths that must preserve custom EIP-2718
/// transaction types.
#[derive(Clone, Copy, Debug, PartialEq, Eq, Structural)]
pub enum DiesisTxType {
    /// Legacy transaction.
    Legacy,
    /// EIP-2930 access-list transaction.
    Eip2930,
    /// EIP-1559 dynamic-fee transaction.
    Eip1559,
    /// EIP-4844 blob transaction.
    Eip4844,
    /// EIP-7702 set-code transaction.
    Eip7702,
    /// Diesis ML-DSA post-quantum transaction.
    MlDsa,
}

impl Default for TxType {
    fn default() -> (ty: Self)
        ensures
            ty == TxType::Legacy,
    {
        TxType::Legacy
    }
}

impl Default for DiesisTxType {
    fn default() -> (ty: Self)
        ensures
            ty == DiesisTxType::Legacy,
    {
        DiesisTxType::Legacy
    }
}

/// A type is hashed as its type byte.
impl core::hash::Hash for DiesisTxType {
    fn hash<H: core::hash::Hasher>(&self, state: &mut H) {
        feed_u8(self.ty(), state)
    }
}

impl DiesisTxType {
    /// The type byte.
    pub open spec fn byte(self) -> u8 {
        match self {
            DiesisTxType::Legacy => 0,
            DiesisTxType::Eip2930 => 1,
            DiesisTxType::Eip1559 => 2,
            DiesisTxType::Eip4844 => 3,
            DiesisTxType::Eip7702 => 4,
            DiesisTxType::MlDsa => ML_DSA_TX_TYPE_ID,
        }
    }

    /// The type with the given type byte.
    pub open spec fn of_byte(byte: u8) -> Option<DiesisTxType> {
        if byte == 0 {
            Some(DiesisTxType::Legacy)
        } else if byte == 1 {
            Some(DiesisTxType::Eip2930)
        } else if byte == 2 {
            Some(DiesisTxType::Eip1559)
        } else if byte == 3 {
            Some(DiesisTxType::Eip4844)
        } else if byte == 4 {
            Some(DiesisTxType::Eip7702)
        } else if byte == ML_DSA_TX_TYPE_ID {
            Some(DiesisTxType::MlDsa)
        } else {
            None
        }
    }

    /// The Ethereum type of the same name.
    pub open spec fn standard(self) -> Option<TxType> {
        match self {
            DiesisTxType::Legacy => Some(TxType::Legacy),
            DiesisTxType::Eip2930 => Some(TxType::Eip2930),
            DiesisTxType::Eip1559 => Some(TxType::Eip1559),
            DiesisTxType::Eip4844 => Some(TxType::Eip4844),
            DiesisTxType::Eip7702 => Some(TxType::Eip7702),
            DiesisTxType::MlDsa => None,
        }
    }

    /// The identifier that stands for the type in compact form.
    pub open spec fn compact_identifier(self) -> usize {
        match self {
            DiesisTxType::Legacy => 0,
            DiesisTxType::Eip2930 => 1,
            DiesisTxType::Eip1559 => 2,
            _ => 3,
        }
    }

    /// The bytes that the compact form adds to the identifier: the type byte, for the types that
    /// share the last identifier.
    pub open spec fn compact_bytes(self) -> Seq<u8> {
        if self.compact_identifier() == 3 {
            seq![self.byte()]
        } else {
            Seq::empty()
        }
    }

    /// The type whose compact form has the given identifier and starts the bytes `s`, and what
    /// follows it.
    pub open spec fn of_compact(s: Seq<u8>, identifier: usize) -> Option<(DiesisTxType, Seq<u8>)> {
        if identifier == 0 {
            Some((DiesisTxType::Legacy, s))
        } else if identifier == 1 {
            Some((DiesisTxType::Eip2930, s))
        } else if identifier == 2 {
            Some((DiesisTxType::Eip1559, s))
        } else if identifier == 3 && s.len() > 0 {
            match Self::of_byte(s[0]) {
                Some(ty) => Some((ty, s.skip(1))),
                None => None,
            }
        } else {
            None
        }
    }

    /// Returns the corresponding Ethereum type, if this is not a Diesis-only transaction.
    pub fn ethereum(self) -> (ty: Option<TxType>)
        ensures
            ty == self.standard(),
    {
        match self {
            Self::Legacy => Some(TxType::Legacy),
            Self::Eip2930 => Some(TxType::Eip2930),
            Self::Eip1559 => Some(TxType::Eip1559),
            Self::Eip4844 => Some(TxType::Eip4844),
            Self::Eip7702 => Some(TxType::Eip7702),
            Self::MlDsa => None,
        }
    }

    /// Returns true if this is a legacy transaction type.
    pub fn is_legacy(&self) -> (b: bool)
        ensures
            b == (*self is Legacy),
    {
        matches!(self, Self::Legacy)
    }

    /// Returns true if this is an EIP-4844 transaction type.
    pub fn is_eip4844(&self) -> (b: bool)
        ensures
            b == (*self is Eip4844),
    {
        matches!(self, Self::Eip4844)
    }

    /// Returns true if this is a Diesis ML-DSA transaction type.
    pub fn is_ml_dsa(&self) -> (b: bool)
        ensures
            b == (*self is MlDsa),
    {
        matches!(self, Self::MlDsa)
    }

    /// The type byte.
    pub fn ty(&self) -> (ty: u8)
        ensures
            ty == self.byte(),
    {
        match self {
            Self::Legacy => 0,
            Self::Eip2930 => 1,
            Self::Eip1559 => 2,
            Self::Eip4844 => 3,
            Self::Eip7702 => 4,
            Self::MlDsa => ML_DSA_TX_TYPE_ID,
        }
    }

    /// Appends the RLP encoding of the type byte.
    pub fn encode(&self, out: &mut Vec<u8>)
        ensures
            final(out)@ == old(out)@ + self.byte().rlp(),
    {
        encode_u8(self.ty(), out);
    }

    /// The number of bytes of the RLP encoding.
    pub fn length(&self) -> (n: usize)
        ensures
            n == self.byte().rlp().len(),
    {
        u8_length(self.ty())
    }

    /// Takes the RLP encoding of a type byte off the front of the buffer.
    pub fn decode(buf: &mut &[u8]) -> (result: Result<Self, RlpError>)
        ensures
            match split_item::<u8>(old(buf)@) {
                None => result == Err::<Self, RlpError>(u8_decode_error(old(buf)@)),
                Some((byte, rest)) => final(buf)@ == rest && result == match Self::of_byte(byte) {
                    Some(ty) => Ok::<Self, RlpError>(ty),
                    None => Err(RlpError::Custom("unsupported Diesis tx type")),
                },
            },
            is_tail(final(buf)@, old(buf)@),
    {
        let ty: u8 = decode_u8(buf)?;
        match Self::try_from(ty) {
            Ok(ty) => Ok(ty),
            Err(_) => Err(RlpError::Custom("unsupported Diesis tx type")),
        }
    }

    /// The size of a type in memory.
    pub fn size(&self) -> (n: usize)
        ensures
            n == vstd::layout::size_of::<Self>(),
    {
        core::mem::size_of::<Self>()
    }

    /// Appends the compact form and returns the identifier.
    pub fn to_compact(&self, buf: &mut Vec<u8>) -> (identifier: usize)
        ensures
            identifier == self.compact_identifier(),
            final(buf)@ == old(buf)@ + self.compact_bytes(),
    {
        match self {
            Self::Legacy => COMPACT_IDENTIFIER_LEGACY,
            Self::Eip2930 => COMPACT_IDENTIFIER_EIP2930,
            Self::Eip1559 => COMPACT_IDENTIFIER_EIP1559,
            Self::Eip4844 | Self::Eip7702 | Self::MlDsa => {
                buf.push(self.ty());
                COMPACT_EXTENDED_IDENTIFIER_FLAG
            },
        }
    }

    /// Reads the compact form with the given identifier off the front of the buffer.
    pub fn from_compact(buf: &[u8], identifier: usize) -> (result: (Self, &[u8]))
        requires
            Self::of_compact(buf@, identifier) is Some,
        ensures
            Self::of_compact(buf@, identifier) == Some((result.0, result.1@)),
    {
        match identifier {
            COMPACT_IDENTIFIER_LEGACY => (Self::Legacy, buf),
            COMPACT_IDENTIFIER_EIP2930 => (Self::Eip2930, buf),
            COMPACT_IDENTIFIER_EIP1559 => (Self::Eip1559, buf),
            _ => {
                let (first, rest) = buf.split_at(1);
                assert(rest@ =~= buf@.skip(1));
                match Self::try_from(first[0]) {
                    Ok(ty) => (ty, rest),
                    Err(_) => {
                        assert(false);
                        (Self::MlDsa, rest)
                    },
                }
            },
        }
    }
}

impl From<TxType> for DiesisTxType {
    fn from(value: TxType) -> (ty: Self) {
        match value {
            TxType::Legacy => Self::Legacy,
            TxType::Eip2930 => Self::Eip2930,
            TxType::Eip1559 => Self::Eip1559,
            TxType::Eip4844 => Self::Eip4844,
            TxType::Eip7702 => Self::Eip7702,
        }
    }
}

impl vstd::std_specs::convert::FromSpecImpl<TxType> for DiesisTxType {
    open spec fn obeys_from_spec() -> bool {
        true
    }

    open spec fn from_spec(value: TxType) -> Self {
        match value {
            TxType::Legacy => DiesisTxType::Legacy,
            TxType::Eip2930 => DiesisTxType::Eip2930,
            TxType::Eip1559 => DiesisTxType::Eip1559,
            TxType::Eip4844 => DiesisTxType::Eip4844,
            TxType::Eip7702 => DiesisTxType::Eip7702,
        }
    }
}

impl TryFrom<u8> for DiesisTxType {
    type Error = Eip2718Error;

    fn try_from(value: u8) -> (result: Result<Self, Eip2718Error>) {
        match value {
            0 => Ok(Self::Legacy),
            1 => Ok(Self::Eip2930),
            2 => Ok(Self::Eip1559),
            3 => Ok(Self::Eip4844),
            4 => Ok(Self::Eip7702),
            ML_DSA_TX_TYPE_ID => Ok(Self::MlDsa),
            ty => Err(Eip2718Error::UnexpectedType(ty)),
        }
    }
}

impl vstd::std_specs::convert::TryFromSpecImpl<u8> for DiesisTxType {
    open spec fn obeys_try_from_spec() -> bool {
        true
    }

    open spec fn try_from_spec(value: u8) -> Result<Self, Eip2718Error> {
        match Self::of_byte(value) {
            Some(ty) => Ok(ty),
            None => Err(Eip2718Error::UnexpectedType(value)),
        }
    }
}

/// A type is known from its byte, and only the bytes 0 to 4 and `0x70` have a type.
pub proof fn law_type_bytes(ty: DiesisTxType, byte: u8)
    ensures
        DiesisTxType::of_byte(ty.byte()) == Some(ty),
        DiesisTxType::of_byte(byte) is Some <==> byte <= 4 || byte == 0x70,
        DiesisTxType::of_byte(byte) is Some ==> DiesisTxType::of_byte(byte)->Some_0.byte() == byte,
{
}

/// Reading the compact form of a type gives the type back and leaves what follows.
pub proof fn law_type_compact_roundtrip(ty: DiesisTxType, rest: Seq<u8>)
    ensures
        DiesisTxType::of_compact(ty.compact_bytes() + rest, ty.compact_identifier()) == Some(
            (ty, rest),
        ),
{
    assert((ty.compact_bytes() + rest).skip(ty.compact_bytes().len() as int) =~= rest);
    assert(Seq::<u8>::empty() + rest =~= rest);
}

/// Decoding the RLP encoding of a type finds its byte, and so the type.
pub proof fn law_type_rlp_roundtrip(ty: DiesisTxType, rest: Seq<u8>)
    requires
        ty.byte().rlp().len() + rest.len() < LENGTH_LIMIT,
    ensures
        split_item::<u8>(ty.byte().rlp() + rest) == Some((ty.byte(), rest)),
        DiesisTxType::of_byte(ty.byte()) == Some(ty),
{
    lemma_split_item(ty.byte(), rest);
}

/// Every Ethereum type stands for itself among the Diesis types, and only the ML-DSA type is not
/// one of them.
pub proof fn law_ethereum_types(ty: DiesisTxType, standard: TxType)
    ensures
        <DiesisTxType as vstd::std_specs::convert::FromSpec<TxType>>::from_spec(standard).standard()
            == Some(standard),
        ty.standard() is None <==> ty is MlDsa,
{
}

} // verus!
