//! Transaction types, in terms of their bytes.

use vstd::prelude::*;

use crate::rlp::{lemma_split_item, lemma_split_item_parts, RlpError, RlpItem};
use crate::transaction_signed::TransactionSigned;
use crate::tx_type::{DiesisTxType, Eip2718Error, TxType};

verus! {

/// The type bytes are 0 to 4 for Ethereum's types, and `0x70` for ML-DSA.
pub proof fn law_type_byte(ty: DiesisTxType, byte: u8)
    requires
        call_ensures(DiesisTxType::ty, (&ty,), byte),
    ensures
        match ty {
            DiesisTxType::Legacy => byte == 0,
            DiesisTxType::Eip2930 => byte == 1,
            DiesisTxType::Eip1559 => byte == 2,
            DiesisTxType::Eip4844 => byte == 3,
            DiesisTxType::Eip7702 => byte == 4,
            DiesisTxType::MlDsa => byte == 0x70,
        },
{
}

/// A type byte is read as the type that has it, and refused by name where there is none.
pub proof fn law_type_of_byte(byte: u8, result: Result<DiesisTxType, Eip2718Error>)
    requires
        call_ensures(<DiesisTxType as TryFrom<u8>>::try_from, (byte,), result),
    ensures
        byte == 0 ==> result == Ok::<DiesisTxType, Eip2718Error>(DiesisTxType::Legacy),
        byte == 1 ==> result == Ok::<DiesisTxType, Eip2718Error>(DiesisTxType::Eip2930),
        byte == 2 ==> result == Ok::<DiesisTxType, Eip2718Error>(DiesisTxType::Eip1559),
        byte == 3 ==> result == Ok::<DiesisTxType, Eip2718Error>(DiesisTxType::Eip4844),
        byte == 4 ==> result == Ok::<DiesisTxType, Eip2718Error>(DiesisTxType::Eip7702),
        byte == 0x70 ==> result == Ok::<DiesisTxType, Eip2718Error>(DiesisTxType::MlDsa),
        byte > 4 && byte != 0x70 ==> result == Err::<DiesisTxType, Eip2718Error>(
            Eip2718Error::UnexpectedType(byte),
        ),
{
}

/// Ethereum's own types have the bytes 0 to 4.
pub proof fn law_ethereum_type_of_byte(byte: u8, result: Result<TxType, Eip2718Error>)
    requires
        call_ensures(<TxType as TryFrom<u8>>::try_from, (byte,), result),
    ensures
        byte == 0 ==> result == Ok::<TxType, Eip2718Error>(TxType::Legacy),
        byte == 1 ==> result == Ok::<TxType, Eip2718Error>(TxType::Eip2930),
        byte == 2 ==> result == Ok::<TxType, Eip2718Error>(TxType::Eip1559),
        byte == 3 ==> result == Ok::<TxType, Eip2718Error>(TxType::Eip4844),
        byte == 4 ==> result == Ok::<TxType, Eip2718Error>(TxType::Eip7702),
        byte > 4 ==> result == Err::<TxType, Eip2718Error>(Eip2718Error::UnexpectedType(byte)),
{
}

/// The bytes that are types are those that have one.
pub proof fn law_is_type(byte: u8, known: bool)
    requires
        call_ensures(TransactionSigned::is_type, (byte,), known),
    ensures
        known == (byte <= 4 || byte == 0x70),
{
}

/// Each of Ethereum's types stands for itself among all types.
pub proof fn law_type_of_ethereum_type(standard: TxType, ty: DiesisTxType)
    requires
        call_ensures(<DiesisTxType as From<TxType>>::from, (standard,), ty),
    ensures
        match standard {
            TxType::Legacy => ty == DiesisTxType::Legacy,
            TxType::Eip2930 => ty == DiesisTxType::Eip2930,
            TxType::Eip1559 => ty == DiesisTxType::Eip1559,
            TxType::Eip4844 => ty == DiesisTxType::Eip4844,
            TxType::Eip7702 => ty == DiesisTxType::Eip7702,
        },
{
}

/// Each type but ML-DSA is one of Ethereum's.
pub proof fn law_ethereum_type_of_type(ty: DiesisTxType, standard: Option<TxType>)
    requires
        call_ensures(DiesisTxType::ethereum, (ty,), standard),
    ensures
        match ty {
            DiesisTxType::Legacy => standard == Some(TxType::Legacy),
            DiesisTxType::Eip2930 => standard == Some(TxType::Eip2930),
            DiesisTxType::Eip1559 => standard == Some(TxType::Eip1559),
            DiesisTxType::Eip4844 => standard == Some(TxType::Eip4844),
            DiesisTxType::Eip7702 => standard == Some(TxType::Eip7702),
            DiesisTxType::MlDsa => standard is None,
        },
{
}

/// The predicates hold of the one type that they name.
pub proof fn law_type_predicates(ty: DiesisTxType, legacy: bool, eip4844: bool, ml_dsa: bool)
    requires
        call_ensures(DiesisTxType::is_legacy, (&ty,), legacy),
        call_ensures(DiesisTxType::is_eip4844, (&ty,), eip4844),
        call_ensures(DiesisTxType::is_ml_dsa, (&ty,), ml_dsa),
    ensures
        legacy == (ty is Legacy),
        eip4844 == (ty is Eip4844),
        ml_dsa == (ty is MlDsa),
{
}

/// Types start out as legacy.
pub proof fn law_type_default(ty: DiesisTxType, standard: TxType)
    requires
        call_ensures(<DiesisTxType as Default>::default, (), ty),
        call_ensures(<TxType as Default>::default, (), standard),
    ensures
        ty is Legacy,
        standard is Legacy,
{
}

/// In RLP a type is one byte: its type byte, or `0x80` for zero.
pub proof fn law_type_rlp(ty: DiesisTxType, out: &mut Vec<u8>, length: usize)
    requires
        call_ensures(DiesisTxType::encode, (&ty, out), ()),
        call_ensures(DiesisTxType::length, (&ty,), length),
    ensures
        length == 1,
        match ty {
            DiesisTxType::Legacy => final(out)@ == old(out)@.push(0x80),
            DiesisTxType::Eip2930 => final(out)@ == old(out)@.push(1),
            DiesisTxType::Eip1559 => final(out)@ == old(out)@.push(2),
            DiesisTxType::Eip4844 => final(out)@ == old(out)@.push(3),
            DiesisTxType::Eip7702 => final(out)@ == old(out)@.push(4),
            DiesisTxType::MlDsa => final(out)@ == old(out)@.push(0x70),
        },
{
    lemma_small_number(1);
    lemma_small_number(2);
    lemma_small_number(3);
    lemma_small_number(4);
    lemma_small_number(0x70);
    assert(0u8.rlp() =~= seq![0x80u8]);
    assert(final(out)@ =~= old(out)@.push(final(out)@.last()));
}

/// A number from 1 to `0x7f` is its own encoding.
proof fn lemma_small_number(n: u8)
    requires
        0 < n < 0x80,
    ensures
        n.rlp() == seq![n],
{
    reveal_with_fuel(crate::rlp::be_bytes, 3);
    assert(crate::rlp::be_bytes(n as nat) =~= seq![n]);
}

/// One RLP byte is read as the type that it stands for, and taken off; a byte below `0x80` that is
/// no type is refused.
pub proof fn law_type_from_rlp(
    buf: &mut &[u8],
    byte: u8,
    rest: Seq<u8>,
    result: Result<DiesisTxType, RlpError>,
)
    requires
        call_ensures(DiesisTxType::decode, (buf,), result),
        old(buf)@ == seq![byte] + rest,
        rest.len() < 0xffff_ffff_ffff_ffff,
        0 < byte <= 0x80,
    ensures
        final(buf)@ == rest,
        byte == 0x80 ==> result == Ok::<DiesisTxType, RlpError>(DiesisTxType::Legacy),
        byte == 1 ==> result == Ok::<DiesisTxType, RlpError>(DiesisTxType::Eip2930),
        byte == 2 ==> result == Ok::<DiesisTxType, RlpError>(DiesisTxType::Eip1559),
        byte == 3 ==> result == Ok::<DiesisTxType, RlpError>(DiesisTxType::Eip4844),
        byte == 4 ==> result == Ok::<DiesisTxType, RlpError>(DiesisTxType::Eip7702),
        byte == 0x70 ==> result == Ok::<DiesisTxType, RlpError>(DiesisTxType::MlDsa),
        4 < byte < 0x80 && byte != 0x70 ==> result == Err::<DiesisTxType, RlpError>(
            RlpError::Custom("unsupported Diesis tx type"),
        ),
{
    let n: u8 = if byte == 0x80 {
        0
    } else {
        byte
    };
    if byte == 0x80 {
        assert(0u8.rlp() =~= seq![0x80u8]);
    } else {
        lemma_small_number(byte);
    }
    lemma_split_item(n, rest);
}

/// In storage the first three types are an identifier alone; the others share an identifier and are
/// told apart by their byte.
pub proof fn law_type_storage(ty: DiesisTxType, buf: &mut Vec<u8>, identifier: usize)
    requires
        call_ensures(DiesisTxType::to_compact, (&ty, buf), identifier),
    ensures
        match ty {
            DiesisTxType::Legacy => identifier == 0 && final(buf)@ == old(buf)@,
            DiesisTxType::Eip2930 => identifier == 1 && final(buf)@ == old(buf)@,
            DiesisTxType::Eip1559 => identifier == 2 && final(buf)@ == old(buf)@,
            DiesisTxType::Eip4844 => identifier == 3 && final(buf)@ == old(buf)@.push(3),
            DiesisTxType::Eip7702 => identifier == 3 && final(buf)@ == old(buf)@.push(4),
            DiesisTxType::MlDsa => identifier == 3 && final(buf)@ == old(buf)@.push(0x70),
        },
{
    assert(old(buf)@ + Seq::<u8>::empty() =~= old(buf)@);
    assert(old(buf)@ + seq![ty.byte()] =~= old(buf)@.push(ty.byte()));
}

/// An identifier, with the byte that follows where it is shared, is read as the type that it stands
/// for.
pub proof fn law_type_from_storage(
    buf: &[u8],
    identifier: usize,
    result: (DiesisTxType, &[u8]),
)
    requires
        call_ensures(DiesisTxType::from_compact, (buf, identifier), result),
        identifier < 3 || identifier == 3 && buf@.len() > 0 && (buf@[0] <= 4 || buf@[0] == 0x70),
    ensures
        identifier == 0 ==> result.0 is Legacy && result.1@ == buf@,
        identifier == 1 ==> result.0 is Eip2930 && result.1@ == buf@,
        identifier == 2 ==> result.0 is Eip1559 && result.1@ == buf@,
        identifier == 3 ==> result.1@ == buf@.skip(1),
        identifier == 3 && buf@[0] == 0 ==> result.0 is Legacy,
        identifier == 3 && buf@[0] == 1 ==> result.0 is Eip2930,
        identifier == 3 && buf@[0] == 2 ==> result.0 is Eip1559,
        identifier == 3 && buf@[0] == 3 ==> result.0 is Eip4844,
        identifier == 3 && buf@[0] == 4 ==> result.0 is Eip7702,
        identifier == 3 && buf@[0] == 0x70 ==> result.0 is MlDsa,
{
}

/// What is read as a type was its encoding: the bytes that were taken off are those of the type.
pub proof fn law_type_rlp_is_canonical(
    buf: &mut &[u8],
    ty: DiesisTxType,
    out: &mut Vec<u8>,
)
    requires
        call_ensures(DiesisTxType::decode, (buf,), Ok::<DiesisTxType, RlpError>(ty)),
        call_ensures(DiesisTxType::encode, (&ty, out), ()),
        old(out)@.len() == 0,
    ensures
        old(buf)@ == final(out)@ + final(buf)@,
{
    lemma_split_item_parts::<u8>(old(buf)@);
    assert(final(out)@ =~= ty.byte().rlp());
}

} // verus!
