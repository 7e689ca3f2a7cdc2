use std::collections::hash_map::DefaultHasher;
use std::hash::{Hash, Hasher};

use diesis::rlp::RlpError;
use diesis::tx_type::{DiesisTxType, Eip2718Error, TxType};

const ALL: [DiesisTxType; 6] = [
    DiesisTxType::Legacy,
    DiesisTxType::Eip2930,
    DiesisTxType::Eip1559,
    DiesisTxType::Eip4844,
    DiesisTxType::Eip7702,
    DiesisTxType::MlDsa,
];

#[test]
fn bytes_and_types_correspond() {
    let bytes: Vec<u8> = ALL.iter().map(|ty| ty.ty()).collect();
    assert_eq!(bytes, vec![0, 1, 2, 3, 4, 0x70]);
    for ty in ALL {
        assert_eq!(DiesisTxType::try_from(ty.ty()), Ok(ty));
    }
    assert_eq!(DiesisTxType::try_from(5), Err(Eip2718Error::UnexpectedType(5)));
    assert_eq!(DiesisTxType::try_from(0x71), Err(Eip2718Error::UnexpectedType(0x71)));
    assert_eq!(TxType::try_from(4), Ok(TxType::Eip7702));
    assert_eq!(TxType::try_from(0x70), Err(Eip2718Error::UnexpectedType(0x70)));
}

#[test]
fn predicates() {
    assert!(DiesisTxType::default().is_legacy());
    assert_eq!(TxType::default(), TxType::Legacy);
    assert!(DiesisTxType::Eip4844.is_eip4844());
    assert!(DiesisTxType::MlDsa.is_ml_dsa());
    assert!(!DiesisTxType::MlDsa.is_legacy());
    assert!(!DiesisTxType::MlDsa.is_eip4844());
    assert!(!DiesisTxType::Eip7702.is_ml_dsa());
}

#[test]
fn ethereum_types_are_kept() {
    assert_eq!(DiesisTxType::MlDsa.ethereum(), None);
    for standard in
        [TxType::Legacy, TxType::Eip2930, TxType::Eip1559, TxType::Eip4844, TxType::Eip7702]
    {
        assert_eq!(DiesisTxType::from(standard).ethereum(), Some(standard));
    }
}

#[test]
fn rlp_roundtrip() {
    for ty in ALL {
        let mut out = Vec::new();
        ty.encode(&mut out);
        assert_eq!(ty.length(), out.len());
        out.push(3);
        let mut buf = &out[..];
        assert_eq!(DiesisTxType::decode(&mut buf), Ok(ty));
        assert_eq!(buf, &[3]);
    }
    let mut legacy = Vec::new();
    DiesisTxType::Legacy.encode(&mut legacy);
    assert_eq!(legacy, vec![0x80]);
    let mut ml_dsa = Vec::new();
    DiesisTxType::MlDsa.encode(&mut ml_dsa);
    assert_eq!(ml_dsa, vec![0x70]);
}

#[test]
fn rlp_errors() {
    let mut unknown: &[u8] = &[0x05];
    assert_eq!(
        DiesisTxType::decode(&mut unknown),
        Err(RlpError::Custom("unsupported Diesis tx type"))
    );
    let mut zero: &[u8] = &[0x00];
    assert_eq!(DiesisTxType::decode(&mut zero), Err(RlpError::LeadingZero));
    let mut list: &[u8] = &[0xc0];
    assert_eq!(DiesisTxType::decode(&mut list), Err(RlpError::UnexpectedList));
}

#[test]
fn compact_roundtrip() {
    let expected: [(usize, Vec<u8>); 6] = [
        (0, vec![]),
        (1, vec![]),
        (2, vec![]),
        (3, vec![3]),
        (3, vec![4]),
        (3, vec![0x70]),
    ];
    for (ty, (identifier, bytes)) in ALL.iter().zip(expected) {
        let mut buf = Vec::new();
        assert_eq!(ty.to_compact(&mut buf), identifier);
        assert_eq!(buf, bytes);
        buf.push(9);
        let (read, rest) = DiesisTxType::from_compact(&buf, identifier);
        assert_eq!(read, *ty);
        assert_eq!(rest, &[9]);
    }
}

#[test]
fn size_is_one_byte() {
    assert_eq!(DiesisTxType::MlDsa.size(), 1);
}

fn hashed<T: Hash>(value: T) -> u64 {
    let mut state = DefaultHasher::new();
    value.hash(&mut state);
    state.finish()
}

#[test]
fn types_are_hashed_as_their_byte() {
    for ty in ALL {
        assert_eq!(hashed(ty), hashed(ty.ty()));
    }
}
