use arbitrary::Unstructured;
use diesis::generate::{GenerateError, MlDsaDraws};
use diesis::primitives::{AccessList, Address, Signature, TxKind, B256, U256};
use diesis::transaction::Transaction;
use diesis::transaction_signed::TransactionSigned;
use diesis::tx_ecdsa::TxLegacy;
use diesis::tx_ml_dsa::{TxMlDsa, ML_DSA_65_PUBKEY_LEN, ML_DSA_65_SIGNATURE_LEN};
use diesis::tx_type::DiesisTxType;

fn draws(level: u8) -> MlDsaDraws {
    MlDsaDraws {
        ml_dsa_level: level,
        pubkey_fill: Some(3),
        chain_id: 1,
        nonce: 2,
        max_priority_fee_per_gas: 3,
        max_fee_per_gas: 4,
        gas_limit: 5,
        to: TxKind::Create,
        value: U256::from_u128(6),
        input: vec![7],
        access_list: AccessList::default(),
        sender: Address { bytes: [8; 20] },
        signature_fill: 9,
    }
}

fn bytes(seed: u8) -> Vec<u8> {
    let mut state = seed as u32;
    let mut out = Vec::new();
    while out.len() < 4096 {
        state = state.wrapping_mul(1_664_525).wrapping_add(1_013_904_223);
        out.push((state >> 24) as u8);
    }
    out
}

#[test]
fn draws_are_filled_out() {
    let tx = TxMlDsa::from_draws(draws(65));
    assert_eq!(tx.pubkey, vec![3; ML_DSA_65_PUBKEY_LEN]);
    assert_eq!(tx.ml_dsa_signature, vec![9; ML_DSA_65_SIGNATURE_LEN]);
    assert_eq!(tx.ml_dsa_level, 65);
    assert_eq!((tx.chain_id, tx.nonce, tx.gas_limit), (1, 2, 5));
    assert_eq!((tx.max_priority_fee_per_gas, tx.max_fee_per_gas), (3, 4));
    assert_eq!(tx.value, U256::from_u128(6));
    assert_eq!(tx.input, vec![7]);
    assert_eq!(tx.sender, Address { bytes: [8; 20] });

    let mut cached = draws(87);
    cached.pubkey_fill = None;
    assert!(TxMlDsa::from_draws(cached).pubkey.is_empty());
}

#[test]
fn drawn_types_divide_the_numbers() {
    assert_eq!(DiesisTxType::from_draw(0), DiesisTxType::Legacy);
    assert_eq!(DiesisTxType::from_draw(715_827_882), DiesisTxType::Legacy);
    assert_eq!(DiesisTxType::from_draw(715_827_883), DiesisTxType::Eip2930);
    assert_eq!(DiesisTxType::from_draw(1_500_000_000), DiesisTxType::Eip1559);
    assert_eq!(DiesisTxType::from_draw(2_200_000_000), DiesisTxType::Eip4844);
    assert_eq!(DiesisTxType::from_draw(3_000_000_000), DiesisTxType::Eip7702);
    assert_eq!(DiesisTxType::from_draw(u32::MAX), DiesisTxType::MlDsa);
}

#[test]
fn drawn_ml_dsa_transactions_are_accepted_by_the_decoder() {
    for seed in 0..20 {
        let source = bytes(seed);
        let tx = TxMlDsa::arbitrary(&mut Unstructured::new(&source)).unwrap();
        let mut encoded = Vec::new();
        tx.eip2718_encode(&mut encoded);
        let mut buf = &encoded[1..];
        assert_eq!(TxMlDsa::eip2718_decode(&mut buf), Ok(tx));
    }
}

#[test]
fn values_are_drawn_in_the_order_of_the_fields() {
    let source = bytes(4);
    let tx = TxMlDsa::arbitrary(&mut Unstructured::new(&source)).unwrap();
    let mut u = Unstructured::new(&source);
    assert_eq!(tx.ml_dsa_level, *u.choose(&[44u8, 65, 87]).unwrap());
    if u.arbitrary::<bool>().unwrap() {
        assert_eq!(tx.pubkey[0], u.arbitrary::<u8>().unwrap());
    } else {
        assert!(tx.pubkey.is_empty());
    }
    assert_eq!(tx.chain_id, u.arbitrary::<u64>().unwrap());
    assert_eq!(tx.nonce, u.arbitrary::<u64>().unwrap());
    assert_eq!(tx.max_priority_fee_per_gas, u.arbitrary::<u128>().unwrap());
    assert_eq!(tx.max_fee_per_gas, u.arbitrary::<u128>().unwrap());
    assert_eq!(tx.gas_limit, u.arbitrary::<u64>().unwrap());
    match u.arbitrary::<alloy_primitives::TxKind>().unwrap() {
        alloy_primitives::TxKind::Create => assert_eq!(tx.to, TxKind::Create),
        alloy_primitives::TxKind::Call(to) => {
            assert_eq!(tx.to, TxKind::Call(Address { bytes: to.into() }))
        }
    }
    let limbs = u.arbitrary::<alloy_primitives::U256>().unwrap().into_limbs();
    assert_eq!([tx.value.w0, tx.value.w1, tx.value.w2, tx.value.w3], limbs);
    assert_eq!(tx.input, u.arbitrary::<alloy_primitives::Bytes>().unwrap().to_vec());
    let list = u.arbitrary::<alloy_eips::eip2930::AccessList>().unwrap();
    assert_eq!(tx.access_list.items.len(), list.len());
    assert_eq!(tx.sender.bytes, u.arbitrary::<alloy_primitives::Address>().unwrap().into_array());
    assert_eq!(tx.ml_dsa_signature[0], u.arbitrary::<u8>().unwrap());
}

#[test]
fn transactions_of_every_type_are_drawn() {
    let mut seen = Vec::new();
    for seed in 0..60 {
        let source = bytes(seed);
        let tx = Transaction::arbitrary(&mut Unstructured::new(&source)).unwrap();
        seen.push(tx.ty());
    }
    seen.sort();
    seen.dedup();
    assert_eq!(seen, vec![0, 1, 2, 3, 4, 0x70]);
}

#[test]
fn signed_draws_recover_to_the_key() {
    for seed in 0..30 {
        let source = bytes(seed);
        let secret = B256 { bytes: [0x11; 32] };
        let signed = TransactionSigned::arbitrary(&mut Unstructured::new(&source), secret).unwrap();
        if signed.ty() == 0x70 {
            assert!(signed.recover_signer().is_err());
            assert_eq!(
                *signed.signature(),
                Signature { r: U256::zero(), s: U256::zero(), y_parity: false }
            );
        } else {
            // The account of the key 0x11..11.
            assert_eq!(
                alloy_primitives::hex::encode(signed.recover_signer().unwrap().bytes),
                "19e7e376e7c213b7e7e7e46cc70a5dd086daff2a"
            );
        }
        let mut network = Vec::new();
        signed.encode(&mut network);
        assert_eq!(TransactionSigned::decode(&mut &network[..]), Ok(signed));
    }
}

#[test]
fn zero_is_no_key() {
    let tx = Transaction::Legacy(TxLegacy {
        chain_id: None,
        nonce: 0,
        gas_price: 0,
        gas_limit: 0,
        to: TxKind::Create,
        value: U256::zero(),
        input: vec![],
    });
    let zero = B256 { bytes: [0; 32] };
    assert_eq!(TransactionSigned::sign_with(tx, zero), Err(GenerateError::Key));
    let tx = Transaction::MlDsa(TxMlDsa::from_draws(draws(44)));
    assert!(TransactionSigned::sign_with(tx, zero).is_ok());
}

#[test]
fn nothing_is_drawn_out_to_zeros() {
    let mut u = Unstructured::new(&[]);
    let tx = TxMlDsa::arbitrary(&mut u).unwrap();
    assert_eq!(tx.ml_dsa_level, 44);
    assert!(tx.pubkey.is_empty());
    assert_eq!((tx.chain_id, tx.nonce, tx.gas_limit), (0, 0, 0));
    assert_eq!(tx.to, TxKind::Create);
    assert_eq!(tx.value, U256::zero());
    assert!(tx.input.is_empty());
    assert_eq!(tx.access_list, AccessList::default());
    assert_eq!(tx.sender, Address { bytes: [0; 20] });
    assert_eq!(tx.ml_dsa_signature, vec![0; 2420]);

    // No bytes are too few for any type.
    for n in [0u32, 800_000_000, 1_500_000_000, 2_200_000_000, 3_000_000_000, u32::MAX] {
        let bytes = n.to_le_bytes();
        let tx = Transaction::arbitrary(&mut Unstructured::new(&bytes)).unwrap();
        assert_eq!(tx.tx_type(), DiesisTxType::from_draw(n));
        assert!(tx.input().is_empty());
    }
}

#[test]
fn bytes_are_drawn_out_field_by_field() {
    let mut source = vec![
        // Level 65, with a public key of 0xaa.
        4, 1, 0xaa,
    ];
    source.extend_from_slice(&5u64.to_le_bytes());
    source.extend_from_slice(&6u64.to_le_bytes());
    source.extend_from_slice(&7u128.to_le_bytes());
    source.extend_from_slice(&8u128.to_le_bytes());
    source.extend_from_slice(&9u64.to_le_bytes());
    source.extend_from_slice(&0x8000_0000u32.to_le_bytes());
    source.extend_from_slice(&[0x11; 20]);
    source.extend_from_slice(&1u64.to_le_bytes());
    source.extend_from_slice(&2u64.to_le_bytes());
    source.extend_from_slice(&3u64.to_le_bytes());
    // The most significant word is read the other way round.
    source.extend_from_slice(&4u64.to_be_bytes());
    // Input of two bytes.
    source.extend_from_slice(&[1, 0xca, 3, 0xfe, 0]);
    // No access list.
    source.push(0);
    source.extend_from_slice(&[0x22; 20]);
    source.extend_from_slice(&[0xbb, 0x77]);

    let mut u = Unstructured::new(&source);
    let tx = TxMlDsa::arbitrary(&mut u).unwrap();
    assert_eq!(tx.ml_dsa_level, 65);
    assert_eq!(tx.pubkey, vec![0xaa; ML_DSA_65_PUBKEY_LEN]);
    assert_eq!((tx.chain_id, tx.nonce, tx.gas_limit), (5, 6, 9));
    assert_eq!((tx.max_priority_fee_per_gas, tx.max_fee_per_gas), (7, 8));
    assert_eq!(tx.to, TxKind::Call(Address { bytes: [0x11; 20] }));
    assert_eq!(tx.value, U256 { w0: 1, w1: 2, w2: 3, w3: 4 });
    assert_eq!(tx.input, vec![0xca, 0xfe]);
    assert_eq!(tx.access_list, AccessList::default());
    assert_eq!(tx.sender, Address { bytes: [0x22; 20] });
    assert_eq!(tx.ml_dsa_signature, vec![0xbb; ML_DSA_65_SIGNATURE_LEN]);
    assert_eq!(u.len(), 1);

    // The most significant word leaves missing bytes out, the others take them for zeros.
    let short = &source[..source.len() - 28 - 4];
    let mut u = Unstructured::new(short);
    let tx = TxMlDsa::arbitrary(&mut u).unwrap();
    assert_eq!(tx.value, U256 { w0: 1, w1: 2, w2: 3, w3: 0 });
    assert_eq!(u.len(), 0);
    let mut partial = source[..source.len() - 28 - 8].to_vec();
    partial.push(0x12);
    let tx = TxMlDsa::arbitrary(&mut Unstructured::new(&partial)).unwrap();
    assert_eq!(tx.value, U256 { w0: 1, w1: 2, w2: 3, w3: 0x12 });
    let cut = &source[..4];
    let tx = TxMlDsa::arbitrary(&mut Unstructured::new(cut)).unwrap();
    assert_eq!(tx.chain_id, 5);
}

#[test]
fn transactions_are_drawn_after_their_type() {
    for seed in 0..60 {
        let source = bytes(seed);
        let mut u = Unstructured::new(&source);
        let tx = Transaction::arbitrary(&mut u).unwrap();
        let mut reference = Unstructured::new(&source);
        let ty = DiesisTxType::from_draw(reference.arbitrary::<u32>().unwrap());
        assert_eq!(tx.tx_type(), ty);
        let (nonce, input) = match ty {
            DiesisTxType::Legacy => {
                let tx = reference.arbitrary::<alloy_consensus::TxLegacy>().unwrap();
                (tx.nonce, tx.input.to_vec())
            }
            DiesisTxType::Eip2930 => {
                let tx = reference.arbitrary::<alloy_consensus::TxEip2930>().unwrap();
                (tx.nonce, tx.input.to_vec())
            }
            DiesisTxType::Eip1559 => {
                let tx = reference.arbitrary::<alloy_consensus::TxEip1559>().unwrap();
                (tx.nonce, tx.input.to_vec())
            }
            DiesisTxType::Eip4844 => {
                let tx = reference.arbitrary::<alloy_consensus::TxEip4844>().unwrap();
                (tx.nonce, tx.input.to_vec())
            }
            DiesisTxType::Eip7702 => {
                let tx = reference.arbitrary::<alloy_consensus::TxEip7702>().unwrap();
                (tx.nonce, tx.input.to_vec())
            }
            DiesisTxType::MlDsa => {
                let tx = TxMlDsa::arbitrary(&mut reference).unwrap();
                (tx.nonce, tx.input)
            }
        };
        assert_eq!(tx.nonce(), nonce);
        assert_eq!(*tx.input(), input);
        assert_eq!(u.len(), reference.len());

        // Signing draws nothing more.
        let secret = B256 { bytes: [0x11; 32] };
        let mut again = Unstructured::new(&source);
        let signed = TransactionSigned::arbitrary(&mut again, secret).unwrap();
        assert_eq!(*signed.transaction(), tx);
        assert_eq!(again.len(), reference.len());
    }
}
