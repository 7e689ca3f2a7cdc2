use alloy_consensus::transaction::SignerRecoverable;
use diesis::envelope::EthereumTxEnvelope;
use diesis::primitives::{
    AccessList, AccessListItem, Address, Bytes, Signature, SignedAuthorization, TxKind, B256, U256,
};
use diesis::transaction::Transaction;
use diesis::transaction_signed::TransactionSigned;
use diesis::tx_ecdsa::{TxEip1559, TxEip2930, TxEip4844, TxEip7702, TxLegacy};
use diesis::tx_ml_dsa::{TxMlDsa, ML_DSA_87_PUBKEY_LEN, ML_DSA_87_SIGNATURE_LEN};
use reth_codecs::Compact;

type AlloyEnvelope = alloy_consensus::EthereumTxEnvelope<alloy_consensus::TxEip4844>;

fn signature() -> Signature {
    Signature {
        r: U256 { w0: 1, w1: 2, w2: 3, w3: 4 },
        s: U256 { w0: 5, w1: 6, w2: 7, w3: 8 },
        y_parity: true,
    }
}

fn access_list() -> AccessList {
    AccessList {
        items: vec![AccessListItem {
            address: Address { bytes: [8; 20] },
            storage_keys: vec![B256 { bytes: [1; 32] }, B256 { bytes: [2; 32] }],
        }],
    }
}

fn ecdsa(input: Bytes) -> Vec<Transaction> {
    vec![
        Transaction::Legacy(TxLegacy {
            chain_id: Some(0),
            nonce: 9,
            gas_price: 20,
            gas_limit: 21_000,
            to: TxKind::Create,
            value: U256::from_u128(1),
            input: input.clone(),
        }),
        Transaction::Eip2930(TxEip2930 {
            chain_id: 5,
            nonce: 1,
            gas_price: 3,
            gas_limit: 100_000,
            to: TxKind::Call(Address { bytes: [1; 20] }),
            value: U256 { w0: 1, w1: 2, w2: 3, w3: 4 },
            access_list: access_list(),
            input: input.clone(),
        }),
        Transaction::Eip1559(TxEip1559 {
            chain_id: 1,
            nonce: 0x42,
            gas_limit: 44_386,
            max_fee_per_gas: u128::MAX,
            max_priority_fee_per_gas: 0,
            to: TxKind::Call(Address { bytes: [0x60; 20] }),
            value: U256::zero(),
            access_list: AccessList::default(),
            input: input.clone(),
        }),
        Transaction::Eip4844(TxEip4844 {
            chain_id: u64::MAX,
            nonce: 3,
            gas_limit: 50_000,
            max_fee_per_gas: 1000,
            max_priority_fee_per_gas: 10,
            to: Address { bytes: [0x11; 20] },
            value: U256::from_u128(7),
            access_list: access_list(),
            blob_versioned_hashes: vec![B256 { bytes: [1; 32] }, B256 { bytes: [9; 32] }],
            max_fee_per_blob_gas: 99,
            input: input.clone(),
        }),
        Transaction::Eip7702(TxEip7702 {
            chain_id: 1,
            nonce: 4,
            gas_limit: 60_000,
            max_fee_per_gas: 2000,
            max_priority_fee_per_gas: 20,
            to: Address { bytes: [0x22; 20] },
            value: U256::zero(),
            access_list: AccessList::default(),
            authorization_list: vec![SignedAuthorization {
                chain_id: U256::from_u128(1),
                address: Address { bytes: [0x33; 20] },
                nonce: 6,
                y_parity: 1,
                r: U256 { w0: 0, w1: 0, w2: 0, w3: u64::MAX },
                s: U256::from_u128(0x7f),
            }],
            input,
        }),
    ]
}

fn ml_dsa(input: Bytes) -> Transaction {
    Transaction::MlDsa(TxMlDsa {
        chain_id: 1,
        nonce: 0,
        max_priority_fee_per_gas: 1,
        max_fee_per_gas: 2,
        gas_limit: 21_000,
        to: TxKind::Create,
        value: U256::zero(),
        input,
        access_list: access_list(),
        sender: Address { bytes: [4; 20] },
        ml_dsa_level: 87,
        pubkey: vec![1; ML_DSA_87_PUBKEY_LEN],
        ml_dsa_signature: vec![2; ML_DSA_87_SIGNATURE_LEN],
    })
}

fn alloy_envelope(signed: &TransactionSigned) -> AlloyEnvelope {
    let encoded = signed.encoded_2718();
    alloy_eips::eip2718::Decodable2718::decode_2718(&mut &encoded[..]).unwrap()
}

#[test]
fn stored_form_is_that_of_the_ethereum_envelope() {
    for input in [vec![], vec![7; 31], vec![0; 33], vec![9; 400]] {
        for tx in ecdsa(input) {
            let signed = TransactionSigned::new_unhashed(tx, signature());
            let mut own = Vec::new();
            let own_len = signed.to_compact(&mut own);
            let mut expected = Vec::new();
            let expected_len = alloy_envelope(&signed).to_compact(&mut expected);
            assert_eq!(own, expected);
            assert_eq!(own_len, expected_len);
        }
    }
}

#[test]
fn envelopes_are_stored_alike() {
    for input in [vec![], vec![7; 31], vec![0; 33], vec![9; 400]] {
        for tx in ecdsa(input) {
            let signed = TransactionSigned::new_unhashed(tx, signature());
            let mut own = vec![5];
            let own_len = signed.to_compact(&mut own);
            let envelope = EthereumTxEnvelope::<TxEip4844>::try_from(signed).unwrap();
            let mut enveloped = vec![5];
            assert_eq!(envelope.to_compact(&mut enveloped), own_len);
            assert_eq!(enveloped, own);
        }
    }
}

#[test]
fn stored_form_is_read_by_the_ethereum_envelope() {
    for input in [vec![], vec![0; 33]] {
        for tx in ecdsa(input) {
            let signed = TransactionSigned::new_unhashed(tx, signature());
            let mut own = Vec::new();
            let len = signed.to_compact(&mut own);
            let (read, _) = AlloyEnvelope::from_compact(&own, len);
            assert_eq!(read, alloy_envelope(&signed));
            assert_eq!(read.recover_signer().is_ok(), signed.recover_signer().is_ok());
        }
    }
}

#[test]
fn storing_and_reading_gives_the_transaction_back() {
    for input in [vec![], vec![7; 31], vec![7; 32], vec![9; 4000]] {
        let mut all = ecdsa(input.clone());
        all.push(ml_dsa(input));
        for tx in all {
            let signed = TransactionSigned::new_unhashed(tx, signature());
            assert_eq!(signed.through_storage(), signed);

            let mut buf = vec![0xff; 3];
            let len = signed.to_compact(&mut buf);
            assert_eq!(buf.len(), len + 3);
            assert_eq!(&buf[..3], &[0xff; 3]);
            let (read, _) = TransactionSigned::from_compact(&buf[3..], len);
            assert_eq!(read, signed);
        }
    }
}

#[test]
fn flags_show_parity_type_and_compression() {
    let mut buf = Vec::new();
    TransactionSigned::new_unhashed(ecdsa(vec![]).remove(2), signature()).to_compact(&mut buf);
    assert_eq!(buf[0], 0b0101);
    assert_eq!(&buf[1..9], &1u64.to_le_bytes());
    assert_eq!(&buf[33..41], &5u64.to_le_bytes());

    let mut buf = Vec::new();
    TransactionSigned::new_unhashed(ecdsa(vec![1; 32]).remove(3), signature())
        .to_compact(&mut buf);
    assert_eq!(buf[0], 0b1111);

    let mut buf = Vec::new();
    TransactionSigned::new_unhashed(ml_dsa(vec![]), signature()).to_compact(&mut buf);
    assert_eq!(buf[0], 0b0110);
    assert_eq!(buf[1..65], [0u8; 64]);
    assert_eq!(buf[65], 0x70);
}

#[test]
fn uncompressed_ml_dsa_leaves_what_follows() {
    let signed = TransactionSigned::new_unhashed(ml_dsa(vec![]), signature());
    let mut buf = Vec::new();
    let len = signed.to_compact(&mut buf);
    buf.extend_from_slice(&[1, 2, 3]);
    let (read, rest) = TransactionSigned::from_compact(&buf, len);
    assert_eq!(read, signed);
    assert_eq!(rest, &[1, 2, 3]);
}

#[test]
fn a_compressed_frame_is_left_in_the_buffer() {
    let signed = TransactionSigned::new_unhashed(ecdsa(vec![3; 64]).remove(0), signature());
    let mut buf = Vec::new();
    let len = signed.to_compact(&mut buf);
    let (read, rest) = TransactionSigned::from_compact(&buf, len);
    assert_eq!(read, signed);
    assert_eq!(rest, &buf[65..]);
}

#[test]
fn stored_outer_signatures_of_ml_dsa_are_ignored() {
    let signed = TransactionSigned::new_unhashed(ml_dsa(vec![]), signature());
    let mut buf = Vec::new();
    let len = signed.to_compact(&mut buf);
    buf[0] |= 1;
    for byte in &mut buf[1..65] {
        *byte = 0xee;
    }
    let (read, rest) = TransactionSigned::from_compact(&buf, len);
    assert_eq!(read, signed);
    assert_eq!(read.signature(), signed.signature());
    assert!(rest.is_empty());
}

#[test]
fn spare_flags_of_compressed_forms_are_ignored() {
    let signed = TransactionSigned::new_unhashed(ecdsa(vec![3; 64]).remove(4), signature());
    let mut buf = Vec::new();
    let len = signed.to_compact(&mut buf);
    buf[0] |= 0b1001_0000;
    let (read, _) = TransactionSigned::from_compact(&buf, len);
    assert_eq!(read, signed);
}

#[test]
fn raw_transactions_roundtrip() {
    let mut all = ecdsa(vec![5; 3]);
    all.push(ml_dsa(vec![5; 3]));
    for tx in all {
        let mut buf = Vec::new();
        let identifier = tx.to_compact(&mut buf);
        let (read, rest) = Transaction::from_compact(&buf, identifier);
        assert_eq!(read, tx);
        assert!(rest.is_empty());
    }
}

fn drawn(seed: u8) -> TransactionSigned {
    let mut state = seed as u32;
    let mut source = Vec::new();
    while source.len() < 4096 {
        state = state.wrapping_mul(1_664_525).wrapping_add(1_013_904_223);
        source.push((state >> 24) as u8);
    }
    let secret = B256 { bytes: [0x22; 32] };
    TransactionSigned::arbitrary(&mut arbitrary::Unstructured::new(&source), secret).unwrap()
}

fn drawn_ecdsa() -> Vec<TransactionSigned> {
    (0..=255).map(drawn).filter(|signed| signed.ty() != 0x70).collect()
}

fn with_large_input(signed: TransactionSigned) -> TransactionSigned {
    let (mut transaction, signature, _) = signed.into_parts();
    *transaction.input_mut() = vec![0; 33];
    TransactionSigned::new_unhashed(transaction, signature)
}

fn assert_same_bytes(signed: TransactionSigned) {
    let mut expected_buf = Vec::<u8>::new();
    let expected_len = signed.to_compact(&mut expected_buf);

    let mut actual_buf = Vec::<u8>::new();
    let actual_len = alloy_envelope(&signed).to_compact(&mut actual_buf);

    assert_eq!(actual_buf, expected_buf);
    assert_eq!(actual_len, expected_len);
}

fn assert_read_alike(signed: TransactionSigned) {
    let mut buf = Vec::<u8>::new();
    let len = signed.to_compact(&mut buf);

    let (actual_tx, _) = AlloyEnvelope::from_compact(&buf, len);

    assert_eq!(actual_tx, alloy_envelope(&signed));
}

#[test]
fn test_roundtrip_compact_encode_envelope() {
    for signed in drawn_ecdsa() {
        assert_same_bytes(signed);
    }
}

#[test]
fn test_roundtrip_compact_decode_envelope() {
    for signed in drawn_ecdsa() {
        assert_read_alike(signed);
    }
}

#[test]
fn test_roundtrip_compact_encode_envelope_zstd() {
    for signed in drawn_ecdsa() {
        assert_same_bytes(with_large_input(signed));
    }
}

#[test]
fn test_roundtrip_compact_decode_envelope_zstd() {
    for signed in drawn_ecdsa() {
        assert_read_alike(with_large_input(signed));
    }
}

#[test]
fn drawn_transactions_survive_storage() {
    for seed in 0..=255 {
        let signed = drawn(seed);
        assert_eq!(signed.through_storage(), signed);
    }
}
