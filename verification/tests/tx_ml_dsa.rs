use diesis::primitives::{AccessList, AccessListItem, Address, Signature, TxKind, B256, U256};
use diesis::rlp::RlpError;
use diesis::tx_ml_dsa::{
    expected_pubkey_len, expected_signature_len, TxMlDsa, ML_DSA_44_PUBKEY_LEN,
    ML_DSA_44_SIGNATURE_LEN, ML_DSA_65_PUBKEY_LEN, ML_DSA_65_SIGNATURE_LEN, ML_DSA_87_PUBKEY_LEN,
    ML_DSA_87_SIGNATURE_LEN,
};
use diesis::tx_type::ML_DSA_TX_TYPE_ID;

fn address_with_last_byte(byte: u8) -> Address {
    let mut bytes = [0u8; 20];
    bytes[19] = byte;
    Address { bytes }
}

fn sample_tx() -> TxMlDsa {
    TxMlDsa {
        chain_id: 1,
        nonce: 42,
        max_priority_fee_per_gas: 1_000_000_000,
        max_fee_per_gas: 20_000_000_000,
        gas_limit: 21_000,
        to: TxKind::Call(address_with_last_byte(0x42)),
        value: U256::from_u128(1_000_000_000_000_000_000u128),
        input: vec![0xca, 0xfe],
        access_list: AccessList::default(),
        sender: address_with_last_byte(0x01),
        ml_dsa_level: 65,
        pubkey: vec![0xaa; ML_DSA_65_PUBKEY_LEN],
        ml_dsa_signature: vec![0xbb; ML_DSA_65_SIGNATURE_LEN],
    }
}

fn decode_encoded_body(tx: &TxMlDsa) -> Result<TxMlDsa, RlpError> {
    let mut buf = Vec::new();
    tx.eip2718_encode(&mut buf);
    let mut body = &buf[1..];
    TxMlDsa::eip2718_decode(&mut body)
}

#[test]
fn tx_type_is_0x70() {
    assert_eq!(ML_DSA_TX_TYPE_ID, 0x70);
    let tx = sample_tx();
    assert_eq!(tx.ty(), 0x70);
}

#[test]
fn signature_hash_deterministic() {
    let tx = sample_tx();
    let h1 = tx.signature_hash();
    let h2 = tx.signature_hash();
    assert_eq!(h1, h2, "Signature hash must be deterministic");
    assert_ne!(h1, B256 { bytes: [0; 32] }, "Signature hash must not be zero");
}

#[test]
fn signature_hash_changes_with_nonce() {
    let mut tx1 = sample_tx();
    tx1.nonce = 1;
    let mut tx2 = sample_tx();
    tx2.nonce = 2;
    assert_ne!(
        tx1.signature_hash(),
        tx2.signature_hash(),
        "Different nonces must produce different signature hashes"
    );
}

#[test]
fn eip2718_roundtrip() {
    let tx = sample_tx();

    let mut buf = Vec::new();
    tx.eip2718_encode(&mut buf);

    let mut slice = &buf[..];
    assert_eq!(slice[0], ML_DSA_TX_TYPE_ID);
    slice = &slice[1..];

    let decoded = TxMlDsa::eip2718_decode(&mut slice).expect("decode should succeed");
    assert!(slice.is_empty(), "all bytes should be consumed");
    assert_eq!(decoded, tx, "roundtrip should produce identical transaction");
}

#[test]
fn eip2718_rejects_unsupported_ml_dsa_level_before_signature_decode() {
    let mut tx = sample_tx();
    tx.ml_dsa_level = 99;
    tx.pubkey = Vec::new();

    let err = decode_encoded_body(&tx).expect_err("unsupported level must be rejected");
    assert!(matches!(err, RlpError::Custom("unsupported ML-DSA security level")));
}

#[test]
fn eip2718_rejects_invalid_ml_dsa_pubkey_length() {
    let mut tx = sample_tx();
    tx.pubkey = vec![0xaa; ML_DSA_65_PUBKEY_LEN - 1];

    let err = decode_encoded_body(&tx).expect_err("bad pubkey length must be rejected");
    assert!(matches!(err, RlpError::Custom("invalid ML-DSA public key length")));
}

#[test]
fn eip2718_rejects_invalid_ml_dsa_signature_length() {
    let mut tx = sample_tx();
    tx.ml_dsa_signature = vec![0xbb; ML_DSA_65_SIGNATURE_LEN - 1];

    let err = decode_encoded_body(&tx).expect_err("bad signature length must be rejected");
    assert!(matches!(err, RlpError::Custom("invalid ML-DSA signature length")));
}

#[test]
fn eip2718_accepts_cached_key_transaction_with_empty_pubkey() {
    let mut tx = sample_tx();
    tx.pubkey = Vec::new();

    let decoded = decode_encoded_body(&tx).expect("empty pubkey is valid for cached-key txs");
    assert_eq!(decoded.pubkey.len(), 0);
    assert_eq!(decoded.ml_dsa_signature.len(), ML_DSA_65_SIGNATURE_LEN);
}

#[test]
fn tx_hash_matches_keccak_of_encoded() {
    let tx = sample_tx();

    let hash = tx.tx_hash();

    let mut buf = Vec::new();
    tx.eip2718_encode(&mut buf);
    let expected = alloy_primitives::keccak256(&buf);

    assert_eq!(hash.bytes, expected.0, "tx_hash must equal keccak256(eip2718_encoded)");
}

#[test]
fn chain_id_required() {
    let tx = sample_tx();
    assert_eq!(tx.chain_id(), Some(1), "chain_id() must return Some");
}

#[test]
fn is_dynamic_fee() {
    let tx = sample_tx();
    assert!(tx.is_dynamic_fee(), "ML-DSA transactions follow EIP-1559 and must be dynamic-fee");
}

#[test]
fn key_material_lengths_per_level() {
    assert_eq!(expected_pubkey_len(44), Some(ML_DSA_44_PUBKEY_LEN));
    assert_eq!(expected_pubkey_len(65), Some(1952));
    assert_eq!(expected_pubkey_len(87), Some(ML_DSA_87_PUBKEY_LEN));
    assert_eq!(expected_pubkey_len(0), None);
    assert_eq!(expected_signature_len(44), Some(ML_DSA_44_SIGNATURE_LEN));
    assert_eq!(expected_signature_len(65), Some(3309));
    assert_eq!(expected_signature_len(87), Some(ML_DSA_87_SIGNATURE_LEN));
    assert_eq!(expected_signature_len(45), None);
}

#[test]
fn encoded_length_matches_encoding() {
    let mut tx = sample_tx();
    tx.access_list = AccessList {
        items: vec![AccessListItem {
            address: address_with_last_byte(7),
            storage_keys: vec![B256 { bytes: [9; 32] }, B256 { bytes: [0; 32] }],
        }],
    };
    let mut buf = Vec::new();
    tx.eip2718_encode(&mut buf);
    assert_eq!(tx.eip2718_encoded_length(), buf.len());

    let mut fields = Vec::new();
    tx.rlp_encode_fields(&mut fields);
    assert_eq!(tx.rlp_encoded_fields_length(), fields.len());

    let mut signing = Vec::new();
    tx.rlp_encode_signing_fields(&mut signing);
    assert_eq!(tx.rlp_signing_fields_length(), signing.len());

    let mut payload = Vec::new();
    tx.encode_for_signing(&mut payload);
    assert_eq!(tx.payload_len_for_signature(), payload.len());
    assert_eq!(payload[0], 0x70);
    assert_eq!(tx.signature_hash().bytes, alloy_primitives::keccak256(&payload).0);
    assert_eq!(decode_encoded_body(&tx), Ok(tx));
}

#[test]
fn signing_fields_have_the_documented_encoding() {
    let mut tx = sample_tx();
    tx.pubkey = Vec::new();
    let mut out = Vec::new();
    tx.rlp_encode_signing_fields(&mut out);
    let mut expected = vec![
        0x01, // chain_id
        0x2a, // nonce
        0x84, 0x3b, 0x9a, 0xca, 0x00, // max_priority_fee_per_gas
        0x85, 0x04, 0xa8, 0x17, 0xc8, 0x00, // max_fee_per_gas
        0x82, 0x52, 0x08, // gas_limit
        0x94, // to
    ];
    expected.extend_from_slice(&[0u8; 19]);
    expected.push(0x42);
    expected.extend_from_slice(&[0x88, 0x0d, 0xe0, 0xb6, 0xb3, 0xa7, 0x64, 0x00, 0x00]);
    expected.extend_from_slice(&[0x82, 0xca, 0xfe]);
    expected.push(0xc0);
    expected.push(0x94);
    expected.extend_from_slice(&[0u8; 19]);
    expected.push(0x01);
    expected.push(0x41);
    assert_eq!(out, expected);
}

#[test]
fn signature_and_public_key_do_not_enter_the_signing_hash() {
    let tx = sample_tx();
    let mut other = sample_tx();
    other.pubkey = Vec::new();
    other.ml_dsa_signature = vec![0xcc; ML_DSA_65_SIGNATURE_LEN];
    assert_eq!(tx.signature_hash(), other.signature_hash());
    assert_ne!(tx.tx_hash(), other.tx_hash());
}

#[test]
fn decoding_leaves_what_follows_and_refuses_what_is_no_list() {
    let tx = sample_tx();
    let mut buf = Vec::new();
    tx.eip2718_encode(&mut buf);
    buf.extend_from_slice(&[1, 2, 3]);
    let mut body = &buf[1..];
    assert_eq!(TxMlDsa::eip2718_decode(&mut body), Ok(tx));
    assert_eq!(body, &[1u8, 2, 3]);

    let mut string: &[u8] = &[0x82, 0x01, 0x02];
    assert_eq!(TxMlDsa::eip2718_decode(&mut string), Err(RlpError::UnexpectedString));
    let mut empty: &[u8] = &[];
    assert_eq!(TxMlDsa::eip2718_decode(&mut empty), Err(RlpError::InputTooShort));
}

#[test]
fn decoding_refuses_a_list_longer_than_its_fields() {
    let mut tx = sample_tx();
    tx.pubkey = Vec::new();
    let mut fields = Vec::new();
    tx.rlp_encode_fields(&mut fields);
    // One byte more in the list than the fields take.
    fields.push(0x01);
    let mut body = vec![0xf9, (fields.len() >> 8) as u8, fields.len() as u8];
    body.extend_from_slice(&fields);
    let mut slice = &body[..];
    assert_eq!(TxMlDsa::eip2718_decode(&mut slice), Err(RlpError::UnexpectedLength));
}

#[test]
fn compact_roundtrip_leaves_what_follows() {
    let tx = sample_tx();
    let mut buf = Vec::new();
    let n = tx.to_compact(&mut buf);
    assert_eq!(n, buf.len());
    buf.push(0x99);
    let (decoded, rest) = TxMlDsa::from_compact(&buf, n);
    assert_eq!(decoded, tx);
    assert_eq!(rest, &[0x99u8]);
}

#[test]
fn effective_gas_price_is_capped() {
    let tx = sample_tx();
    assert_eq!(tx.effective_gas_price(None), 20_000_000_000);
    assert_eq!(tx.effective_gas_price(Some(5_000_000_000)), 6_000_000_000);
    assert_eq!(tx.effective_gas_price(Some(19_500_000_000)), 20_000_000_000);
    assert_eq!(tx.effective_gas_price(Some(30_000_000_000)), 20_000_000_000);
}

#[test]
fn accessors_read_the_fields() {
    let mut tx = sample_tx();
    assert_eq!(tx.nonce(), 42);
    assert_eq!(tx.gas_limit(), 21_000);
    assert_eq!(tx.gas_price(), None);
    assert_eq!(tx.max_fee_per_gas(), 20_000_000_000);
    assert_eq!(tx.max_priority_fee_per_gas(), Some(1_000_000_000));
    assert_eq!(tx.max_fee_per_blob_gas(), None);
    assert_eq!(tx.priority_fee_or_price(), 1_000_000_000);
    assert_eq!(tx.kind(), TxKind::Call(address_with_last_byte(0x42)));
    assert!(!tx.is_create());
    assert_eq!(tx.value(), U256 { w0: 1_000_000_000_000_000_000, w1: 0, w2: 0, w3: 0 });
    assert_eq!(tx.input(), &vec![0xca, 0xfe]);
    assert_eq!(tx.access_list(), Some(&AccessList::default()));
    assert_eq!(tx.blob_versioned_hashes(), None);
    assert_eq!(tx.authorization_list(), None);
    tx.set_chain_id(7);
    assert_eq!(tx.chain_id(), Some(7));
    tx.to = TxKind::Create;
    assert!(tx.is_create());
}

#[test]
fn outer_signature_is_kept_but_not_hashed() {
    let signature = Signature {
        r: U256::from_u128(5),
        s: U256::from_u128(6),
        y_parity: true,
    };
    let tx = sample_tx();
    let hash = tx.tx_hash();
    let signed = tx.into_signed(signature);
    assert_eq!(signed.signature, signature);
    assert_eq!(signed.hash, hash);
}

#[test]
fn key_material_shape_is_validated() {
    let tx = sample_tx();
    assert_eq!(tx.validate_key_material_shape(), Ok(()));
    let mut bad = sample_tx();
    bad.ml_dsa_level = 43;
    assert_eq!(
        bad.validate_key_material_shape(),
        Err(RlpError::Custom("unsupported ML-DSA security level"))
    );
    let mut bad = sample_tx();
    bad.pubkey.push(0);
    assert_eq!(
        bad.validate_key_material_shape(),
        Err(RlpError::Custom("invalid ML-DSA public key length"))
    );
    let mut bad = sample_tx();
    bad.ml_dsa_signature.pop();
    assert_eq!(
        bad.validate_key_material_shape(),
        Err(RlpError::Custom("invalid ML-DSA signature length"))
    );
}
