use std::collections::hash_map::DefaultHasher;
use std::hash::{Hash, Hasher};
use std::mem::size_of;

use alloy_consensus::transaction::{RlpEcdsaEncodableTx, SignerRecoverable};
use alloy_consensus::SignableTransaction;
use alloy_eips::eip2718::Encodable2718;
use diesis::envelope::{
    EthereumTxEnvelope, PooledTransactionVariant, TxEip4844Variant, TxEip4844WithSidecar,
    MISSING_SIDECAR, ML_DSA_NOT_AN_ETHEREUM_ENVELOPE, ML_DSA_NOT_POOLABLE, NOT_A_BLOB_TRANSACTION,
};
use diesis::primitives::{
    AccessList, AccessListItem, Address, Bytes, Signature, SignedAuthorization, TxKind, B256, U256,
};
use diesis::recovery::RecoveryError;
use diesis::rlp::RlpError;
use diesis::signed::Signed;
use diesis::transaction::{ml_dsa_dummy_signature, Transaction};
use diesis::transaction_signed::TransactionSigned;
use diesis::tx_ecdsa::{TxEip1559, TxEip2930, TxEip4844, TxEip7702, TxLegacy};
use diesis::tx_ml_dsa::{TxMlDsa, ML_DSA_44_SIGNATURE_LEN};
use diesis::tx_type::{DiesisTxType, Eip2718Error, TxType, ML_DSA_TX_TYPE_ID};

const ZERO_HASH: B256 = B256 { bytes: [0; 32] };
const ZERO_ADDRESS: Address = Address { bytes: [0; 20] };

fn word(hex: &str) -> U256 {
    let bytes = alloy_primitives::hex::decode(hex).unwrap();
    let limbs = alloy_primitives::U256::from_be_slice(&bytes).into_limbs();
    U256 { w0: limbs[0], w1: limbs[1], w2: limbs[2], w3: limbs[3] }
}

fn test_signature() -> Signature {
    Signature {
        r: word("840cfc572845f5786e702984c2a582528cad4b49b2a10b9db1be7fca90058565"),
        s: word("25e7109ceb98168d95b09b18bbf6b685130e0562f233877d492b94eee0c5b6d1"),
        y_parity: false,
    }
}

fn empty_ml_dsa_transaction() -> TxMlDsa {
    TxMlDsa {
        chain_id: 1,
        nonce: 0,
        max_priority_fee_per_gas: 0,
        max_fee_per_gas: 0,
        gas_limit: 21_000,
        to: TxKind::Call(ZERO_ADDRESS),
        value: U256::zero(),
        input: Bytes::new(),
        access_list: AccessList::default(),
        sender: ZERO_ADDRESS,
        ml_dsa_level: 44,
        pubkey: Bytes::new(),
        ml_dsa_signature: vec![0u8; ML_DSA_44_SIGNATURE_LEN],
    }
}

fn access_list() -> AccessList {
    AccessList {
        items: vec![
            AccessListItem { address: Address { bytes: [7; 20] }, storage_keys: vec![] },
            AccessListItem {
                address: Address { bytes: [8; 20] },
                storage_keys: vec![B256 { bytes: [1; 32] }, B256 { bytes: [2; 32] }],
            },
        ],
    }
}

fn legacy(chain_id: Option<u64>) -> Transaction {
    Transaction::Legacy(TxLegacy {
        chain_id,
        nonce: 9,
        gas_price: 20_000_000_000,
        gas_limit: 21_000,
        to: TxKind::Call(Address { bytes: [0x35; 20] }),
        value: U256::from_u128(1_000_000_000_000_000_000),
        input: Bytes::new(),
    })
}

fn eip2930() -> Transaction {
    Transaction::Eip2930(TxEip2930 {
        chain_id: 5,
        nonce: 1,
        gas_price: 3,
        gas_limit: 100_000,
        to: TxKind::Create,
        value: U256 { w0: 1, w1: 2, w2: 3, w3: 4 },
        access_list: access_list(),
        input: vec![0x60, 0x00],
    })
}

fn eip1559() -> Transaction {
    Transaction::Eip1559(TxEip1559 {
        chain_id: 1,
        nonce: 0x42,
        gas_limit: 44_386,
        max_fee_per_gas: 0x4a817c800,
        max_priority_fee_per_gas: 0x3b9aca00,
        to: TxKind::Call(Address { bytes: [0x60; 20] }),
        value: U256::zero(),
        access_list: AccessList::default(),
        input: vec![0xa2, 0x2c, 0xb4, 0x65],
    })
}

fn eip4844() -> Transaction {
    Transaction::Eip4844(TxEip4844 {
        chain_id: 1,
        nonce: 3,
        gas_limit: 50_000,
        max_fee_per_gas: 1000,
        max_priority_fee_per_gas: 10,
        to: Address { bytes: [0x11; 20] },
        value: U256::from_u128(7),
        access_list: access_list(),
        blob_versioned_hashes: vec![B256 { bytes: [1; 32] }, B256 { bytes: [1; 32] }],
        max_fee_per_blob_gas: 99,
        input: vec![1; 40],
    })
}

fn eip7702() -> Transaction {
    Transaction::Eip7702(TxEip7702 {
        chain_id: 1,
        nonce: 4,
        gas_limit: 60_000,
        max_fee_per_gas: 2000,
        max_priority_fee_per_gas: 20,
        to: Address { bytes: [0x22; 20] },
        value: U256::zero(),
        access_list: AccessList::default(),
        authorization_list: vec![SignedAuthorization {
            chain_id: U256::from_u128(1),
            address: Address { bytes: [0x33; 20] },
            nonce: 6,
            y_parity: 1,
            r: U256::from_u128(0x80),
            s: U256::from_u128(0x7f),
        }],
        input: vec![],
    })
}

fn ecdsa_transactions() -> Vec<Transaction> {
    vec![legacy(None), legacy(Some(1)), eip2930(), eip1559(), eip4844(), eip7702()]
}

fn all_transactions() -> Vec<Transaction> {
    let mut all = ecdsa_transactions();
    all.push(Transaction::MlDsa(empty_ml_dsa_transaction()));
    all
}

#[test]
fn ml_dsa_transaction_has_raw_type_without_standard_txtype() {
    let tx = Transaction::MlDsa(empty_ml_dsa_transaction());

    assert_eq!(tx.standard_tx_type(), None);
    assert_eq!(tx.ty(), ML_DSA_TX_TYPE_ID);
}

#[test]
fn ml_dsa_transaction_envelope_conversion_errors_instead_of_panicking() {
    let tx = Transaction::MlDsa(empty_ml_dsa_transaction());
    let signed = TransactionSigned::new(tx, test_signature(), ZERO_HASH);

    let err = EthereumTxEnvelope::<TxEip4844Variant<Bytes>>::try_from(signed.clone()).unwrap_err();
    assert_eq!(err.message(), ML_DSA_NOT_AN_ETHEREUM_ENVELOPE);
    assert!(matches!(err.value().transaction(), Transaction::MlDsa(_)));

    let err = EthereumTxEnvelope::<TxEip4844>::try_from(signed).unwrap_err();
    assert_eq!(err.message(), ML_DSA_NOT_AN_ETHEREUM_ENVELOPE);
    assert!(matches!(err.value().transaction(), Transaction::MlDsa(_)));
}

#[test]
fn ml_dsa_transaction_is_not_poolable() {
    let tx = Transaction::MlDsa(empty_ml_dsa_transaction());
    let signed = TransactionSigned::new(tx, test_signature(), ZERO_HASH);

    let err = PooledTransactionVariant::try_from(signed).unwrap_err();
    assert!(matches!(err.value().transaction(), Transaction::MlDsa(_)));
    assert_eq!(err.message(), ML_DSA_NOT_POOLABLE);
}

#[test]
fn ml_dsa_transaction_into_signed_canonicalizes_outer_signature() {
    let tx = Transaction::MlDsa(empty_ml_dsa_transaction());
    let signed = tx.into_signed(test_signature());
    let (_, signature, _) = signed.into_parts();

    assert_eq!(signature, ml_dsa_dummy_signature());
}

#[test]
fn ml_dsa_outer_signature_is_canonicalized() {
    let tx = Transaction::MlDsa(empty_ml_dsa_transaction());
    let with_dummy = TransactionSigned::new_unhashed(tx.clone(), ml_dsa_dummy_signature());
    let with_nonzero = TransactionSigned::new_unhashed(tx, test_signature());

    assert_eq!(*with_dummy.signature(), ml_dsa_dummy_signature());
    assert_eq!(*with_nonzero.signature(), ml_dsa_dummy_signature());
    assert_eq!(with_dummy, with_nonzero);
    assert_eq!(with_dummy.tx_hash(), with_nonzero.tx_hash());

    let mut dummy_hash = DefaultHasher::new();
    Hash::hash(&with_dummy, &mut dummy_hash);
    let mut nonzero_hash = DefaultHasher::new();
    Hash::hash(&with_nonzero, &mut nonzero_hash);
    assert_eq!(dummy_hash.finish(), nonzero_hash.finish());
}

#[test]
fn ml_dsa_network_roundtrip_ignores_nonzero_dummy_signature() {
    let tx = Transaction::MlDsa(empty_ml_dsa_transaction());
    let signed = TransactionSigned::new_unhashed(tx, test_signature());
    let mut encoded = Vec::new();
    signed.encode_2718(&mut encoded);

    let mut payload = &encoded[1..];
    let decoded = TransactionSigned::typed_decode(ML_DSA_TX_TYPE_ID, &mut payload)
        .expect("valid ML-DSA transaction should decode");

    assert!(payload.is_empty());
    assert_eq!(signed, decoded);
    assert_eq!(*decoded.signature(), ml_dsa_dummy_signature());
}

#[test]
fn ml_dsa_compact_roundtrip_ignores_nonzero_dummy_signature() {
    let tx = Transaction::MlDsa(empty_ml_dsa_transaction());
    let signed = TransactionSigned::new_unhashed(tx, test_signature());
    let mut encoded = Vec::new();
    let len = signed.to_compact(&mut encoded);

    let (decoded, rest) = TransactionSigned::from_compact(&encoded, len);

    assert!(rest.is_empty());
    assert_eq!(signed, decoded);
    assert_eq!(*decoded.signature(), ml_dsa_dummy_signature());
}

#[test]
fn ml_dsa_signer_recovery_requires_verified_path() {
    let tx = Transaction::MlDsa(empty_ml_dsa_transaction());
    let signed = TransactionSigned::new_unhashed(tx, test_signature());

    assert!(signed.recover_signer().is_err());
    assert!(signed.recover_signer_unchecked().is_err());
    assert!(signed.recover_unchecked_with_buf(&mut Vec::new()).is_err());
}

#[test]
fn recovery_names_what_is_wrong_with_key_material() {
    let mut tx = empty_ml_dsa_transaction();
    tx.ml_dsa_level = 1;
    let signed = TransactionSigned::new_unhashed(Transaction::MlDsa(tx), test_signature());
    assert_eq!(
        signed.recover_signer(),
        Err(RecoveryError::KeyMaterial(RlpError::Custom("unsupported ML-DSA security level")))
    );
    assert_eq!(signed.recover_signer_unchecked(), Err(RecoveryError::Failed));
    let mut buf = vec![1, 2];
    assert_eq!(signed.recover_unchecked_with_buf(&mut buf), Err(RecoveryError::Failed));
    assert_eq!(buf, vec![1, 2]);
}

#[test]
fn types_and_accessors() {
    let types: Vec<_> = all_transactions().iter().map(|tx| (tx.tx_type(), tx.ty())).collect();
    assert_eq!(
        types,
        vec![
            (DiesisTxType::Legacy, 0),
            (DiesisTxType::Legacy, 0),
            (DiesisTxType::Eip2930, 1),
            (DiesisTxType::Eip1559, 2),
            (DiesisTxType::Eip4844, 3),
            (DiesisTxType::Eip7702, 4),
            (DiesisTxType::MlDsa, 0x70),
        ]
    );
    assert_eq!(legacy(None).chain_id(), None);
    assert_eq!(legacy(Some(1)).chain_id(), Some(1));
    assert_eq!(legacy(None).gas_price(), Some(20_000_000_000));
    assert_eq!(legacy(None).max_fee_per_gas(), 20_000_000_000);
    assert_eq!(legacy(None).max_priority_fee_per_gas(), None);
    assert_eq!(legacy(None).priority_fee_or_price(), 20_000_000_000);
    assert!(!legacy(None).is_dynamic_fee());
    assert_eq!(legacy(None).access_list(), None);
    assert_eq!(legacy(None).effective_gas_price(Some(1)), 20_000_000_000);
    assert!(legacy(None).is_legacy());
    assert_eq!(eip2930().standard_tx_type(), Some(TxType::Eip2930));
    assert_eq!(eip2930().ethereum_tx_type(), Some(TxType::Eip2930));
    assert!(eip2930().is_create());
    assert_eq!(eip2930().kind(), TxKind::Create);
    assert_eq!(eip2930().access_list(), Some(&access_list()));
    assert_eq!(eip1559().gas_price(), None);
    assert_eq!(eip1559().gas_limit(), 44_386);
    assert_eq!(eip1559().nonce(), 0x42);
    assert!(eip1559().is_dynamic_fee());
    assert_eq!(eip1559().input(), &vec![0xa2, 0x2c, 0xb4, 0x65]);
    assert_eq!(eip4844().effective_gas_price(Some(100)), 110);
    assert_eq!(eip4844().kind(), TxKind::Call(Address { bytes: [0x11; 20] }));
    assert_eq!(eip4844().max_fee_per_blob_gas(), Some(99));
    assert_eq!(eip4844().blob_versioned_hashes().unwrap().len(), 2);
    assert_eq!(eip4844().authorization_list(), None);
    assert_eq!(eip7702().authorization_list().unwrap()[0].nonce, 6);
    assert_eq!(eip7702().value(), U256::zero());
    let mut tx = eip7702();
    tx.set_chain_id(77);
    assert_eq!(tx.chain_id(), Some(77));
    let mut tx = legacy(None);
    tx.set_chain_id(77);
    assert_eq!(tx.chain_id(), Some(77));
    *tx.input_mut() = vec![5];
    assert_eq!(tx.input(), &vec![5]);
}

#[test]
fn equality_and_copies() {
    let all = all_transactions();
    for (i, a) in all.iter().enumerate() {
        for (j, b) in all.iter().enumerate() {
            assert_eq!(a == b, i == j);
        }
        assert_eq!(a.clone(), *a);
    }
}

#[test]
fn legacy_signing_payload_is_the_one_of_eip155() {
    // The example of EIP-155.
    let tx = legacy(Some(1));
    let mut payload = Vec::new();
    tx.encode_for_signing(&mut payload);
    assert_eq!(
        alloy_primitives::hex::encode(&payload),
        "ec098504a817c800825208943535353535353535353535353535353535353535880de0b6b3a764000080018080"
    );
    assert_eq!(tx.payload_len_for_signature(), payload.len());
    assert_eq!(
        alloy_primitives::hex::encode(tx.signature_hash().bytes),
        "daf5a779ae972f972197303d7b574746c7ef83eadac0f2791ad23db92e4c8e53"
    );
    let signature = Signature {
        r: word("28ef61340bd939bc2195fe537567866003e1a15d3c71ff63e1590620aa636276"),
        s: word("67cbe9d8997f761aecb703304b3800ccf555c9f3dc64214b297fb1966a3b6d83"),
        y_parity: false,
    };
    let signed = TransactionSigned::new_unhashed(tx, signature);
    assert_eq!(
        alloy_primitives::hex::encode(signed.encoded_2718()),
        "f86c098504a817c800825208943535353535353535353535353535353535353535880de0b6b3a76400008025a028ef61340bd939bc2195fe537567866003e1a15d3c71ff63e1590620aa636276a067cbe9d8997f761aecb703304b3800ccf555c9f3dc64214b297fb1966a3b6d83"
    );
    assert_eq!(
        alloy_primitives::hex::encode(signed.recover_signer().unwrap().bytes),
        "9d8a62f656a8d1615c1294fd71e9cfb3e4855a4f"
    );
    assert_eq!(signed.recover_signer(), signed.recover_signer_unchecked());
    let mut buf = Vec::new();
    assert_eq!(signed.recover_unchecked_with_buf(&mut buf), signed.recover_signer());
    assert_eq!(buf, payload);
}

#[test]
fn malleable_signatures_are_refused_by_the_strict_recovery() {
    // The same signature with the other value of `s`.
    let half_order = "7fffffffffffffffffffffffffffffff5d576e7357a4501ddfe92f46681b20a1";
    let signature = Signature { r: test_signature().r, s: word(half_order), y_parity: true };
    let signed = TransactionSigned::new_unhashed(eip1559(), signature);
    assert_eq!(signed.recover_signer(), Err(RecoveryError::Failed));
}

#[test]
fn lengths_match_encodings_and_hashes_match_keccak() {
    for tx in all_transactions() {
        let mut encoded = Vec::new();
        tx.eip2718_encode(&test_signature(), &mut encoded);
        assert_eq!(tx.eip2718_encoded_length(&test_signature()), encoded.len());
        let hash = alloy_primitives::keccak256(&encoded).0;
        assert_eq!(tx.tx_hash(&test_signature()).bytes, hash);
        assert_eq!(tx.tx_hash_with_type(&test_signature(), 9).bytes, hash);

        let mut with_type = Vec::new();
        tx.eip2718_encode_with_type(&test_signature(), 9, &mut with_type);
        assert_eq!(with_type, encoded);

        let mut fields = Vec::new();
        tx.rlp_encode_fields(&mut fields);
        assert_eq!(tx.rlp_encoded_fields_length(), fields.len());

        let mut payload = Vec::new();
        tx.encode_for_signing(&mut payload);
        assert_eq!(tx.payload_len_for_signature(), payload.len());
        assert_eq!(tx.signature_hash().bytes, alloy_primitives::keccak256(&payload).0);

        let signed = TransactionSigned::new_unhashed(tx, test_signature());
        assert_eq!(signed.hash().bytes, hash);
        assert_eq!(signed.trie_hash().bytes, hash);
        assert_eq!(signed.encode_2718_len(), encoded.len());
        let mut network = Vec::new();
        signed.network_encode(&mut network);
        assert_eq!(signed.network_len(), network.len());
        assert_eq!(signed.length(), network.len());
    }
}

#[test]
fn raw_network_form_of_ml_dsa_has_no_string_header() {
    let mut encoded = Vec::new();
    let mut network = Vec::new();
    let tx = Transaction::MlDsa(empty_ml_dsa_transaction());
    tx.eip2718_encode(&test_signature(), &mut encoded);
    tx.network_encode(&test_signature(), &mut network);
    assert_eq!(network, encoded);
    let mut with_type = Vec::new();
    tx.network_encode_with_type(&test_signature(), 1, &mut with_type);
    assert_eq!(with_type, encoded);

    let tx = eip1559();
    let mut encoded = Vec::new();
    let mut network = Vec::new();
    tx.eip2718_encode(&test_signature(), &mut encoded);
    tx.network_encode(&test_signature(), &mut network);
    assert_eq!(network[0], 0xb8);
    assert_eq!(network[1] as usize, encoded.len());
    assert_eq!(&network[2..], &encoded[..]);

    let tx = legacy(Some(3));
    let mut encoded = Vec::new();
    let mut network = Vec::new();
    tx.eip2718_encode(&test_signature(), &mut encoded);
    tx.network_encode(&test_signature(), &mut network);
    assert_eq!(network, encoded);
}

#[test]
fn encodings_agree_with_alloy() {
    let alloy = alloy_consensus::TxEip1559 {
        chain_id: 1,
        nonce: 0x42,
        gas_limit: 44_386,
        max_fee_per_gas: 0x4a817c800,
        max_priority_fee_per_gas: 0x3b9aca00,
        to: alloy_primitives::TxKind::Call([0x60; 20].into()),
        value: alloy_primitives::U256::ZERO,
        access_list: Default::default(),
        input: vec![0xa2, 0x2c, 0xb4, 0x65].into(),
    };
    let signature = alloy_primitives::Signature::test_signature();
    let mut expected = Vec::new();
    alloy.eip2718_encode(&signature, &mut expected);
    let signed = TransactionSigned::new_unhashed(eip1559(), test_signature());
    assert_eq!(signed.encoded_2718(), expected);

    let envelope: alloy_consensus::TxEnvelope = alloy.into_signed(signature).into();
    let mut network = Vec::new();
    envelope.network_encode(&mut network);
    let mut own = Vec::new();
    signed.encode(&mut own);
    assert_eq!(own, network);
    assert_eq!(signed.tx_hash().bytes, envelope.tx_hash().0);
    assert_eq!(
        signed.recover_signer().map(|address| address.bytes).ok(),
        envelope.recover_signer().map(|address| address.into_array()).ok()
    );
}

#[test]
fn envelopes_roundtrip_and_leave_what_follows() {
    for tx in all_transactions() {
        let signed = TransactionSigned::new_unhashed(tx, test_signature());
        let mut encoded = signed.encoded_2718();
        encoded.extend_from_slice(&[0xde, 0xad]);
        let mut buf = &encoded[..];
        let decoded = TransactionSigned::decode_2718(&mut buf).unwrap();
        assert_eq!(decoded, signed);
        assert_eq!(buf, &[0xde, 0xad]);
        assert_eq!(
            decoded.hash().bytes,
            alloy_primitives::keccak256(&encoded[..encoded.len() - 2]).0
        );

        let mut network = Vec::new();
        signed.network_encode(&mut network);
        network.push(0x77);
        let mut buf = &network[..];
        assert_eq!(TransactionSigned::network_decode(&mut buf).unwrap(), signed);
        assert_eq!(buf, &[0x77]);
        let mut buf = &network[..];
        assert_eq!(TransactionSigned::decode(&mut buf).unwrap(), signed);
    }
}

#[test]
fn typed_envelopes_without_their_string_are_accepted() {
    let signed = TransactionSigned::new_unhashed(eip4844(), test_signature());
    let encoded = signed.encoded_2718();
    let mut buf = &encoded[..];
    assert_eq!(TransactionSigned::network_decode(&mut buf).unwrap(), signed);
}

#[test]
fn decoding_errors_are_typed() {
    let mut buf: &[u8] = &[0xc0];
    assert_eq!(
        TransactionSigned::typed_decode(0, &mut buf),
        Err(Eip2718Error::UnexpectedType(0))
    );
    let mut buf: &[u8] = &[0xc0];
    assert_eq!(
        TransactionSigned::typed_decode(5, &mut buf),
        Err(Eip2718Error::UnexpectedType(5))
    );
    // Whatever is wrong with an ML-DSA transaction, its type is named.
    let mut buf: &[u8] = &[0x80];
    assert_eq!(
        TransactionSigned::typed_decode(0x70, &mut buf),
        Err(Eip2718Error::UnexpectedType(0x70))
    );
    let mut buf: &[u8] = &[0x80];
    assert_eq!(
        TransactionSigned::typed_decode(2, &mut buf),
        Err(Eip2718Error::RlpError(RlpError::UnexpectedString))
    );
    let mut buf: &[u8] = &[];
    assert_eq!(
        TransactionSigned::decode_2718(&mut buf),
        Err(Eip2718Error::RlpError(RlpError::InputTooShort))
    );
    let mut buf: &[u8] = &[0x80];
    assert_eq!(
        TransactionSigned::network_decode(&mut buf),
        Err(Eip2718Error::RlpError(RlpError::InputTooShort))
    );
    let mut buf: &[u8] = &[0x09, 0xc0];
    assert_eq!(
        TransactionSigned::decode(&mut buf),
        Err(RlpError::Custom("Unexpected type flag"))
    );
    let mut buf: &[u8] = &[];
    assert_eq!(TransactionSigned::decode(&mut buf), Err(RlpError::InputTooShort));
}

#[test]
fn a_type_without_a_decoder_leaves_the_buffer() {
    for ty in [0u8, 5, 0x6f, 0x71, 0x7f, 0xff] {
        let mut buf: &[u8] = &[1, 2, 3];
        assert_eq!(
            TransactionSigned::typed_decode(ty, &mut buf),
            Err(Eip2718Error::UnexpectedType(ty))
        );
        assert_eq!(buf, &[1, 2, 3]);
    }
    let mut buf: &[u8] = &[0x05, 1, 2];
    assert!(TransactionSigned::decode_2718(&mut buf).is_err());
    assert_eq!(buf, &[1, 2]);
    let mut buf: &[u8] = &[0x82, 0x05, 1, 2];
    assert!(TransactionSigned::network_decode(&mut buf).is_err());
    assert_eq!(buf, &[1, 2]);
    // An unwrapped envelope is taken for a string of one byte, which has no header.
    let mut buf: &[u8] = &[0x05, 1, 2];
    assert!(TransactionSigned::decode(&mut buf).is_err());
    assert_eq!(buf, &[1, 2]);
    let mut buf: &[u8] = &[0x82, 0x05];
    assert!(TransactionSigned::decode(&mut buf).is_err());
    assert_eq!(buf, &[0x82, 0x05]);
    let mut buf: &[u8] = &[0x80];
    assert!(TransactionSigned::network_decode(&mut buf).is_err());
    assert!(buf.is_empty());
    let mut buf: &[u8] = &[0x82, 1, 2, 3];
    assert_eq!(TxMlDsa::eip2718_decode(&mut buf), Err(RlpError::UnexpectedString));
    assert_eq!(buf, &[1, 2, 3]);
}

/// ML-DSA transactions in terms of outside types, for their derived hash.
#[derive(Hash)]
struct Hashed {
    chain_id: u64,
    nonce: u64,
    max_priority_fee_per_gas: u128,
    max_fee_per_gas: u128,
    gas_limit: u64,
    to: alloy_primitives::TxKind,
    value: alloy_primitives::U256,
    input: alloy_primitives::Bytes,
    access_list: alloy_eips::eip2930::AccessList,
    sender: alloy_primitives::Address,
    ml_dsa_level: u8,
    pubkey: alloy_primitives::Bytes,
    ml_dsa_signature: alloy_primitives::Bytes,
}

/// Transactions in terms of outside types, for their derived hash.
#[derive(Hash)]
enum HashedTransaction {
    Legacy(alloy_consensus::TxLegacy),
    Eip2930(alloy_consensus::TxEip2930),
    Eip1559(alloy_consensus::TxEip1559),
    Eip4844(alloy_consensus::TxEip4844),
    Eip7702(alloy_consensus::TxEip7702),
    MlDsa(Hashed),
}

fn outside_access_list() -> alloy_eips::eip2930::AccessList {
    alloy_eips::eip2930::AccessList(
        access_list()
            .items
            .iter()
            .map(|item| alloy_eips::eip2930::AccessListItem {
                address: item.address.bytes.into(),
                storage_keys: item.storage_keys.iter().map(|key| key.bytes.into()).collect(),
            })
            .collect(),
    )
}

fn outside(tx: &Transaction) -> HashedTransaction {
    if let Transaction::MlDsa(_) = tx {
        return HashedTransaction::MlDsa(Hashed {
            chain_id: 1,
            nonce: 0,
            max_priority_fee_per_gas: 0,
            max_fee_per_gas: 0,
            gas_limit: 21_000,
            to: alloy_primitives::TxKind::Call([0; 20].into()),
            value: alloy_primitives::U256::from_limbs([1, 2, 3, 4]),
            input: vec![1, 2].into(),
            access_list: outside_access_list(),
            sender: [9; 20].into(),
            ml_dsa_level: 44,
            pubkey: vec![].into(),
            ml_dsa_signature: vec![0; ML_DSA_44_SIGNATURE_LEN].into(),
        });
    }
    let encoded = TransactionSigned::new_unhashed(tx.clone(), test_signature()).encoded_2718();
    let envelope: alloy_consensus::EthereumTxEnvelope<alloy_consensus::TxEip4844> =
        alloy_eips::eip2718::Decodable2718::decode_2718(&mut &encoded[..]).unwrap();
    match envelope.into_typed_transaction() {
        alloy_consensus::EthereumTypedTransaction::Legacy(tx) => HashedTransaction::Legacy(tx),
        alloy_consensus::EthereumTypedTransaction::Eip2930(tx) => HashedTransaction::Eip2930(tx),
        alloy_consensus::EthereumTypedTransaction::Eip1559(tx) => HashedTransaction::Eip1559(tx),
        alloy_consensus::EthereumTypedTransaction::Eip4844(tx) => HashedTransaction::Eip4844(tx),
        alloy_consensus::EthereumTypedTransaction::Eip7702(tx) => HashedTransaction::Eip7702(tx),
    }
}

#[test]
fn hashers_are_fed_the_signature_and_then_the_transaction() {
    let mut all = ecdsa_transactions();
    let mut ml_dsa = empty_ml_dsa_transaction();
    ml_dsa.value = U256 { w0: 1, w1: 2, w2: 3, w3: 4 };
    ml_dsa.input = vec![1, 2];
    ml_dsa.access_list = access_list();
    ml_dsa.sender = Address { bytes: [9; 20] };
    all.push(Transaction::MlDsa(ml_dsa));
    for tx in all {
        let mut expected = DefaultHasher::new();
        match tx {
            Transaction::MlDsa(_) => alloy_primitives::Signature::new(
                alloy_primitives::U256::ZERO,
                alloy_primitives::U256::ZERO,
                false,
            )
            .hash(&mut expected),
            _ => alloy_primitives::Signature::test_signature().hash(&mut expected),
        }
        outside(&tx).hash(&mut expected);

        let mut state = DefaultHasher::new();
        let signed = TransactionSigned::new_unhashed(tx.clone(), test_signature());
        Hash::hash(&signed, &mut state);
        assert_eq!(state.finish(), expected.finish());

        // A transaction by itself is hashed as it is within a signed one.
        let mut expected = DefaultHasher::new();
        outside(&tx).hash(&mut expected);
        let mut state = DefaultHasher::new();
        tx.hash(&mut state);
        assert_eq!(state.finish(), expected.finish());

        let (signature, transaction) = signed.hash_key();
        assert_eq!(signature, *signed.signature());
        assert_eq!(*transaction, tx);
    }
}

#[test]
fn known_types() {
    for type_id in 0..=255u8 {
        assert_eq!(TransactionSigned::is_type(type_id), type_id <= 4 || type_id == 0x70);
    }
}

#[test]
fn type_flags() {
    let flags: Vec<_> = all_transactions()
        .into_iter()
        .map(|tx| TransactionSigned::new_unhashed(tx, test_signature()).type_flag())
        .collect();
    assert_eq!(flags, vec![None, None, Some(1), Some(2), Some(3), Some(4), Some(0x70)]);
}

#[test]
fn given_hashes_are_kept_except_for_ml_dsa() {
    let hash = B256 { bytes: [5; 32] };
    let signed = TransactionSigned::new(eip1559(), test_signature(), hash);
    assert_eq!(signed.hash(), hash);
    let unhashed = TransactionSigned::new_unhashed(eip1559(), test_signature());
    assert_ne!(signed, unhashed);
    let (tx, signature, kept) = signed.into_parts();
    assert_eq!((tx, signature, kept), (eip1559(), test_signature(), hash));

    let tx = Transaction::MlDsa(empty_ml_dsa_transaction());
    let signed = TransactionSigned::new(tx.clone(), test_signature(), hash);
    assert_eq!(signed.hash(), empty_ml_dsa_transaction().tx_hash());
    assert_eq!(signed, TransactionSigned::new_unhashed(tx, test_signature()));
}

#[test]
fn ethereum_envelopes_convert_both_ways() {
    for tx in ecdsa_transactions() {
        let signed = TransactionSigned::new_unhashed(tx, test_signature());
        let envelope = EthereumTxEnvelope::<TxEip4844>::try_from(signed.clone()).unwrap();
        let back = TransactionSigned::from(envelope);
        assert_eq!(back, signed);
        assert_eq!(back.into_parts(), signed.clone().into_parts());
        let envelope =
            EthereumTxEnvelope::<TxEip4844Variant<Bytes>>::try_from(signed.clone()).unwrap();
        assert_eq!(TransactionSigned::from(envelope), signed);
    }
}

#[test]
fn blob_transactions_need_their_sidecar_for_the_pool() {
    let signed = TransactionSigned::new_unhashed(eip4844(), test_signature());
    let err = PooledTransactionVariant::try_from(signed.clone()).unwrap_err();
    assert_eq!(err.message(), MISSING_SIDECAR);
    assert_eq!(*err.value(), signed);
    assert_eq!(err.into_value(), signed);

    let pooled = signed.clone().try_into_pooled_eip4844(vec![1u8, 2]).unwrap();
    match &pooled {
        EthereumTxEnvelope::Eip4844(inner) => {
            assert_eq!(inner.tx.sidecar, vec![1, 2]);
            assert_eq!(inner.hash, signed.hash());
            assert_eq!(inner.signature, test_signature());
        }
        _ => panic!("a blob transaction"),
    }
    assert_eq!(TransactionSigned::from(pooled), signed);

    let other = TransactionSigned::new_unhashed(eip7702(), test_signature());
    let err = other.clone().try_into_pooled_eip4844(()).unwrap_err();
    assert_eq!(err.message(), NOT_A_BLOB_TRANSACTION);
    assert_eq!(*err.value(), other);
    assert!(PooledTransactionVariant::try_from(other).is_ok());

    let with_sidecar = TxEip4844Variant::TxEip4844WithSidecar(TxEip4844WithSidecar {
        tx: match eip4844() {
            Transaction::Eip4844(tx) => tx,
            _ => panic!("a blob transaction"),
        },
        sidecar: vec![3u8],
    });
    assert_eq!(Transaction::from(TxEip4844::from(with_sidecar)), eip4844());
}

#[test]
fn blob_transactions_are_handed_out_signed() {
    let signed = TransactionSigned::new_unhashed(eip4844(), test_signature());
    let inner = signed.as_eip4844().unwrap();
    assert_eq!(Transaction::Eip4844(inner.tx.clone()), eip4844());
    assert_eq!(inner.hash, signed.hash());
    assert_eq!(inner.signature, test_signature());
    assert_eq!(TransactionSigned::from(inner), signed);
    let other = TransactionSigned::new_unhashed(eip1559(), test_signature());
    assert_eq!(other.as_eip4844(), None);
}

#[test]
fn signed_values_become_signed_transactions() {
    let hash = B256 { bytes: [3; 32] };
    let tx = match legacy(Some(1)) {
        Transaction::Legacy(tx) => tx,
        _ => panic!("a legacy transaction"),
    };
    let signed: TransactionSigned = Signed::new_unchecked(tx, test_signature(), hash).into();
    assert_eq!(signed, TransactionSigned::new(legacy(Some(1)), test_signature(), hash));

    let signed: TransactionSigned =
        Signed::new_unchecked(eip2930(), test_signature(), hash).into();
    assert_eq!(signed, TransactionSigned::new(eip2930(), test_signature(), hash));

    let signed: TransactionSigned = Transaction::MlDsa(empty_ml_dsa_transaction())
        .into_signed(test_signature())
        .into();
    assert_eq!(*signed.signature(), ml_dsa_dummy_signature());
}

#[test]
fn sizes_cover_the_contents() {
    for tx in all_transactions() {
        let held = tx.input().len()
            + tx.access_list().map_or(0, |list| {
                list.items.iter().map(|item| 20 + 32 * item.storage_keys.len()).sum::<usize>()
            });
        let size = tx.size();
        assert!(size >= held);
        let signed = TransactionSigned::new_unhashed(tx, test_signature());
        assert_eq!(signed.size(), size + 32 + std::mem::size_of::<Signature>());
    }
    let tx = empty_ml_dsa_transaction();
    assert_eq!(tx.size(), std::mem::size_of::<TxMlDsa>() + ML_DSA_44_SIGNATURE_LEN);
}

#[test]
fn sizes_count_what_is_allocated() {
    let mut list = access_list();
    list.items.reserve_exact(10);
    list.items[0].storage_keys.reserve_exact(7);
    let expected = list.items.capacity() * size_of::<AccessListItem>()
        + list.items.iter().map(|item| 20 + item.storage_keys.capacity() * 32).sum::<usize>();
    assert_eq!(list.size(), expected);
    assert!(expected >= 12 * size_of::<AccessListItem>() + 2 * 20 + 9 * 32);
    assert_eq!(
        AccessList::size_with(3, &vec![4, 5]),
        3 * size_of::<AccessListItem>() + 2 * 20 + 9 * 32
    );
    assert_eq!(AccessList::size_with(usize::MAX, &vec![]), usize::MAX);
    assert_eq!(AccessList::size_with(0, &vec![1, usize::MAX]), usize::MAX);

    let mut tx = empty_ml_dsa_transaction();
    tx.input = vec![1; 5];
    tx.pubkey = vec![2; 6];
    tx.access_list = list;
    assert_eq!(tx.size_with(100), size_of::<TxMlDsa>() + 100 + 5 + 6 + ML_DSA_44_SIGNATURE_LEN);
    assert_eq!(tx.size(), tx.size_with(expected));
    assert_eq!(tx.size_with(usize::MAX), usize::MAX);

    assert_eq!(legacy(None).size_with(100, 1000), size_of::<TxLegacy>());
    assert_eq!(eip2930().size_with(100, 1000), size_of::<TxEip2930>() + 100 + 2);
    assert_eq!(eip1559().size_with(100, 1000), size_of::<TxEip1559>() + 100 + 4);
    assert_eq!(eip4844().size_with(100, 1000), size_of::<TxEip4844>() + 100 + 40 + 1000);
    assert_eq!(eip7702().size_with(100, 1000), size_of::<TxEip7702>() + 100 + 1000);
    let ml_dsa = Transaction::MlDsa(tx.clone());
    assert_eq!(ml_dsa.size_with(100, 1000), tx.size_with(100));

    match eip7702() {
        Transaction::Eip7702(mut tx) => {
            tx.authorization_list.reserve_exact(4);
            let list = tx.authorization_list.capacity() * size_of::<SignedAuthorization>();
            let tx = Transaction::Eip7702(tx);
            assert_eq!(tx.size(), tx.size_with(0, list));
            let size = tx.size();
            let signed = TransactionSigned::new_unhashed(tx, test_signature());
            assert_eq!(signed.size(), signed.size_with(size));
        }
        _ => panic!("a set-code transaction"),
    }
    match eip4844() {
        Transaction::Eip4844(tx) => {
            let list = tx.blob_versioned_hashes.capacity() * 32;
            let access_list = tx.access_list.size();
            let tx = Transaction::Eip4844(tx);
            assert_eq!(tx.size(), tx.size_with(access_list, list));
        }
        _ => panic!("a blob transaction"),
    }
    let signed = TransactionSigned::new_unhashed(legacy(None), test_signature());
    assert_eq!(signed.size_with(9), 32 + size_of::<Signature>() + 9);
}

#[test]
fn signed_accessors_read_the_transaction() {
    let signed = TransactionSigned::new_unhashed(eip4844(), test_signature());
    assert_eq!(signed.chain_id(), Some(1));
    assert_eq!(signed.nonce(), 3);
    assert_eq!(signed.gas_limit(), 50_000);
    assert_eq!(signed.gas_price(), None);
    assert_eq!(signed.max_fee_per_gas(), 1000);
    assert_eq!(signed.max_priority_fee_per_gas(), Some(10));
    assert_eq!(signed.max_fee_per_blob_gas(), Some(99));
    assert_eq!(signed.priority_fee_or_price(), 10);
    assert_eq!(signed.effective_gas_price(None), 1000);
    assert!(signed.is_dynamic_fee());
    assert_eq!(signed.kind(), TxKind::Call(Address { bytes: [0x11; 20] }));
    assert!(!signed.is_create());
    assert_eq!(signed.value(), U256::from_u128(7));
    assert_eq!(signed.input(), &vec![1; 40]);
    assert_eq!(signed.access_list(), Some(&access_list()));
    assert_eq!(signed.blob_versioned_hashes().unwrap().len(), 2);
    assert_eq!(signed.authorization_list(), None);
    assert_eq!(signed.tx_type(), DiesisTxType::Eip4844);
    assert_eq!(signed.ty(), 3);
    assert_eq!(signed.blob_gas_used(), Some(262_144));
}
