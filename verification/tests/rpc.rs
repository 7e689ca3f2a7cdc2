use diesis::envelope::{EthereumTxEnvelope, TxEip4844Variant, ML_DSA_NOT_AN_ETHEREUM_ENVELOPE};
use diesis::primitives::{AccessList, Address, Bytes, Signature, TxKind, B256, U256};
use diesis::receipt::EthApiError;
use diesis::rpc::{RpcTransaction, TransactionInfo};
use diesis::transaction::Transaction;
use diesis::transaction_signed::TransactionSigned;
use diesis::tx_ecdsa::{TxEip1559, TxEip4844, TxLegacy};
use diesis::tx_ml_dsa::TxMlDsa;

const ZERO: Address = Address { bytes: [0; 20] };

fn signature() -> Signature {
    Signature { r: U256::from_u128(3), s: U256::from_u128(4), y_parity: true }
}

fn word(hex: &str) -> U256 {
    let bytes = alloy_primitives::hex::decode(hex).unwrap();
    let limbs = alloy_primitives::U256::from_be_slice(&bytes).into_limbs();
    U256 { w0: limbs[0], w1: limbs[1], w2: limbs[2], w3: limbs[3] }
}

fn test_signature() -> Signature {
    Signature {
        r: word("840cfc572845f5786e702984c2a582528cad4b49b2a10b9db1be7fca90058565"),
        s: word("25e7109ceb98168d95b09b18bbf6b685130e0562f233877d492b94eee0c5b6d1"),
        y_parity: false,
    }
}

fn ml_dsa() -> TransactionSigned {
    TransactionSigned::new(
        Transaction::MlDsa(TxMlDsa {
            chain_id: 1,
            nonce: 0,
            max_priority_fee_per_gas: 0,
            max_fee_per_gas: 0,
            gas_limit: 21_000,
            to: TxKind::Call(ZERO),
            value: U256::zero(),
            input: Bytes::new(),
            access_list: AccessList::default(),
            sender: ZERO,
            ml_dsa_level: 44,
            pubkey: Bytes::new(),
            ml_dsa_signature: Bytes::new(),
        }),
        test_signature(),
        B256 { bytes: [0; 32] },
    )
}

fn eip1559() -> TransactionSigned {
    TransactionSigned::new_unhashed(
        Transaction::Eip1559(TxEip1559 {
            chain_id: 1,
            nonce: 2,
            gas_limit: 21_000,
            max_fee_per_gas: 100,
            max_priority_fee_per_gas: 7,
            to: TxKind::Create,
            value: U256::zero(),
            access_list: AccessList::default(),
            input: vec![1],
        }),
        signature(),
    )
}

fn info(base_fee: Option<u64>) -> TransactionInfo {
    TransactionInfo {
        hash: None,
        index: Some(3),
        block_hash: Some(B256 { bytes: [2; 32] }),
        block_number: Some(50),
        base_fee,
        block_timestamp: Some(60),
    }
}

#[test]
fn test_fill_ml_dsa_tx_returns_error_instead_of_panicking() {
    let result = RpcTransaction::fill(ml_dsa(), ZERO, TransactionInfo::default());
    assert!(matches!(result, Err(EthApiError::Unsupported(_))), "{result:?}");
    assert_eq!(
        result.err(),
        Some(EthApiError::Unsupported(ML_DSA_NOT_AN_ETHEREUM_ENVELOPE))
    );
}

#[test]
fn ml_dsa_is_handed_back() {
    let error =
        RpcTransaction::from_consensus_tx(ml_dsa(), ZERO, TransactionInfo::default()).unwrap_err();
    assert_eq!(*error.value(), ml_dsa());
    assert_eq!(error.message(), ML_DSA_NOT_AN_ETHEREUM_ENVELOPE);
}

#[test]
fn served_with_place_and_price() {
    let signer = Address { bytes: [8; 20] };
    let served = RpcTransaction::fill(eip1559(), signer, info(Some(50))).unwrap();
    assert_eq!(served.signer, signer);
    assert_eq!(served.block_hash, Some(B256 { bytes: [2; 32] }));
    assert_eq!(served.block_number, Some(50));
    assert_eq!(served.transaction_index, Some(3));
    assert_eq!(served.block_timestamp, Some(60));
    assert_eq!(served.effective_gas_price, Some(57));
    assert_eq!(TransactionSigned::from(served), eip1559());
}

#[test]
fn served_gas_prices() {
    for (base_fee, price) in [
        (None, 100),
        (Some(0), 7),
        (Some(93), 100),
        (Some(99), 100),
        (Some(100), 100),
        (Some(101), 101),
    ] {
        let served = RpcTransaction::fill(eip1559(), ZERO, info(base_fee)).unwrap();
        assert_eq!(served.effective_gas_price, Some(price));
    }
    let legacy = TransactionSigned::new_unhashed(
        Transaction::Legacy(TxLegacy {
            chain_id: None,
            nonce: 0,
            gas_price: 30,
            gas_limit: 0,
            to: TxKind::Create,
            value: U256::zero(),
            input: vec![],
        }),
        signature(),
    );
    for (base_fee, price) in [(None, 30), (Some(3), 30), (Some(31), 31)] {
        let served = RpcTransaction::fill(legacy.clone(), ZERO, info(base_fee)).unwrap();
        assert_eq!(served.effective_gas_price, Some(price));
    }
}

#[test]
fn blob_transactions_are_served_bare() {
    let signed = TransactionSigned::new_unhashed(
        Transaction::Eip4844(TxEip4844 {
            chain_id: 1,
            nonce: 3,
            gas_limit: 50_000,
            max_fee_per_gas: 1000,
            max_priority_fee_per_gas: 10,
            to: ZERO,
            value: U256::from_u128(7),
            access_list: AccessList::default(),
            blob_versioned_hashes: vec![B256 { bytes: [1; 32] }],
            max_fee_per_blob_gas: 99,
            input: vec![],
        }),
        signature(),
    );
    let served = RpcTransaction::fill(signed.clone(), ZERO, info(None)).unwrap();
    match &served.inner {
        EthereumTxEnvelope::Eip4844(inner) => {
            assert!(matches!(inner.tx, TxEip4844Variant::TxEip4844(_)))
        }
        _ => panic!("a blob transaction"),
    }
    assert_eq!(TransactionSigned::from(served), signed);
}
