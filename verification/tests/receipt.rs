use diesis::primitives::{AccessList, Address, Bytes, Signature, TxKind, B256, U256};
use diesis::receipt::{
    build_receipt, ethereum_rpc_receipt, BlobParams, ConvertReceiptInput, EthApiError,
    EthReceiptConverter, Log, Receipt, ReceiptEnvelope, ReceiptWithBloom, TransactionMeta,
    ML_DSA_RECEIPT_UNSUPPORTED,
};
use diesis::transaction::Transaction;
use diesis::transaction_signed::TransactionSigned;
use diesis::tx_ecdsa::{TxEip4844, TxLegacy};
use diesis::tx_type::DiesisTxType;

const META: TransactionMeta = TransactionMeta {
    tx_hash: B256 { bytes: [1; 32] },
    index: 2,
    block_hash: B256 { bytes: [3; 32] },
    block_number: 4,
    base_fee: Some(5),
    excess_blob_gas: Some(10 * 1024 * 1024),
    timestamp: 7,
};

fn receipt(tx_type: DiesisTxType) -> Receipt {
    Receipt {
        tx_type,
        success: true,
        cumulative_gas_used: 99,
        logs: vec![
            Log { address: Address { bytes: [1; 20] }, topics: vec![], data: vec![1] },
            Log {
                address: Address { bytes: [2; 20] },
                topics: vec![B256 { bytes: [9; 32] }],
                data: vec![],
            },
        ],
    }
}

fn input(transaction: Transaction, tx_type: DiesisTxType) -> ConvertReceiptInput {
    let signature = Signature { r: U256::from_u128(3), s: U256::from_u128(4), y_parity: true };
    ConvertReceiptInput {
        tx: TransactionSigned::new_unhashed(transaction, signature),
        signer: Address { bytes: [0x6a; 20] },
        meta: META,
        receipt: receipt(tx_type),
        gas_used: 21_000,
        next_log_index: 11,
    }
}

fn creation(nonce: u64) -> Transaction {
    Transaction::Legacy(TxLegacy {
        chain_id: None,
        nonce,
        gas_price: 30,
        gas_limit: 2,
        to: TxKind::Create,
        value: U256::zero(),
        input: Bytes::new(),
    })
}

fn blobs() -> Transaction {
    Transaction::Eip4844(TxEip4844 {
        chain_id: 1,
        nonce: 3,
        gas_limit: 50_000,
        max_fee_per_gas: 1000,
        max_priority_fee_per_gas: 10,
        to: Address { bytes: [4; 20] },
        value: U256::from_u128(7),
        access_list: AccessList::default(),
        blob_versioned_hashes: vec![B256 { bytes: [1; 32] }, B256 { bytes: [2; 32] }],
        max_fee_per_blob_gas: 99,
        input: vec![],
    })
}

fn cancun() -> BlobParams {
    BlobParams {
        target_blob_count: 3,
        max_blob_count: 6,
        update_fraction: 3_338_477,
        min_blob_fee: 1,
        max_blobs_per_tx: 6,
        blob_base_cost: 0,
    }
}

fn served(envelope: ReceiptEnvelope) -> ReceiptWithBloom {
    match envelope {
        ReceiptEnvelope::Legacy(served)
        | ReceiptEnvelope::Eip2930(served)
        | ReceiptEnvelope::Eip1559(served)
        | ReceiptEnvelope::Eip4844(served)
        | ReceiptEnvelope::Eip7702(served) => served,
    }
}

#[test]
fn logs_are_put_in_their_place() {
    let served = served(ethereum_rpc_receipt(receipt(DiesisTxType::Eip1559), 11, META).unwrap());
    assert!(served.status);
    assert_eq!(served.cumulative_gas_used, 99);
    assert_eq!(served.logs.len(), 2);
    for (i, log) in served.logs.iter().enumerate() {
        assert_eq!(log.block_hash, Some(META.block_hash));
        assert_eq!(log.block_number, Some(4));
        assert_eq!(log.block_timestamp, Some(7));
        assert_eq!(log.transaction_hash, Some(META.tx_hash));
        assert_eq!(log.transaction_index, Some(2));
        assert_eq!(log.log_index, Some(11 + i as u64));
        assert!(!log.removed);
    }
    assert_eq!(served.logs[0].inner.data, vec![1]);
    assert_eq!(served.logs[1].inner.topics, vec![B256 { bytes: [9; 32] }]);

    let mut expected = alloy_primitives::Bloom::ZERO;
    expected.accrue(alloy_primitives::BloomInput::Raw(&[1; 20]));
    expected.accrue(alloy_primitives::BloomInput::Raw(&[2; 20]));
    expected.accrue(alloy_primitives::BloomInput::Raw(&[9; 32]));
    assert_eq!(served.logs_bloom.bytes, expected.0 .0);
}

#[test]
fn receipts_are_wrapped_by_type() {
    assert!(matches!(
        ethereum_rpc_receipt(receipt(DiesisTxType::Legacy), 0, META),
        Ok(ReceiptEnvelope::Legacy(_))
    ));
    assert!(matches!(
        ethereum_rpc_receipt(receipt(DiesisTxType::Eip2930), 0, META),
        Ok(ReceiptEnvelope::Eip2930(_))
    ));
    assert!(matches!(
        ethereum_rpc_receipt(receipt(DiesisTxType::Eip1559), 0, META),
        Ok(ReceiptEnvelope::Eip1559(_))
    ));
    assert!(matches!(
        ethereum_rpc_receipt(receipt(DiesisTxType::Eip4844), 0, META),
        Ok(ReceiptEnvelope::Eip4844(_))
    ));
    assert!(matches!(
        ethereum_rpc_receipt(receipt(DiesisTxType::Eip7702), 0, META),
        Ok(ReceiptEnvelope::Eip7702(_))
    ));
    assert_eq!(
        ethereum_rpc_receipt(receipt(DiesisTxType::MlDsa), 0, META).err(),
        Some(EthApiError::Unsupported(ML_DSA_RECEIPT_UNSUPPORTED))
    );
}

#[test]
fn creations_have_a_contract_address() {
    // The contract that this account creates with nonce 1.
    let creator = "6ac7ea33f8831ea9dcc53393aaa88b25a785dbf0";
    let mut signer = [0; 20];
    signer.copy_from_slice(&alloy_primitives::hex::decode(creator).unwrap());
    let mut input = input(creation(1), DiesisTxType::Legacy);
    input.signer = Address { bytes: signer };
    let built = build_receipt(input, None, ethereum_rpc_receipt).unwrap();
    assert_eq!(built.to, None);
    assert_eq!(
        built.contract_address.map(|address| alloy_primitives::hex::encode(address.bytes)),
        Some(String::from("343c43a37d37dff08ae8c4a11544c718abb4fcf8"))
    );
    assert_eq!(built.effective_gas_price, 30);
    assert_eq!(built.blob_gas_price, None);
    assert_eq!(built.blob_gas_used, None);
    assert_eq!(built.transaction_hash, META.tx_hash);
    assert_eq!(built.transaction_index, Some(2));
    assert_eq!(built.block_hash, Some(META.block_hash));
    assert_eq!(built.block_number, Some(4));
    assert_eq!(built.from.bytes, signer);
    assert_eq!(built.gas_used, 21_000);
    assert_eq!(served(built.inner).logs[0].log_index, Some(11));
}

#[test]
fn blob_transactions_have_a_blob_fee() {
    let built =
        build_receipt(input(blobs(), DiesisTxType::Eip4844), Some(cancun()), ethereum_rpc_receipt)
            .unwrap();
    assert_eq!(built.blob_gas_used, Some(262_144));
    assert_eq!(built.blob_gas_price, Some(23));
    assert_eq!(built.to, Some(Address { bytes: [4; 20] }));
    assert_eq!(built.contract_address, None);
    assert_eq!(built.effective_gas_price, 15);

    let built =
        build_receipt(input(blobs(), DiesisTxType::Eip4844), None, ethereum_rpc_receipt).unwrap();
    assert_eq!(built.blob_gas_used, Some(262_144));
    assert_eq!(built.blob_gas_price, None);

    let mut before = input(blobs(), DiesisTxType::Eip4844);
    before.meta.excess_blob_gas = None;
    let built = build_receipt(before, Some(cancun()), ethereum_rpc_receipt).unwrap();
    assert_eq!(built.blob_gas_price, None);

    let built = build_receipt(
        input(creation(0), DiesisTxType::Legacy),
        Some(cancun()),
        ethereum_rpc_receipt,
    )
    .unwrap();
    assert_eq!(built.blob_gas_price, None);
}

#[test]
fn builders_can_fail() {
    let refused = build_receipt::<(), _>(
        input(creation(0), DiesisTxType::Legacy),
        None,
        |_, _, _| Err(EthApiError::Unsupported("nothing")),
    );
    assert_eq!(refused.err(), Some(EthApiError::Unsupported("nothing")));
}

#[test]
fn converter_stops_at_the_first_failure() {
    let chain_spec = |timestamp: u64| if timestamp >= 7 { Some(cancun()) } else { None };
    let converter = EthReceiptConverter::new(chain_spec);
    let built = converter
        .convert_receipts(vec![
            input(creation(0), DiesisTxType::Legacy),
            input(blobs(), DiesisTxType::Eip4844),
        ])
        .unwrap();
    assert_eq!(built.len(), 2);
    assert_eq!(built[0].blob_gas_price, None);
    assert_eq!(built[1].blob_gas_price, Some(23));

    let mut early = input(blobs(), DiesisTxType::Eip4844);
    early.meta.timestamp = 6;
    let built = converter.convert_receipts(vec![early]).unwrap();
    assert_eq!(built[0].blob_gas_price, None);

    let failed = converter.convert_receipts(vec![
        input(creation(0), DiesisTxType::Legacy),
        input(creation(0), DiesisTxType::MlDsa),
        input(blobs(), DiesisTxType::Eip4844),
    ]);
    assert_eq!(failed.err(), Some(EthApiError::Unsupported(ML_DSA_RECEIPT_UNSUPPORTED)));
    assert!(converter.convert_receipts(vec![]).unwrap().is_empty());
}

#[test]
fn converter_takes_other_builders() {
    let converter = EthReceiptConverter::new(|_: u64| -> Option<BlobParams> { None })
        .with_builder(|receipt: Receipt, next_log_index: usize, _: TransactionMeta| {
            Ok::<_, EthApiError>((receipt.cumulative_gas_used, next_log_index))
        });
    let built =
        converter.convert_receipts(vec![input(creation(0), DiesisTxType::MlDsa)]).unwrap();
    assert_eq!(built[0].inner, (99, 11));
}
