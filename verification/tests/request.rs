use diesis::primitives::{
    AccessList, Address, Signature, SignedAuthorization, TxKind, B256, U256,
};
use diesis::request::{SignTxRequestError, TransactionRequest, NOT_BUILDABLE};
use diesis::sidecar::{
    BlobTransactionSidecar, BlobTransactionSidecarEip7594, BlobTransactionSidecarVariant,
};
use diesis::transaction::Transaction;
use diesis::transaction_signed::TransactionSigned;
use diesis::tx_ecdsa::{TxEip1559, TxLegacy};

const TO: Address = Address { bytes: [7; 20] };

fn request() -> TransactionRequest {
    TransactionRequest {
        from: Some(Address { bytes: [6; 20] }),
        to: Some(TxKind::Call(TO)),
        gas_price: None,
        max_fee_per_gas: Some(200),
        max_priority_fee_per_gas: Some(10),
        max_fee_per_blob_gas: None,
        gas: Some(21_000),
        value: Some(U256 { w0: 1, w1: 2, w2: 3, w3: 4 }),
        input: Some(vec![1, 2, 3]),
        data: None,
        nonce: Some(5),
        chain_id: Some(77),
        access_list: None,
        transaction_type: None,
        blob_versioned_hashes: None,
        sidecar: None,
        authorization_list: None,
    }
}

fn eip1559() -> Transaction {
    Transaction::Eip1559(TxEip1559 {
        chain_id: 77,
        nonce: 5,
        gas_limit: 21_000,
        max_fee_per_gas: 200,
        max_priority_fee_per_gas: 10,
        to: TxKind::Call(TO),
        value: U256 { w0: 1, w1: 2, w2: 3, w3: 4 },
        access_list: AccessList::default(),
        input: vec![1, 2, 3],
    })
}

fn sidecar() -> BlobTransactionSidecarVariant {
    BlobTransactionSidecarVariant::Eip4844(BlobTransactionSidecar {
        blobs: vec![[0; 131_072]],
        commitments: vec![[3; 48]],
        proofs: vec![[4; 48]],
    })
}

fn built(request: TransactionRequest) -> Result<Transaction, SignTxRequestError<()>> {
    request.try_build()
}

#[test]
fn requests_make_dynamic_fee_transactions() {
    assert_eq!(built(request()), Ok(eip1559()));
}

#[test]
fn gas_prices_make_legacy_transactions() {
    let mut legacy = request();
    legacy.gas_price = Some(100);
    legacy.chain_id = None;
    legacy.input = None;
    legacy.data = Some(vec![9]);
    assert_eq!(
        built(legacy),
        Ok(Transaction::Legacy(TxLegacy {
            chain_id: None,
            nonce: 5,
            gas_price: 100,
            gas_limit: 21_000,
            to: TxKind::Call(TO),
            value: U256 { w0: 1, w1: 2, w2: 3, w3: 4 },
            input: vec![9],
        }))
    );
    let mut listed = request();
    listed.gas_price = Some(100);
    listed.access_list = Some(AccessList::default());
    assert_eq!(built(listed).unwrap().ty(), 1);
}

#[test]
fn authorizations_make_set_code_transactions() {
    let auth = SignedAuthorization {
        chain_id: U256::from_u128(1),
        address: Address { bytes: [0x33; 20] },
        nonce: 6,
        y_parity: 1,
        r: U256::from_u128(0x80),
        s: U256::from_u128(0x7f),
    };
    let mut delegating = request();
    delegating.authorization_list = Some(vec![auth]);
    delegating.transaction_type = Some(2);
    let tx = built(delegating).unwrap();
    assert_eq!(tx.ty(), 4);
    assert_eq!(tx.authorization_list(), Some(&[auth][..]));
}

#[test]
fn sidecars_make_blob_transactions() {
    let mut blobs = request();
    blobs.sidecar = Some(sidecar());
    blobs.max_fee_per_blob_gas = Some(3);
    let tx = built(blobs).unwrap();
    assert_eq!(tx.ty(), 3);
    let hash = alloy_eips::eip4844::kzg_to_versioned_hash(&[3; 48]);
    assert_eq!(tx.blob_versioned_hashes(), Some(&[B256 { bytes: hash.0 }][..]));
    assert_eq!(tx.max_fee_per_blob_gas(), Some(3));

    // Without its sidecar a blob transaction can be executed, but not sent.
    let mut hashes = request();
    hashes.blob_versioned_hashes = Some(vec![B256 { bytes: [1; 32] }]);
    hashes.max_fee_per_blob_gas = Some(3);
    assert_eq!(built(hashes), Err(SignTxRequestError::InvalidTransactionRequest));
    let mut hashes = request();
    hashes.blob_versioned_hashes = Some(vec![B256 { bytes: [1; 32] }]);
    hashes.max_fee_per_blob_gas = Some(3);
    let simulated = hashes.try_into_sim_tx().unwrap();
    assert_eq!(simulated.blob_versioned_hashes(), Some(&[B256 { bytes: [1; 32] }][..]));
}

#[test]
fn incomplete_requests_make_nothing() {
    let mut incomplete = request();
    incomplete.nonce = None;
    assert_eq!(built(incomplete), Err(SignTxRequestError::InvalidTransactionRequest));
}

#[test]
fn signatures_are_attached() {
    let signature = Signature { r: U256::from_u128(3), s: U256::from_u128(4), y_parity: true };
    assert_eq!(
        TransactionRequest::finish_signing::<&str>(eip1559(), Ok(signature)),
        Ok(TransactionSigned::new_unhashed(eip1559(), signature))
    );
    assert_eq!(
        TransactionRequest::finish_signing(eip1559(), Err("locked")),
        Err(SignTxRequestError::SignerError("locked"))
    );
}

#[test]
fn simulated_transactions_have_a_dummy_signature() {
    let dummy = Signature { r: U256::zero(), s: U256::zero(), y_parity: false };
    let simulated = request().try_into_sim_tx().unwrap();
    assert_eq!(*simulated.signature(), dummy);
    assert_eq!(simulated, TransactionSigned::new_unhashed(eip1559(), dummy));
}

#[test]
fn unbuildable_requests_are_handed_back() {
    let mut incomplete = request();
    incomplete.gas = None;
    incomplete.data = Some(vec![4]);
    incomplete.access_list = Some(AccessList::default());
    incomplete.max_fee_per_blob_gas = Some(1);
    incomplete.transaction_type = Some(2);
    let error = incomplete.try_into_sim_tx().unwrap_err();
    assert_eq!(error.message(), NOT_BUILDABLE);
    let back = error.into_value();
    assert_eq!(back.from, Some(Address { bytes: [6; 20] }));
    assert_eq!(back.to, Some(TxKind::Call(TO)));
    assert_eq!(back.gas_price, None);
    assert_eq!(back.max_fee_per_gas, Some(200));
    assert_eq!(back.max_priority_fee_per_gas, Some(10));
    assert_eq!(back.max_fee_per_blob_gas, Some(1));
    assert_eq!(back.gas, None);
    assert_eq!(back.value, Some(U256 { w0: 1, w1: 2, w2: 3, w3: 4 }));
    assert_eq!(back.input, Some(vec![1, 2, 3]));
    assert_eq!(back.data, Some(vec![4]));
    assert_eq!(back.nonce, Some(5));
    assert_eq!(back.chain_id, Some(77));
    assert_eq!(back.access_list, Some(AccessList::default()));
    assert_eq!(back.transaction_type, Some(2));
    assert_eq!(back.authorization_list, None);
}

#[test]
fn sidecars_are_lost_on_the_way_back() {
    let mut incomplete = request();
    incomplete.gas = None;
    incomplete.sidecar = Some(BlobTransactionSidecarVariant::Eip7594(
        BlobTransactionSidecarEip7594 {
            blobs: vec![],
            commitments: vec![[3; 48]],
            cell_proofs: vec![[5; 48]],
        },
    ));
    let back = incomplete.try_into_sim_tx().unwrap_err().into_value();
    assert!(back.sidecar.is_none());
    let hash = alloy_eips::eip4844::kzg_to_versioned_hash(&[3; 48]);
    assert_eq!(back.blob_versioned_hashes, Some(vec![B256 { bytes: hash.0 }]));

    // A request for another type of transaction keeps it.
    let mut delegating = request();
    delegating.gas = None;
    delegating.sidecar = Some(sidecar());
    delegating.authorization_list = Some(vec![]);
    let back = delegating.try_into_sim_tx().unwrap_err().into_value();
    match back.sidecar {
        Some(BlobTransactionSidecarVariant::Eip4844(sidecar)) => {
            assert_eq!(sidecar.blobs.len(), 1);
            assert_eq!(sidecar.commitments, vec![[3; 48]]);
            assert_eq!(sidecar.proofs, vec![[4; 48]]);
        }
        _ => panic!("the sidecar that was given"),
    }
}
