use diesis::primitives::{
    AccessList, AccessListItem, Address, Signature, SignedAuthorization, TxKind, B256, U256,
};
use diesis::transaction::Transaction;
use diesis::transaction_signed::TransactionSigned;
use diesis::tx_ecdsa::{TxEip4844, TxEip7702, TxLegacy};
use diesis::tx_env::TxEnv;
use diesis::tx_ml_dsa::TxMlDsa;

const CALLER: Address = Address { bytes: [0xca; 20] };

fn signed(tx: Transaction) -> TransactionSigned {
    TransactionSigned::new_unhashed(
        tx,
        Signature { r: U256::from_u128(3), s: U256::from_u128(4), y_parity: true },
    )
}

fn access_list() -> AccessList {
    AccessList {
        items: vec![AccessListItem {
            address: Address { bytes: [8; 20] },
            storage_keys: vec![B256 { bytes: [1; 32] }],
        }],
    }
}

fn own(word: alloy_primitives::U256) -> U256 {
    let limbs = word.into_limbs();
    U256 { w0: limbs[0], w1: limbs[1], w2: limbs[2], w3: limbs[3] }
}

#[test]
fn ml_dsa_is_passed_like_a_dynamic_fee_transaction() {
    let tx = signed(Transaction::MlDsa(TxMlDsa {
        chain_id: 5,
        nonce: 6,
        max_priority_fee_per_gas: 7,
        max_fee_per_gas: 8,
        gas_limit: 9,
        to: TxKind::Create,
        value: U256::from_u128(10),
        input: vec![11],
        access_list: access_list(),
        sender: Address { bytes: [1; 20] },
        ml_dsa_level: 44,
        pubkey: vec![],
        ml_dsa_signature: vec![],
    }));
    for env in [
        TxEnv::from_recovered_tx(&tx, CALLER),
        TxEnv::from_encoded_tx(&tx, CALLER, tx.encoded_2718()),
    ] {
        assert_eq!(env.tx_type, 0x70);
        assert_eq!(env.caller, CALLER);
        assert_eq!(env.gas_limit, 9);
        assert_eq!(env.gas_price, 8);
        assert_eq!(env.kind, TxKind::Create);
        assert_eq!(env.value, U256::from_u128(10));
        assert_eq!(env.data, vec![11]);
        assert_eq!(env.nonce, 6);
        assert_eq!(env.chain_id, Some(5));
        assert_eq!(env.access_list, access_list());
        assert_eq!(env.gas_priority_fee, Some(7));
        assert!(env.blob_hashes.is_empty());
        assert_eq!(env.max_fee_per_blob_gas, 0);
        assert!(env.authorization_list.is_empty());
    }
}

#[test]
fn legacy_transactions_have_a_price_and_no_tip() {
    let tx = signed(Transaction::Legacy(TxLegacy {
        chain_id: None,
        nonce: 1,
        gas_price: 30,
        gas_limit: 2,
        to: TxKind::Call(Address { bytes: [3; 20] }),
        value: U256 { w0: 1, w1: 2, w2: 3, w3: 4 },
        input: vec![5, 6],
    }));
    for env in [
        TxEnv::from_recovered_tx(&tx, CALLER),
        TxEnv::from_encoded_tx(&tx, CALLER, tx.encoded_2718()),
    ] {
        assert_eq!(env.tx_type, 0);
        assert_eq!(env.caller, CALLER);
        assert_eq!(env.gas_limit, 2);
        assert_eq!(env.gas_price, 30);
        assert_eq!(env.gas_priority_fee, None);
        assert_eq!(env.kind, TxKind::Call(Address { bytes: [3; 20] }));
        assert_eq!(env.value, U256 { w0: 1, w1: 2, w2: 3, w3: 4 });
        assert_eq!(env.data, vec![5, 6]);
        assert_eq!(env.nonce, 1);
        assert_eq!(env.chain_id, None);
        assert_eq!(env.access_list, AccessList::default());
    }
}

#[test]
fn blob_transactions_have_hashes_and_blob_fee() {
    let tx = signed(Transaction::Eip4844(TxEip4844 {
        chain_id: 1,
        nonce: 3,
        gas_limit: 50_000,
        max_fee_per_gas: 1000,
        max_priority_fee_per_gas: 10,
        to: Address { bytes: [4; 20] },
        value: U256::from_u128(7),
        access_list: access_list(),
        blob_versioned_hashes: vec![B256 { bytes: [1; 32] }],
        max_fee_per_blob_gas: 99,
        input: vec![],
    }));
    let env = TxEnv::from_encoded_tx(&tx, CALLER, vec![]);
    assert_eq!(env.tx_type, 3);
    assert_eq!(env.blob_hashes, vec![B256 { bytes: [1; 32] }]);
    assert_eq!(env.max_fee_per_blob_gas, 99);
    assert_eq!(env.gas_priority_fee, Some(10));
    assert_eq!(env.access_list, access_list());
    assert_eq!(env.kind, TxKind::Call(Address { bytes: [4; 20] }));
}

#[test]
fn authorizations_come_with_their_signers() {
    let authorization = alloy_eips::eip7702::Authorization {
        chain_id: alloy_primitives::U256::from(1),
        address: [0x33; 20].into(),
        nonce: 6,
    };
    let secret = alloy_primitives::B256::repeat_byte(0x11);
    let signature = alloy_consensus::crypto::secp256k1::sign_message(
        secret,
        authorization.signature_hash(),
    )
    .unwrap();
    let auth = SignedAuthorization {
        chain_id: U256::from_u128(1),
        address: Address { bytes: [0x33; 20] },
        nonce: 6,
        y_parity: signature.v() as u8,
        r: own(signature.r()),
        s: own(signature.s()),
    };
    let mut odd_parity = auth;
    odd_parity.y_parity = 2;
    let tx = signed(Transaction::Eip7702(TxEip7702 {
        chain_id: 1,
        nonce: 4,
        gas_limit: 60_000,
        max_fee_per_gas: 2000,
        max_priority_fee_per_gas: 20,
        to: Address { bytes: [0x22; 20] },
        value: U256::zero(),
        access_list: AccessList::default(),
        authorization_list: vec![auth, odd_parity],
        input: vec![],
    }));
    let env = TxEnv::from_recovered_tx(&tx, CALLER);
    assert_eq!(env.tx_type, 4);
    assert_eq!(env.authorization_list.len(), 2);
    let first = env.authorization_list[0];
    assert_eq!(first.chain_id, U256::from_u128(1));
    assert_eq!(first.address, Address { bytes: [0x33; 20] });
    assert_eq!(first.nonce, 6);
    // The account of the key 0x11..11.
    assert_eq!(
        first.authority.map(|address| alloy_primitives::hex::encode(address.bytes)),
        Some(String::from("19e7e376e7c213b7e7e7e46cc70a5dd086daff2a"))
    );
    assert_eq!(env.authorization_list[1].authority, None);
}
