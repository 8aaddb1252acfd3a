use evm_tx::evm_transaction_builder::EVMTransactionBuilder;
use evm_tx::transaction_builder::{TransactionBuilder, TxBuilder};
use evm_tx::types::{Field, TxError};

#[test]
fn test_build_with_only_mandatory_fields() {
    let tx = EVMTransactionBuilder::new()
        .chain_id(1)
        .nonce(5)
        .gas_limit(21_000)
        .max_fee_per_gas(3_000_000_000)
        .build()
        .unwrap();
    assert_eq!(tx.chain_id, 1);
    assert_eq!(tx.nonce, 5);
    assert_eq!(tx.gas_limit, 21_000);
    assert_eq!(tx.max_fee_per_gas, 3_000_000_000);
    assert_eq!(tx.value, 0);
    assert_eq!(tx.max_priority_fee_per_gas, 0);
    assert!(tx.to.is_none());
    assert!(tx.input.is_empty());
    assert!(tx.access_list.is_empty());
}

#[test]
fn test_build_missing_gas_limit() {
    let r = EVMTransactionBuilder::new()
        .chain_id(1)
        .nonce(0)
        .max_fee_per_gas(100)
        .build();
    match r {
        Err(TxError::MandatoryFieldMissing(f)) => assert_eq!(f.name(), "gas_limit"),
        other => panic!("expected MandatoryFieldMissing, got {:?}", other),
    }
}

#[test]
fn test_build_missing_chain_id() {
    let r = EVMTransactionBuilder::new()
        .nonce(0)
        .gas_limit(1)
        .max_fee_per_gas(1)
        .build();
    assert_eq!(r.unwrap_err(), TxError::MandatoryFieldMissing(Field::ChainId));
}

#[test]
fn test_build_missing_nonce() {
    let r = EVMTransactionBuilder::new()
        .chain_id(1)
        .gas_limit(1)
        .max_fee_per_gas(1)
        .build();
    assert_eq!(r.unwrap_err(), TxError::MandatoryFieldMissing(Field::Nonce));
}

#[test]
fn test_build_missing_max_fee_per_gas() {
    let r = EVMTransactionBuilder::new()
        .chain_id(1)
        .nonce(0)
        .gas_limit(1)
        .build();
    match r {
        Err(TxError::MandatoryFieldMissing(f)) => assert_eq!(f.name(), "max_fee_per_gas"),
        other => panic!("expected MandatoryFieldMissing, got {:?}", other),
    }
}

#[test]
fn test_setters_last_write_wins() {
    let tx = EVMTransactionBuilder::new()
        .chain_id(1)
        .nonce(5)
        .nonce(9)
        .gas_limit(21_000)
        .max_fee_per_gas(100)
        .value(77)
        .value(88)
        .build()
        .unwrap();
    assert_eq!(tx.nonce, 9);
    assert_eq!(tx.value, 88);
}

#[test]
fn test_all_setters_reach_the_transaction() {
    let tx = EVMTransactionBuilder::new()
        .chain_id(5)
        .nonce(1)
        .to([0x11; 20])
        .value(42)
        .input(vec![1, 2, 3])
        .gas_limit(50_000)
        .max_fee_per_gas(200)
        .max_priority_fee_per_gas(10)
        .access_list(vec![([0x22; 20], vec![[0x33; 32]])])
        .build()
        .unwrap();
    assert_eq!(tx.chain_id, 5);
    assert_eq!(tx.nonce, 1);
    assert_eq!(tx.to, Some([0x11; 20]));
    assert_eq!(tx.value, 42);
    assert_eq!(tx.input, vec![1, 2, 3]);
    assert_eq!(tx.gas_limit, 50_000);
    assert_eq!(tx.max_fee_per_gas, 200);
    assert_eq!(tx.max_priority_fee_per_gas, 10);
    assert_eq!(tx.access_list.len(), 1);
    assert_eq!(tx.access_list[0].0, [0x22; 20]);
    assert_eq!(tx.access_list[0].1, vec![[0x33; 32]]);
}

#[test]
fn test_builder_can_build_repeatedly() {
    let b = EVMTransactionBuilder::new()
        .chain_id(1)
        .nonce(0)
        .gas_limit(21_000)
        .max_fee_per_gas(100)
        .input(vec![9, 9]);
    let tx1 = b.build().unwrap();
    let tx2 = b.build().unwrap();
    assert_eq!(tx1.input, tx2.input);
    // Transactions are independent copies: later builds do not share buffers.
    let b2 = b.input(vec![1]);
    let tx3 = b2.build().unwrap();
    assert_eq!(tx1.input, vec![9, 9]);
    assert_eq!(tx3.input, vec![1]);
}

#[test]
fn test_transaction_builder_new_yields_default_builder() {
    let b: EVMTransactionBuilder = TransactionBuilder::new::<EVMTransactionBuilder>();
    let b = b.chain_id(1).nonce(0).gas_limit(1).max_fee_per_gas(1);
    let r = TxBuilder::build(&b);
    assert!(r.is_ok());
}
