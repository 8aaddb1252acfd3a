use evm_tx::evm_transaction::EVMTransaction;
use evm_tx::types::Signature;

fn zero_tx() -> EVMTransaction {
    EVMTransaction {
        chain_id: 0,
        nonce: 0,
        to: None,
        value: 0,
        input: vec![],
        gas_limit: 0,
        max_fee_per_gas: 0,
        max_priority_fee_per_gas: 0,
        access_list: vec![],
    }
}

fn sample_tx() -> EVMTransaction {
    EVMTransaction {
        chain_id: 1,
        nonce: 7,
        to: Some([0xd8; 20]),
        value: 10_000_000_000_000_000u128,
        input: vec![0xde, 0xad, 0xbe, 0xef],
        gas_limit: 21_000,
        max_fee_per_gas: 100_000_000_000u128,
        max_priority_fee_per_gas: 2_000_000_000u128,
        access_list: vec![],
    }
}

fn rlp_reference_encoding(tx: &EVMTransaction, signature: Option<&Signature>) -> Vec<u8> {
    let mut stream = rlp::RlpStream::new();
    stream.append(&2u8);
    stream.begin_unbounded_list();
    let to: Vec<u8> = tx.to.map_or(vec![], |to| to.to_vec());
    stream.append(&tx.chain_id);
    stream.append(&tx.nonce);
    stream.append(&tx.max_priority_fee_per_gas);
    stream.append(&tx.max_fee_per_gas);
    stream.append(&tx.gas_limit);
    stream.append(&to);
    stream.append(&tx.value);
    stream.append(&tx.input);
    stream.begin_unbounded_list();
    for access in &tx.access_list {
        stream.begin_unbounded_list();
        stream.append(&access.0.to_vec());
        stream.begin_unbounded_list();
        for storage_key in &access.1 {
            stream.append(&storage_key.to_vec());
        }
        stream.finalize_unbounded_list();
        stream.finalize_unbounded_list();
    }
    stream.finalize_unbounded_list();
    if let Some(sig) = signature {
        stream.append(&sig.v);
        stream.append(&sig.r);
        stream.append(&sig.s);
    }
    stream.finalize_unbounded_list();
    stream.out().to_vec()
}

#[test]
fn test_type_byte_is_two() {
    let tx = sample_tx();
    let sig = Signature { v: 1, r: vec![0xaa; 32], s: vec![0xbb; 32] };
    assert_eq!(tx.build_for_signing()[0], 2u8);
    assert_eq!(tx.build_with_signature(&sig)[0], 2u8);
    assert_eq!(zero_tx().build_for_signing()[0], 2u8);
}

#[test]
fn test_encode_unsigned_deterministic() {
    let tx = sample_tx();
    assert_eq!(tx.build_for_signing(), tx.build_for_signing());
    let sig = Signature { v: 0, r: vec![1, 2, 3], s: vec![4, 5, 6] };
    assert_eq!(tx.build_with_signature(&sig), tx.build_with_signature(&sig));
}

#[test]
fn test_zero_fields_encode_as_empty_strings() {
    // Every zero integer encodes as 0x80 (empty byte string), never 0x00.
    let expected: Vec<u8> = vec![
        0x02, 0xc9, 0x80, 0x80, 0x80, 0x80, 0x80, 0x80, 0x80, 0x80, 0xc0,
    ];
    assert_eq!(zero_tx().build_for_signing(), expected);
}

#[test]
fn test_single_byte_value_encodes_as_itself() {
    let mut tx = zero_tx();
    tx.value = 5;
    let expected: Vec<u8> = vec![
        0x02, 0xc9, 0x80, 0x80, 0x80, 0x80, 0x80, 0x80, 0x05, 0x80, 0xc0,
    ];
    assert_eq!(tx.build_for_signing(), expected);
}

#[test]
fn test_unsigned_matches_rlp_crate() {
    for tx in [zero_tx(), sample_tx()] {
        assert_eq!(tx.build_for_signing(), rlp_reference_encoding(&tx, None));
    }
}

#[test]
fn test_signed_matches_rlp_crate() {
    let tx = sample_tx();
    let sig = Signature { v: 1, r: vec![0x11; 32], s: vec![0x22; 32] };
    assert_eq!(
        tx.build_with_signature(&sig),
        rlp_reference_encoding(&tx, Some(&sig))
    );
    let odd_sig = Signature { v: 27, r: vec![], s: vec![0x7f] };
    assert_eq!(
        tx.build_with_signature(&odd_sig),
        rlp_reference_encoding(&tx, Some(&odd_sig))
    );
}

#[test]
fn test_signature_strictly_appended() {
    // Payload is long enough that both encodings use a two-byte list header,
    // so the signed encoding is longer by exactly the three signature items.
    let mut tx = sample_tx();
    tx.input = vec![0xab; 100];
    let unsigned = tx.build_for_signing();
    let sig = Signature { v: 27, r: vec![0x11; 32], s: vec![0x22; 32] };
    let signed = tx.build_with_signature(&sig);
    // v = 27 encodes in 1 byte; r and s each in 1 + 32 bytes.
    assert_eq!(signed.len(), unsigned.len() + 1 + 33 + 33);
    // Both headers: 0xf8 then one length byte; the field items are unchanged.
    assert_eq!(unsigned[1], 0xf8);
    assert_eq!(signed[1], 0xf8);
    let payload_len = unsigned.len() - 3;
    assert_eq!(&signed[3..3 + payload_len], &unsigned[3..]);
}

#[test]
fn test_access_list_two_entries_structure() {
    let mut tx = sample_tx();
    tx.access_list = vec![
        ([0x01; 20], vec![[0xaa; 32]]),
        ([0x02; 20], vec![[0xbb; 32]]),
    ];
    let out = tx.build_for_signing();
    assert_eq!(out, rlp_reference_encoding(&tx, None));
    // Decode the outer list: nine items, the last being the access list.
    let outer = rlp::Rlp::new(&out[1..]);
    assert_eq!(outer.item_count().unwrap(), 9);
    let al = outer.at(8).unwrap();
    assert!(al.is_list());
    assert_eq!(al.item_count().unwrap(), 2);
    for (i, addr_byte, key_byte) in [(0usize, 0x01u8, 0xaau8), (1, 0x02, 0xbb)] {
        let entry = al.at(i).unwrap();
        assert_eq!(entry.item_count().unwrap(), 2);
        assert_eq!(entry.at(0).unwrap().data().unwrap(), &[addr_byte; 20]);
        let keys = entry.at(1).unwrap();
        assert_eq!(keys.item_count().unwrap(), 1);
        assert_eq!(keys.at(0).unwrap().data().unwrap(), &[key_byte; 32]);
    }
}

#[test]
fn test_contract_creation_encodes_empty_recipient() {
    let mut tx = sample_tx();
    tx.to = None;
    let out = tx.build_for_signing();
    assert_eq!(out, rlp_reference_encoding(&tx, None));
    let outer = rlp::Rlp::new(&out[1..]);
    assert_eq!(outer.at(5).unwrap().data().unwrap().len(), 0);
}

#[test]
fn test_large_payload_and_max_integers_match_rlp_crate() {
    // A payload beyond 255 bytes forces a two-byte length of length, and
    // u128::MAX forces the widest minimal-integer encoding.
    let tx = EVMTransaction {
        chain_id: u64::MAX,
        nonce: 0x1234_5678,
        to: Some([0x99; 20]),
        value: u128::MAX,
        input: vec![0x7e; 300],
        gas_limit: 1 << 64,
        max_fee_per_gas: 0x0100,
        max_priority_fee_per_gas: 0x7f,
        access_list: vec![([0x01; 20], vec![[0x02; 32], [0x03; 32]]), ([0x04; 20], vec![])],
    };
    assert_eq!(tx.build_for_signing(), rlp_reference_encoding(&tx, None));
    let sig = Signature { v: 1, r: vec![0x80; 33], s: vec![0x00; 32] };
    assert_eq!(
        tx.build_with_signature(&sig),
        rlp_reference_encoding(&tx, Some(&sig))
    );
}

#[test]
fn test_long_input_uses_long_string_header() {
    let mut tx = zero_tx();
    tx.input = vec![0x33; 60];
    let out = tx.build_for_signing();
    assert_eq!(out, rlp_reference_encoding(&tx, None));
    let outer = rlp::Rlp::new(&out[1..]);
    assert_eq!(outer.at(7).unwrap().data().unwrap(), &[0x33u8; 60][..]);
}
