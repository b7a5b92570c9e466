use hyperlane_base::codec::Codec;
use hyperlane_base::hash::{H256, H512};
use hyperlane_base::keys::{make_storage_key, Column};
use hyperlane_base::kv::MemoryDb;
use hyperlane_base::model::DbError;
use hyperlane_base::store::HyperlaneRocksDB;
use hyperlane_base::uint::U256;
use hyperlane_base::types::{
    GasPaymentKey, HyperlaneDomain, HyperlaneMessage, Indexed, InterchainGasExpenditure,
    InterchainGasPayment, LogMeta, MerkleTreeInsertion, PendingOperationStatus,
};

fn domain() -> HyperlaneDomain {
    HyperlaneDomain { name: "test1".to_string(), id: 13371 }
}

fn store() -> HyperlaneRocksDB {
    HyperlaneRocksDB::new(&domain(), MemoryDb::new())
}

fn message(nonce: u32, body: Vec<u8>) -> HyperlaneMessage {
    HyperlaneMessage {
        version: 3,
        nonce,
        origin: 13371,
        sender: H256([1u8; 32]),
        destination: 13372,
        recipient: H256([2u8; 32]),
        body,
    }
}

fn meta(block_number: u64, tx: u8, log_index: u64) -> LogMeta {
    LogMeta {
        address: H256([9u8; 32]),
        block_number,
        block_hash: H256([8u8; 32]),
        transaction_id: H512([tx; 64]),
        transaction_index: 0,
        log_index,
    }
}

fn payment(id: u8, destination: u32, amount: u128, gas: u128) -> InterchainGasPayment {
    InterchainGasPayment {
        message_id: H256([id; 32]),
        destination,
        payment: U256::from_u128(amount),
        gas_amount: U256::from_u128(gas),
    }
}

fn wide(hi: u128, lo: u128) -> U256 {
    U256 { hi, lo }
}

fn total_wide(db: &HyperlaneRocksDB, id: u8, destination: u32) -> Option<(U256, U256)> {
    db.retrieve_gas_payment_by_gas_payment_key(GasPaymentKey {
        message_id: H256([id; 32]),
        destination,
    })
    .unwrap()
    .map(|p| (p.payment, p.gas_amount))
}

fn total(db: &HyperlaneRocksDB, id: u8, destination: u32) -> Option<(u128, u128)> {
    db.retrieve_gas_payment_by_gas_payment_key(GasPaymentKey {
        message_id: H256([id; 32]),
        destination,
    })
    .unwrap()
    .map(|p| {
        assert_eq!((p.payment.hi, p.gas_amount.hi), (0, 0));
        (p.payment.lo, p.gas_amount.lo)
    })
}

#[test]
fn store_message_twice_stores_once() {
    let mut db = store();
    let m = message(7, vec![1, 2, 3]);
    assert_eq!(db.store_message(&m, 100), Ok(true));
    assert_eq!(db.store_message(&m, 200), Ok(false));
    assert_eq!(db.retrieve_message_block_number_by_sequence(7), Ok(Some(100)));
    let back = db.retrieve_message_by_nonce(7).unwrap().unwrap();
    assert_eq!(back.body, vec![1, 2, 3]);
    assert_eq!(back.nonce, 7);
    assert_eq!(back.recipient.0, [2u8; 32]);
    assert_eq!(db.retrieve_message_id_by_nonce(&7).unwrap().unwrap().0, m.id().0);
}

#[test]
fn missing_message_is_absent() {
    let db = store();
    assert!(db.retrieve_message_by_nonce(0).unwrap().is_none());
    assert!(db.retrieve_message_by_sequence(4).unwrap().is_none());
    assert_eq!(db.retrieve_highest_seen_message_nonce(), Ok(None));
}

#[test]
fn highest_seen_nonce_is_the_maximum() {
    let mut db = store();
    for n in [5u32, 3, 9, 1] {
        assert_eq!(db.store_message(&message(n, vec![]), 10), Ok(true));
    }
    assert_eq!(db.retrieve_highest_seen_message_nonce(), Ok(Some(9)));
}

#[test]
fn highest_seen_nonce_update_keeps_the_larger() {
    let mut db = store();
    assert_eq!(db.try_update_max_seen_message_nonce(4), Ok(()));
    assert_eq!(db.try_update_max_seen_message_nonce(2), Ok(()));
    assert_eq!(db.retrieve_highest_seen_message_nonce(), Ok(Some(4)));
    assert_eq!(db.try_update_max_seen_message_nonce(4), Ok(()));
    assert_eq!(db.try_update_max_seen_message_nonce(u32::MAX), Ok(()));
    assert_eq!(db.retrieve_highest_seen_message_nonce(), Ok(Some(u32::MAX)));
}

#[test]
fn message_batch_counts_new_messages() {
    let mut db = store();
    let logs = vec![
        (Indexed::new(message(0, vec![]), Some(0)), meta(1, 1, 0)),
        (Indexed::new(message(1, vec![]), Some(1)), meta(1, 1, 1)),
        (Indexed::new(message(0, vec![5]), Some(0)), meta(2, 2, 0)),
    ];
    assert_eq!(db.store_message_logs(&logs), Ok(2));
    assert_eq!(db.store_message_logs(&logs), Ok(0));
    assert_eq!(db.store_message_logs(&[]), Ok(0));
    assert_eq!(db.retrieve_message_block_number_by_sequence(0), Ok(Some(1)));
    assert!(db.retrieve_message_by_nonce(0).unwrap().unwrap().body.is_empty());
}

#[test]
fn corrupt_highest_nonce_is_a_decode_error() {
    let mut db = store();
    db.store_keyed(Column::HighestSeenMessageNonce, &false, &7u64);
    assert_eq!(db.retrieve_highest_seen_message_nonce(), Err(DbError::Decode));
    assert_eq!(db.store_message(&message(1, vec![]), 1), Err(DbError::Decode));
    assert!(db.retrieve_message_by_nonce(1).unwrap().is_none());
    let logs = vec![(Indexed::new(message(2, vec![]), None), meta(1, 1, 0))];
    assert_eq!(db.store_message_logs(&logs), Err(DbError::Decode));
}

#[test]
fn gas_payments_sum_in_either_order() {
    let p1 = payment(4, 11, 100, 7);
    let p2 = payment(4, 11, 250, 3);
    let mut a = store();
    assert_eq!(a.process_gas_payment(p1, &meta(1, 1, 0)), Ok(true));
    assert_eq!(a.process_gas_payment(p2, &meta(1, 1, 1)), Ok(true));
    let mut b = store();
    assert_eq!(b.process_gas_payment(p2, &meta(1, 1, 1)), Ok(true));
    assert_eq!(b.process_gas_payment(p1, &meta(1, 1, 0)), Ok(true));
    assert_eq!(total(&a, 4, 11), Some((350, 10)));
    assert_eq!(total(&b, 4, 11), Some((350, 10)));
    assert_eq!(total(&a, 4, 12), None);
}

#[test]
fn gas_payment_with_same_processing_key_is_ignored() {
    let mut db = store();
    let m = meta(1, 6, 2);
    assert_eq!(db.process_gas_payment(payment(4, 11, 100, 7), &m), Ok(true));
    assert_eq!(db.process_gas_payment(payment(4, 11, 100, 7), &m), Ok(false));
    assert_eq!(db.process_gas_payment(payment(4, 11, 900, 9), &meta(55, 6, 2)), Ok(false));
    assert_eq!(total(&db, 4, 11), Some((100, 7)));
}

#[test]
fn gas_payment_overflow_is_an_error() {
    let mut db = store();
    let mut p = payment(1, 1, 0, 0);
    p.payment = wide(u128::MAX, u128::MAX);
    assert_eq!(db.process_gas_payment(p, &meta(1, 1, 0)), Ok(true));
    assert_eq!(
        db.process_gas_payment(payment(1, 1, 1, 0), &meta(1, 1, 1)),
        Err(DbError::Overflow)
    );
    assert_eq!(total_wide(&db, 1, 1), Some((wide(u128::MAX, u128::MAX), wide(0, 0))));
    // The failed log was not marked processed.
    assert_eq!(db.process_gas_payment(payment(1, 1, 0, 5), &meta(1, 1, 1)), Ok(true));
    assert_eq!(total_wide(&db, 1, 1), Some((wide(u128::MAX, u128::MAX), wide(0, 5))));
}

#[test]
fn gas_payment_totals_carry_past_128_bits() {
    let mut db = store();
    assert_eq!(db.process_gas_payment(payment(2, 1, u128::MAX, 1), &meta(1, 1, 0)), Ok(true));
    assert_eq!(db.process_gas_payment(payment(2, 1, 3, u128::MAX), &meta(1, 1, 1)), Ok(true));
    assert_eq!(total_wide(&db, 2, 1), Some((wide(1, 2), wide(1, 0))));
}

#[test]
fn unsequenced_payment_is_summed_but_not_indexed() {
    let mut db = store();
    let p = payment(3, 2, 40, 4);
    assert_eq!(db.process_indexed_gas_payment(Indexed::new(p, None), &meta(9, 1, 0)), Ok(true));
    assert_eq!(total(&db, 3, 2), Some((40, 4)));
    assert!(db.retrieve_gas_payment_by_sequence(0).unwrap().is_none());
    assert!(db.retrieve_gas_payment_block_number_by_sequence(0).unwrap().is_none());
}

#[test]
fn sequenced_payment_is_indexed_once() {
    let mut db = store();
    let p = payment(3, 2, 40, 4);
    assert_eq!(db.process_indexed_gas_payment(Indexed::new(p, Some(6)), &meta(9, 1, 0)), Ok(true));
    let back = db.retrieve_gas_payment_by_sequence(6).unwrap().unwrap();
    assert_eq!((back.payment, back.gas_amount, back.destination), (wide(0, 40), wide(0, 4), 2));
    assert_eq!(db.retrieve_gas_payment_block_number_by_sequence(6), Ok(Some(9)));
    // A new log with a sequence already recorded is summed, yet reported false.
    let q = payment(3, 2, 1, 1);
    assert_eq!(db.process_indexed_gas_payment(Indexed::new(q, Some(6)), &meta(10, 2, 0)), Ok(false));
    assert_eq!(total(&db, 3, 2), Some((41, 5)));
    assert_eq!(db.retrieve_gas_payment_block_number_by_sequence(6), Ok(Some(9)));
}

#[test]
fn gas_payment_batch_counts_new_payments() {
    let mut db = store();
    let logs = vec![
        (Indexed::new(payment(1, 1, 10, 1), Some(0)), meta(1, 1, 0)),
        (Indexed::new(payment(1, 1, 10, 1), Some(0)), meta(1, 1, 0)),
        (Indexed::new(payment(1, 1, 5, 1), Some(1)), meta(2, 1, 1)),
    ];
    assert_eq!(db.store_gas_payment_logs(&logs), Ok(2));
    assert_eq!(total(&db, 1, 1), Some((15, 2)));
}

#[test]
fn gas_expenditures_accumulate() {
    let mut db = store();
    let id = H256([5u8; 32]);
    let none = db.retrieve_gas_expenditure_by_message_id(id).unwrap();
    assert_eq!((none.tokens_used, none.gas_used), (wide(0, 0), wide(0, 0)));
    let e = InterchainGasExpenditure {
        message_id: id,
        tokens_used: U256::from_u128(30),
        gas_used: U256::from_u128(3),
    };
    assert_eq!(db.process_gas_expenditure(e), Ok(()));
    assert_eq!(db.process_gas_expenditure(e), Ok(()));
    let t = db.retrieve_gas_expenditure_by_message_id(id).unwrap();
    assert_eq!((t.tokens_used, t.gas_used), (wide(0, 60), wide(0, 6)));
    let big = InterchainGasExpenditure {
        message_id: id,
        tokens_used: wide(u128::MAX, u128::MAX),
        gas_used: wide(0, 0),
    };
    assert_eq!(db.process_gas_expenditure(big), Err(DbError::Overflow));
}

#[test]
fn first_tree_insertion_at_a_leaf_wins() {
    let mut db = store();
    let a = MerkleTreeInsertion { leaf_index: 3, message_id: H256([1u8; 32]) };
    let b = MerkleTreeInsertion { leaf_index: 3, message_id: H256([2u8; 32]) };
    assert_eq!(db.process_tree_insertion(&a, 50), Ok(true));
    assert_eq!(db.process_tree_insertion(&b, 60), Ok(false));
    let back = db.retrieve_tree_insertion_by_sequence(3).unwrap().unwrap();
    assert_eq!(back.message_id.0, [1u8; 32]);
    assert_eq!(db.retrieve_tree_insertion_block_number_by_sequence(3), Ok(Some(50)));
    assert_eq!(db.retrieve_merkle_leaf_index_by_message_id(&H256([1u8; 32])), Ok(Some(3)));
    assert_eq!(db.retrieve_merkle_leaf_index_by_message_id(&H256([2u8; 32])), Ok(None));
}

#[test]
fn tree_insertion_batch_counts_new_leaves() {
    let mut db = store();
    let ins = |i: u32, id: u8| MerkleTreeInsertion { leaf_index: i, message_id: H256([id; 32]) };
    let logs = vec![
        (Indexed::new(ins(0, 1), Some(0)), meta(1, 1, 0)),
        (Indexed::new(ins(1, 1), Some(1)), meta(2, 1, 1)),
        (Indexed::new(ins(0, 2), Some(0)), meta(3, 1, 2)),
    ];
    assert_eq!(db.store_tree_insertion_logs(&logs), Ok(2));
    assert_eq!(db.retrieve_merkle_leaf_index_by_message_id(&H256([1u8; 32])), Ok(Some(1)));
    assert_eq!(db.retrieve_merkle_tree_insertion_block_number_by_leaf_index(&1), Ok(Some(2)));
}

#[test]
fn watermark_keeps_the_last_value_stored() {
    let mut db = store();
    assert_eq!(db.retrieve_high_watermark(), Ok(None));
    assert_eq!(db.store_high_watermark(100), Ok(()));
    assert_eq!(db.store_high_watermark(50), Ok(()));
    assert_eq!(db.retrieve_high_watermark(), Ok(Some(50)));
}

#[test]
fn status_and_retry_count_round_trip() {
    let mut db = store();
    let id = H256([7u8; 32]);
    db.store_status_by_message_id(&id, &PendingOperationStatus::ReadyToSubmit);
    db.store_pending_message_retry_count_by_message_id(&id, &3);
    db.store_processed_by_nonce(&4, &true);
    assert_eq!(db.retrieve_status_by_message_id(&id), Ok(Some(PendingOperationStatus::ReadyToSubmit)));
    assert_eq!(db.retrieve_pending_message_retry_count_by_message_id(&id), Ok(Some(3)));
    assert_eq!(db.retrieve_processed_by_nonce(&4), Ok(Some(true)));
    assert_eq!(db.retrieve_processed_by_nonce(&5), Ok(None));
}

#[test]
fn domains_sharing_a_substrate_do_not_collide() {
    let mut a = store();
    assert_eq!(a.store_message(&message(1, vec![1]), 5), Ok(true));
    let other = HyperlaneDomain { name: "test2".to_string(), id: 13372 };
    let mut b = HyperlaneRocksDB::new(&other, a.into_inner());
    assert!(b.retrieve_message_by_nonce(1).unwrap().is_none());
    assert_eq!(b.store_message(&message(1, vec![2]), 6), Ok(true));
    assert_eq!(b.domain().id, 13372);
    let a = HyperlaneRocksDB::new(&domain(), b.into_inner());
    assert_eq!(a.retrieve_message_by_nonce(1).unwrap().unwrap().body, vec![1]);
}

#[test]
fn storage_key_layout() {
    let k = make_storage_key(1, Column::MessageIdByNonce, &[0, 0, 0, 5]);
    let mut expected = vec![0u8, 0, 0, 1, 0];
    expected.extend_from_slice(b"message_id_");
    expected.extend_from_slice(&[0, 0, 0, 5]);
    assert_eq!(k, expected);
    let w = make_storage_key(258, Column::GasPaymentHighWatermark, &[0]);
    assert_eq!(&w[..5], &[0u8, 0, 1, 2, 15]);
    assert_eq!(&w[5..w.len() - 1], b"latest_indexed_gas_payment_block");
}

#[test]
fn message_id_is_a_digest_of_the_encoding() {
    let m = message(1, vec![1, 2, 3]);
    let encoded = m.encode();
    assert_eq!(encoded.len(), 77 + 3);
    let id = m.id();
    assert_ne!(&id.0[..], &encoded[..32]);
    assert_eq!(id.0, message(1, vec![1, 2, 3]).id().0);
    assert_ne!(id.0, message(1, vec![1, 2, 4]).id().0);
    assert_ne!(id.0, message(2, vec![1, 2, 3]).id().0);
}

fn highest_and_first<P: hyperlane_base::store::ProcessMessage>(p: &P) -> (Option<u32>, Option<u32>) {
    let highest = p.retrieve_highest_seen_message_nonce().unwrap();
    let first = p.retrieve_message_by_nonce(0).unwrap().map(|m| m.nonce);
    (highest, first)
}

#[test]
fn process_message_reads_through_the_trait() {
    let mut db = store();
    assert_eq!(highest_and_first(&db), (None, None));
    assert_eq!(db.store_message(&message(0, vec![]), 1), Ok(true));
    assert_eq!(db.store_message(&message(2, vec![]), 1), Ok(true));
    db.store_processed_by_nonce(&0, &true);
    assert_eq!(highest_and_first(&db), (Some(2), Some(0)));
    assert_eq!(
        hyperlane_base::store::ProcessMessage::retrieve_processed_by_nonce(&db, 0),
        Ok(Some(true))
    );
    assert_eq!(hyperlane_base::store::ProcessMessage::domain(&db).id, 13371);
}

#[test]
fn message_is_stored_under_the_given_id() {
    let mut db = store();
    let m = message(3, vec![9]);
    let id = H256([0x42; 32]);
    assert_eq!(db.store_message_with_id(&m, &id, 12), Ok(true));
    assert_eq!(db.retrieve_message_id_by_nonce(&3).unwrap().unwrap().0, [0x42; 32]);
    assert_eq!(db.store_message_with_id(&m, &H256([0x43; 32]), 13), Ok(false));
    assert_eq!(db.store_message(&m, 14), Ok(false));
    assert_eq!(db.retrieve_message_id_by_nonce(&3).unwrap().unwrap().0, [0x42; 32]);
    assert_eq!(db.retrieve_message_block_number_by_sequence(3), Ok(Some(12)));
}

#[test]
fn undecodable_id_under_a_nonce_is_an_error() {
    let mut db = store();
    db.store_keyed(Column::MessageIdByNonce, &4u32, &1u8);
    assert_eq!(db.store_message(&message(4, vec![]), 1), Err(DbError::Decode));
    assert_eq!(db.retrieve_message_by_nonce(4).unwrap_err(), DbError::Decode);
    assert_eq!(db.retrieve_message_block_number_by_sequence(4), Ok(None));
    assert_eq!(db.retrieve_highest_seen_message_nonce(), Ok(None));
}

#[test]
fn undecodable_tree_insertion_is_an_error() {
    let mut db = store();
    db.store_keyed(Column::MerkleTreeInsertionByLeafIndex, &2u32, &7u64);
    let ins = MerkleTreeInsertion { leaf_index: 2, message_id: H256([1u8; 32]) };
    assert_eq!(db.process_tree_insertion(&ins, 9), Err(DbError::Decode));
    assert_eq!(db.retrieve_merkle_leaf_index_by_message_id(&H256([1u8; 32])), Ok(None));
    assert_eq!(db.retrieve_tree_insertion_block_number_by_sequence(2), Ok(None));
}

#[test]
fn undecodable_sequenced_payment_is_an_error() {
    let mut db = store();
    db.store_keyed(Column::GasPaymentBySequence, &8u32, &true);
    let p = payment(3, 2, 40, 4);
    assert_eq!(
        db.process_indexed_gas_payment(Indexed::new(p, Some(8)), &meta(9, 1, 0)),
        Err(DbError::Decode)
    );
    assert_eq!(db.retrieve_gas_payment_block_number_by_sequence(8), Ok(None));
}

#[test]
fn unsequenced_payments_never_appear_by_sequence() {
    let mut db = store();
    for (i, amount) in [10u128, 20, 30, 40].iter().enumerate() {
        let p = payment(1, 5, *amount, 1);
        assert_eq!(
            db.process_indexed_gas_payment(Indexed::new(p, None), &meta(i as u64, 3, i as u64)),
            Ok(true)
        );
    }
    assert_eq!(total(&db, 1, 5), Some((100, 4)));
    for s in 0..8u32 {
        assert!(db.retrieve_gas_payment_by_sequence(s).unwrap().is_none());
        assert!(db.retrieve_gas_payment_block_number_by_sequence(s).unwrap().is_none());
    }
}
