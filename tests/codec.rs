use hyperlane_base::codec::Codec;
use hyperlane_base::hash::{H256, H512};
use hyperlane_base::uint::U256;
use hyperlane_base::types::{
    GasPaymentKey, HyperlaneMessage, InterchainGasExpenditureData, InterchainGasPayment,
    InterchainGasPaymentData, InterchainGasPaymentMeta, MerkleTreeInsertion,
    PendingOperationStatus,
};

#[test]
fn integers_are_big_endian() {
    assert_eq!(0x01020304u32.encode(), vec![1, 2, 3, 4]);
    assert_eq!(0x0102030405060708u64.encode(), vec![1, 2, 3, 4, 5, 6, 7, 8]);
    assert_eq!(1u128.encode(), [vec![0u8; 15], vec![1]].concat());
    assert_eq!(u32::decode(&[1, 2, 3, 4]), Some(0x01020304));
    assert_eq!(u32::decode(&[1, 2, 3]), None);
    assert_eq!(u64::decode(&[0; 9]), None);
    assert_eq!(u128::decode(&(u128::MAX - 5).encode()), Some(u128::MAX - 5));
}

#[test]
fn flags_are_one_byte() {
    assert_eq!(true.encode(), vec![1]);
    assert_eq!(false.encode(), vec![0]);
    assert_eq!(bool::decode(&[1]), Some(true));
    assert_eq!(bool::decode(&[0]), Some(false));
    assert_eq!(bool::decode(&[2]), None);
    assert_eq!(bool::decode(&[]), None);
}

#[test]
fn records_round_trip() {
    for v in [0u32, 1, 0xdead_beef, u32::MAX] {
        assert_eq!(u32::decode(&v.encode()), Some(v));
    }
    for v in [0u64, 7, u64::MAX] {
        assert_eq!(u64::decode(&v.encode()), Some(v));
    }
    let h = H256([0xab; 32]);
    assert_eq!(H256::decode(&h.encode()).unwrap().0, h.0);
    assert!(H256::decode(&[0; 31]).is_none());
    let t = H512([0xcd; 64]);
    assert_eq!(H512::decode(&t.encode()).unwrap().0, t.0);

    let p = InterchainGasPayment {
        message_id: H256([3; 32]),
        destination: 77,
        payment: U256 { hi: 7, lo: 123456789 },
        gas_amount: U256::from_u128(42),
    };
    let q = InterchainGasPayment::decode(&p.encode()).unwrap();
    assert_eq!(
        (q.message_id.0, q.destination, q.payment, q.gas_amount),
        (p.message_id.0, 77, U256 { hi: 7, lo: 123456789 }, U256::from_u128(42))
    );
    assert_eq!(p.encode().len(), 32 + 4 + 32 + 32);

    let k = GasPaymentKey { message_id: H256([4; 32]), destination: 9 };
    let k2 = GasPaymentKey::decode(&k.encode()).unwrap();
    assert_eq!((k2.message_id.0, k2.destination), (k.message_id.0, 9));

    let d = InterchainGasPaymentData { payment: U256::from_u128(5), gas_amount: U256 { hi: u128::MAX, lo: 1 } };
    let d2 = InterchainGasPaymentData::decode(&d.encode()).unwrap();
    assert_eq!((d2.payment, d2.gas_amount), (U256::from_u128(5), U256 { hi: u128::MAX, lo: 1 }));

    let e = InterchainGasExpenditureData { tokens_used: U256::from_u128(8), gas_used: U256::from_u128(9) };
    let e2 = InterchainGasExpenditureData::decode(&e.encode()).unwrap();
    assert_eq!((e2.tokens_used, e2.gas_used), (U256::from_u128(8), U256::from_u128(9)));

    let m = InterchainGasPaymentMeta { transaction_id: H512([1; 64]), log_index: 3 };
    let m2 = InterchainGasPaymentMeta::decode(&m.encode()).unwrap();
    assert_eq!((m2.transaction_id.0, m2.log_index), (m.transaction_id.0, 3));

    let i = MerkleTreeInsertion { leaf_index: 12, message_id: H256([6; 32]) };
    let i2 = MerkleTreeInsertion::decode(&i.encode()).unwrap();
    assert_eq!((i2.leaf_index, i2.message_id.0), (12, i.message_id.0));

    for s in [
        PendingOperationStatus::FirstPrepareAttempt,
        PendingOperationStatus::Retry,
        PendingOperationStatus::ReadyToSubmit,
        PendingOperationStatus::Confirm,
    ] {
        assert_eq!(PendingOperationStatus::decode(&s.encode()), Some(s));
    }
    assert_eq!(PendingOperationStatus::decode(&[4]), None);
}

#[test]
fn message_encoding_layout() {
    let m = HyperlaneMessage {
        version: 3,
        nonce: 0x0a0b0c0d,
        origin: 1,
        sender: H256([0x11; 32]),
        destination: 2,
        recipient: H256([0x22; 32]),
        body: vec![0xff, 0xee],
    };
    let b = m.encode();
    assert_eq!(b.len(), 79);
    assert_eq!(&b[..5], &[3, 0x0a, 0x0b, 0x0c, 0x0d]);
    assert_eq!(&b[5..9], &[0, 0, 0, 1]);
    assert_eq!(&b[41..45], &[0, 0, 0, 2]);
    assert_eq!(&b[77..], &[0xff, 0xee]);
    let back = HyperlaneMessage::decode(&b).unwrap();
    assert_eq!(back.body, vec![0xff, 0xee]);
    assert_eq!((back.version, back.nonce, back.origin, back.destination), (3, 0x0a0b0c0d, 1, 2));
    assert_eq!(back.sender.0, [0x11; 32]);
    assert!(HyperlaneMessage::decode(&b[..76]).is_none());
    let empty = HyperlaneMessage::decode(&b[..77]).unwrap();
    assert!(empty.body.is_empty());
}

#[test]
fn u256_is_32_big_endian_bytes() {
    let v = U256 { hi: 1, lo: 2 };
    let b = v.encode();
    assert_eq!(b.len(), 32);
    assert_eq!(b[15], 1);
    assert_eq!(b[31], 2);
    assert_eq!(U256::decode(&b), Some(v));
    assert_eq!(U256 { hi: 0, lo: u128::MAX }.checked_add(&U256::from_u128(1)), Some(U256 { hi: 1, lo: 0 }));
    assert_eq!(U256 { hi: u128::MAX, lo: 0 }.checked_add(&U256 { hi: 1, lo: 0 }), None);
}
