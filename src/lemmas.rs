//! What holds across calls of the store's ingestion operations.
use vstd::prelude::*;
use crate::codec::{lemma_encode_injective, Codec};
use crate::hash::H256;
use crate::uint::{lemma_from_value, lemma_value_bounds, modulus, U256};
use crate::keys::{lemma_storage_key_injective, storage_key, Column};
use crate::model::{
    gas_payment_step, indexed_gas_payment_step, key_of, lookup, message_step, payment_key,
    payment_meta, tree_insertion_step, message_step_with_id, unwrap_or_zero, raise_highest,
    message_by_nonce, gas_payment_logs, add_payment, payment_base, DbError,
};
use crate::types::{
    message_id, HyperlaneMessage, Indexed, InterchainGasPayment, InterchainGasPaymentData, InterchainGasPaymentMeta, GasPaymentKey,
    LogMeta, MerkleTreeInsertion, MessageView,
};

verus! {

/// Keys of two different columns differ.
pub proof fn lemma_key_of_other_column<K1: Codec, K2: Codec>(
    d: u32,
    c1: Column,
    k1: K1::V,
    c2: Column,
    k2: K2::V,
)
    requires
        c1 != c2,
    ensures
        key_of::<K1>(d, c1, k1) != key_of::<K2>(d, c2, k2),
{
    if key_of::<K1>(d, c1, k1) == key_of::<K2>(d, c2, k2) {
        lemma_storage_key_injective(d, c1, K1::spec_encode(k1), d, c2, K2::spec_encode(k2));
    }
}

/// Keys of two different values in one column differ.
pub proof fn lemma_key_of_other_key<K: Codec>(d: u32, c: Column, k1: K::V, k2: K::V)
    requires
        k1 != k2,
    ensures
        key_of::<K>(d, c, k1) != key_of::<K>(d, c, k2),
{
    if key_of::<K>(d, c, k1) == key_of::<K>(d, c, k2) {
        lemma_storage_key_injective(d, c, K::spec_encode(k1), d, c, K::spec_encode(k2));
        lemma_encode_injective::<K>(k1, k2);
    }
}

/// Reading back what was just written gives it.
pub proof fn lemma_lookup_insert_same<K: Codec, V: Codec>(
    d: u32,
    kv: Map<Seq<u8>, Seq<u8>>,
    c: Column,
    k: K::V,
    v: V::V,
)
    ensures
        lookup::<K, V>(d, kv.insert(key_of::<K>(d, c, k), V::spec_encode(v)), c, k) == Ok::<
            Option<V::V>,
            DbError,
        >(Some(v)),
{
    V::lemma_round_trip(v);
}

/// A write under another raw key leaves a read as it was.
pub proof fn lemma_lookup_insert_other<K: Codec, V: Codec>(
    d: u32,
    kv: Map<Seq<u8>, Seq<u8>>,
    c: Column,
    k: K::V,
    raw: Seq<u8>,
    val: Seq<u8>,
)
    requires
        raw != key_of::<K>(d, c, k),
    ensures
        lookup::<K, V>(d, kv.insert(raw, val), c, k) == lookup::<K, V>(d, kv, c, k),
{
}

/// Storing a message whose nonce reads as absent, on a store whose highest
/// seen nonce reads without error, stores it; storing the same message again,
/// at any block, stores nothing and changes nothing, so the block first stored
/// for its nonce stays. After the first call the message and its id read back
/// under its nonce.
pub proof fn lemma_store_message_idempotent(
    d: u32,
    kv: Map<Seq<u8>, Seq<u8>>,
    m: MessageView,
    b1: u64,
    b2: u64,
)
    requires
        lookup::<u32, H256>(d, kv, Column::MessageIdByNonce, m.nonce) == Ok::<
            Option<H256>,
            DbError,
        >(None),
        lookup::<bool, u32>(d, kv, Column::HighestSeenMessageNonce, false) is Ok,
    ensures
        message_step(d, kv, m, b1).0 == Ok::<bool, DbError>(true),
        message_step(d, message_step(d, kv, m, b1).1, m, b2) == (
            Ok::<bool, DbError>(false),
            message_step(d, kv, m, b1).1,
        ),
        lookup::<u32, u64>(
            d,
            message_step(d, kv, m, b1).1,
            Column::DispatchedBlockNumberByNonce,
            m.nonce,
        ) == Ok::<Option<u64>, DbError>(Some(b1)),
        lookup::<u32, H256>(d, message_step(d, kv, m, b1).1, Column::MessageIdByNonce, m.nonce)
            == Ok::<Option<H256>, DbError>(Some(message_id(m))),
        message_by_nonce(d, message_step(d, kv, m, b1).1, m.nonce) == Ok::<
            Option<MessageView>,
            DbError,
        >(Some(m)),
{
    reveal(message_step_with_id);
    let mid = message_id(m);
    let kv1 = message_step(d, kv, m, b1).1;
    let by_id = key_of::<H256>(d, Column::MessageById, mid);
    let nonce_key = key_of::<u32>(d, Column::MessageIdByNonce, m.nonce);
    let slot = key_of::<bool>(d, Column::HighestSeenMessageNonce, false);
    let block_key = key_of::<u32>(d, Column::DispatchedBlockNumberByNonce, m.nonce);
    let current = lookup::<bool, u32>(d, kv, Column::HighestSeenMessageNonce, false)->Ok_0;
    let ka = kv.insert(by_id, HyperlaneMessage::spec_encode(m));
    let kb = ka.insert(nonce_key, H256::spec_encode(mid));
    let kc = raise_highest(d, kb, current, m.nonce);
    assert(kv1 == kc.insert(block_key, <u64 as Codec>::spec_encode(b1)));
    lemma_key_of_other_column::<bool, u32>(d, Column::HighestSeenMessageNonce, false, Column::MessageIdByNonce, m.nonce);
    lemma_key_of_other_column::<u32, u32>(d, Column::DispatchedBlockNumberByNonce, m.nonce, Column::MessageIdByNonce, m.nonce);
    lemma_key_of_other_column::<u32, H256>(d, Column::MessageIdByNonce, m.nonce, Column::MessageById, mid);
    lemma_key_of_other_column::<bool, H256>(d, Column::HighestSeenMessageNonce, false, Column::MessageById, mid);
    lemma_key_of_other_column::<u32, H256>(d, Column::DispatchedBlockNumberByNonce, m.nonce, Column::MessageById, mid);
    // the id under the nonce
    lemma_lookup_insert_same::<u32, H256>(d, ka, Column::MessageIdByNonce, m.nonce, mid);
    if m.nonce >= unwrap_or_zero(current) {
        lemma_lookup_insert_other::<u32, H256>(d, kb, Column::MessageIdByNonce, m.nonce, slot, <u32 as Codec>::spec_encode(m.nonce));
    }
    lemma_lookup_insert_other::<u32, H256>(d, kc, Column::MessageIdByNonce, m.nonce, block_key, <u64 as Codec>::spec_encode(b1));
    // the message under its id
    lemma_lookup_insert_same::<H256, HyperlaneMessage>(d, kv, Column::MessageById, mid, m);
    lemma_lookup_insert_other::<H256, HyperlaneMessage>(d, ka, Column::MessageById, mid, nonce_key, H256::spec_encode(mid));
    if m.nonce >= unwrap_or_zero(current) {
        lemma_lookup_insert_other::<H256, HyperlaneMessage>(d, kb, Column::MessageById, mid, slot, <u32 as Codec>::spec_encode(m.nonce));
    }
    lemma_lookup_insert_other::<H256, HyperlaneMessage>(d, kc, Column::MessageById, mid, block_key, <u64 as Codec>::spec_encode(b1));
    // the block under the nonce
    lemma_lookup_insert_same::<u32, u64>(d, kc, Column::DispatchedBlockNumberByNonce, m.nonce, b1);
}

/// The total `base` plus payments `p1` and `p2`, for sums below 2^256.
pub open spec fn summed_total(
    base: InterchainGasPaymentData,
    p1: InterchainGasPayment,
    p2: InterchainGasPayment,
) -> InterchainGasPaymentData {
    InterchainGasPaymentData {
        payment: U256::from_value(base.payment.value() + p1.payment.value() + p2.payment.value()),
        gas_amount: U256::from_value(
            base.gas_amount.value() + p1.gas_amount.value() + p2.gas_amount.value(),
        ),
    }
}

/// Two payments for the same message and destination, reported by logs with
/// different processing keys, where neither log is processed yet and the sums
/// fit in 256 bits: processed in either order, both are processed and the
/// stored total is the total before (zero if none) plus both payments.
pub proof fn lemma_gas_payments_sum(
    d: u32,
    kv: Map<Seq<u8>, Seq<u8>>,
    p1: InterchainGasPayment,
    meta1: LogMeta,
    p2: InterchainGasPayment,
    meta2: LogMeta,
)
    requires
        payment_key(p1) == payment_key(p2),
        payment_meta(meta1) != payment_meta(meta2),
        lookup::<InterchainGasPaymentMeta, bool>(
            d,
            kv,
            Column::GasPaymentMetaProcessed,
            payment_meta(meta1),
        ) == Ok::<Option<bool>, DbError>(None),
        lookup::<InterchainGasPaymentMeta, bool>(
            d,
            kv,
            Column::GasPaymentMetaProcessed,
            payment_meta(meta2),
        ) == Ok::<Option<bool>, DbError>(None),
        lookup::<GasPaymentKey, InterchainGasPaymentData>(
            d,
            kv,
            Column::GasPaymentByKey,
            payment_key(p1),
        ) matches Ok(t0) && payment_base(t0).payment.value() + p1.payment.value()
            + p2.payment.value() < modulus() && payment_base(t0).gas_amount.value()
            + p1.gas_amount.value() + p2.gas_amount.value() < modulus(),
    ensures
        ({
            let t0 = lookup::<GasPaymentKey, InterchainGasPaymentData>(
                d,
                kv,
                Column::GasPaymentByKey,
                payment_key(p1),
            )->Ok_0;
            let (r1, kv1) = gas_payment_step(d, kv, p1, meta1);
            let (r2, kv2) = gas_payment_step(d, kv1, p2, meta2);
            r1 == Ok::<bool, DbError>(true) && r2 == Ok::<bool, DbError>(true) && lookup::<
                GasPaymentKey,
                InterchainGasPaymentData,
            >(d, kv2, Column::GasPaymentByKey, payment_key(p1)) == Ok::<
                Option<InterchainGasPaymentData>,
                DbError,
            >(Some(summed_total(payment_base(t0), p1, p2)))
        }),
        ({
            let t0 = lookup::<GasPaymentKey, InterchainGasPaymentData>(
                d,
                kv,
                Column::GasPaymentByKey,
                payment_key(p1),
            )->Ok_0;
            let (r1, kv1) = gas_payment_step(d, kv, p2, meta2);
            let (r2, kv2) = gas_payment_step(d, kv1, p1, meta1);
            r1 == Ok::<bool, DbError>(true) && r2 == Ok::<bool, DbError>(true) && lookup::<
                GasPaymentKey,
                InterchainGasPaymentData,
            >(d, kv2, Column::GasPaymentByKey, payment_key(p1)) == Ok::<
                Option<InterchainGasPaymentData>,
                DbError,
            >(Some(summed_total(payment_base(t0), p1, p2)))
        }),
{
    lemma_two_payments(d, kv, p1, meta1, p2, meta2);
    lemma_two_payments(d, kv, p2, meta2, p1, meta1);
    let t0 = lookup::<GasPaymentKey, InterchainGasPaymentData>(
        d,
        kv,
        Column::GasPaymentByKey,
        payment_key(p1),
    )->Ok_0;
    assert(summed_total(payment_base(t0), p2, p1) == summed_total(payment_base(t0), p1, p2));
}

/// Processing `p1` then `p2` under the assumptions of `lemma_gas_payments_sum`.
proof fn lemma_two_payments(
    d: u32,
    kv: Map<Seq<u8>, Seq<u8>>,
    p1: InterchainGasPayment,
    meta1: LogMeta,
    p2: InterchainGasPayment,
    meta2: LogMeta,
)
    requires
        payment_key(p1) == payment_key(p2),
        payment_meta(meta1) != payment_meta(meta2),
        lookup::<InterchainGasPaymentMeta, bool>(
            d,
            kv,
            Column::GasPaymentMetaProcessed,
            payment_meta(meta1),
        ) == Ok::<Option<bool>, DbError>(None),
        lookup::<InterchainGasPaymentMeta, bool>(
            d,
            kv,
            Column::GasPaymentMetaProcessed,
            payment_meta(meta2),
        ) == Ok::<Option<bool>, DbError>(None),
        lookup::<GasPaymentKey, InterchainGasPaymentData>(
            d,
            kv,
            Column::GasPaymentByKey,
            payment_key(p1),
        ) matches Ok(t0) && payment_base(t0).payment.value() + p1.payment.value()
            + p2.payment.value() < modulus() && payment_base(t0).gas_amount.value()
            + p1.gas_amount.value() + p2.gas_amount.value() < modulus(),
    ensures
        ({
            let t0 = lookup::<GasPaymentKey, InterchainGasPaymentData>(
                d,
                kv,
                Column::GasPaymentByKey,
                payment_key(p1),
            )->Ok_0;
            let (r1, kv1) = gas_payment_step(d, kv, p1, meta1);
            let (r2, kv2) = gas_payment_step(d, kv1, p2, meta2);
            r1 == Ok::<bool, DbError>(true) && r2 == Ok::<bool, DbError>(true) && lookup::<
                GasPaymentKey,
                InterchainGasPaymentData,
            >(d, kv2, Column::GasPaymentByKey, payment_key(p1)) == Ok::<
                Option<InterchainGasPaymentData>,
                DbError,
            >(Some(summed_total(payment_base(t0), p1, p2)))
        }),
{
    reveal(gas_payment_step);
    let pk1 = payment_meta(meta1);
    let pk2 = payment_meta(meta2);
    let key = payment_key(p1);
    let t0 = lookup::<GasPaymentKey, InterchainGasPaymentData>(d, kv, Column::GasPaymentByKey, key)->Ok_0;
    let base = payment_base(t0);
    lemma_value_bounds(base.payment);
    lemma_value_bounds(base.gas_amount);
    lemma_value_bounds(p1.payment);
    lemma_value_bounds(p1.gas_amount);
    lemma_value_bounds(p2.payment);
    lemma_value_bounds(p2.gas_amount);
    let proc1 = key_of::<InterchainGasPaymentMeta>(d, Column::GasPaymentMetaProcessed, pk1);
    let total_key = key_of::<GasPaymentKey>(d, Column::GasPaymentByKey, key);
    let t1 = InterchainGasPaymentData {
        payment: U256::from_value(base.payment.value() + p1.payment.value()),
        gas_amount: U256::from_value(base.gas_amount.value() + p1.gas_amount.value()),
    };
    lemma_from_value(base.payment.value() + p1.payment.value());
    lemma_from_value(base.gas_amount.value() + p1.gas_amount.value());
    assert(add_payment(t0, p1) == Some(t1));
    let kv_a = kv.insert(proc1, <bool as Codec>::spec_encode(true));
    let kv1 = kv_a.insert(total_key, InterchainGasPaymentData::spec_encode(t1));
    assert(gas_payment_step(d, kv, p1, meta1) == (Ok::<bool, DbError>(true), kv1));
    lemma_key_of_other_key::<InterchainGasPaymentMeta>(d, Column::GasPaymentMetaProcessed, pk1, pk2);
    lemma_key_of_other_column::<GasPaymentKey, InterchainGasPaymentMeta>(
        d,
        Column::GasPaymentByKey,
        key,
        Column::GasPaymentMetaProcessed,
        pk2,
    );
    lemma_key_of_other_column::<InterchainGasPaymentMeta, GasPaymentKey>(
        d,
        Column::GasPaymentMetaProcessed,
        pk1,
        Column::GasPaymentByKey,
        key,
    );
    lemma_lookup_insert_other::<InterchainGasPaymentMeta, bool>(
        d,
        kv,
        Column::GasPaymentMetaProcessed,
        pk2,
        proc1,
        <bool as Codec>::spec_encode(true),
    );
    lemma_lookup_insert_other::<InterchainGasPaymentMeta, bool>(
        d,
        kv_a,
        Column::GasPaymentMetaProcessed,
        pk2,
        total_key,
        InterchainGasPaymentData::spec_encode(t1),
    );
    lemma_lookup_insert_same::<GasPaymentKey, InterchainGasPaymentData>(
        d,
        kv_a,
        Column::GasPaymentByKey,
        key,
        t1,
    );
    let t2 = summed_total(base, p1, p2);
    assert(add_payment(Some(t1), p2) == Some(t2));
    let proc2 = key_of::<InterchainGasPaymentMeta>(d, Column::GasPaymentMetaProcessed, pk2);
    let kv_b = kv1.insert(proc2, <bool as Codec>::spec_encode(true));
    lemma_lookup_insert_same::<GasPaymentKey, InterchainGasPaymentData>(
        d,
        kv_b,
        Column::GasPaymentByKey,
        key,
        t2,
    );
}

/// Once a call has processed a payment log, or found it processed, any
/// payment reported by a log with the same processing key is not processed
/// again: the call gives false and changes nothing.
pub proof fn lemma_gas_payment_processed_once(
    d: u32,
    kv: Map<Seq<u8>, Seq<u8>>,
    p: InterchainGasPayment,
    meta: LogMeta,
    p2: InterchainGasPayment,
    meta2: LogMeta,
)
    requires
        gas_payment_step(d, kv, p, meta).0 is Ok,
        payment_meta(meta2) == payment_meta(meta),
    ensures
        gas_payment_step(d, gas_payment_step(d, kv, p, meta).1, p2, meta2) == (
            Ok::<bool, DbError>(false),
            gas_payment_step(d, kv, p, meta).1,
        ),
{
    reveal(gas_payment_step);
    let pk = payment_meta(meta);
    let kv1 = gas_payment_step(d, kv, p, meta).1;
    if gas_payment_step(d, kv, p, meta).0 == Ok::<bool, DbError>(true) {
        let proc = key_of::<InterchainGasPaymentMeta>(d, Column::GasPaymentMetaProcessed, pk);
        let total_key = key_of::<GasPaymentKey>(d, Column::GasPaymentByKey, payment_key(p));
        let kv_a = kv.insert(proc, <bool as Codec>::spec_encode(true));
        lemma_lookup_insert_same::<InterchainGasPaymentMeta, bool>(
            d,
            kv,
            Column::GasPaymentMetaProcessed,
            pk,
            true,
        );
        lemma_key_of_other_column::<GasPaymentKey, InterchainGasPaymentMeta>(
            d,
            Column::GasPaymentByKey,
            payment_key(p),
            Column::GasPaymentMetaProcessed,
            pk,
        );
        lemma_lookup_insert_other::<InterchainGasPaymentMeta, bool>(
            d,
            kv_a,
            Column::GasPaymentMetaProcessed,
            pk,
            total_key,
            kv1[total_key],
        );
        assert(kv1 == kv_a.insert(total_key, kv1[total_key]));
    }
}

/// A payment without a sequence number is processed exactly as a plain
/// payment, so it counts toward its total, and no sequence number reads
/// differently after it.
pub proof fn lemma_unsequenced_gas_payment(
    d: u32,
    kv: Map<Seq<u8>, Seq<u8>>,
    p: InterchainGasPayment,
    meta: LogMeta,
)
    ensures
        indexed_gas_payment_step(d, kv, p, None, meta) == gas_payment_step(d, kv, p, meta),
        forall|s: u32|
            lookup::<u32, InterchainGasPayment>(
                d,
                #[trigger] indexed_gas_payment_step(d, kv, p, None, meta).1,
                Column::GasPaymentBySequence,
                s,
            ) == lookup::<u32, InterchainGasPayment>(d, kv, Column::GasPaymentBySequence, s),
{
    reveal(indexed_gas_payment_step);
    reveal(gas_payment_step);
    let pk = payment_meta(meta);
    let proc = key_of::<InterchainGasPaymentMeta>(d, Column::GasPaymentMetaProcessed, pk);
    let total_key = key_of::<GasPaymentKey>(d, Column::GasPaymentByKey, payment_key(p));
    let kv1 = gas_payment_step(d, kv, p, meta).1;
    assert forall|s: u32|
        lookup::<u32, InterchainGasPayment>(d, kv1, Column::GasPaymentBySequence, s) == lookup::<
            u32,
            InterchainGasPayment,
        >(d, kv, Column::GasPaymentBySequence, s) by {
        lemma_key_of_other_column::<InterchainGasPaymentMeta, u32>(
            d,
            Column::GasPaymentMetaProcessed,
            pk,
            Column::GasPaymentBySequence,
            s,
        );
        lemma_key_of_other_column::<GasPaymentKey, u32>(
            d,
            Column::GasPaymentByKey,
            payment_key(p),
            Column::GasPaymentBySequence,
            s,
        );
        let kv_a = kv.insert(proc, <bool as Codec>::spec_encode(true));
        lemma_lookup_insert_other::<u32, InterchainGasPayment>(
            d,
            kv,
            Column::GasPaymentBySequence,
            s,
            proc,
            <bool as Codec>::spec_encode(true),
        );
        lemma_lookup_insert_other::<u32, InterchainGasPayment>(
            d,
            kv_a,
            Column::GasPaymentBySequence,
            s,
            total_key,
            kv1[total_key],
        );
        if gas_payment_step(d, kv, p, meta).0 == Ok::<bool, DbError>(true) {
            assert(kv1 == kv_a.insert(total_key, kv1[total_key]));
        }
    }
}

/// Only the first insertion at a leaf index is stored: one at a leaf index
/// not yet stored is stored and reads back, and, once a call at a leaf index
/// has not failed, any later one at the same leaf index, whatever its message
/// id or block, gives false and changes nothing.
pub proof fn lemma_tree_insertion_first_wins(
    d: u32,
    kv: Map<Seq<u8>, Seq<u8>>,
    ins1: MerkleTreeInsertion,
    b1: u64,
    ins2: MerkleTreeInsertion,
    b2: u64,
)
    requires
        ins1.leaf_index == ins2.leaf_index,
        tree_insertion_step(d, kv, ins1, b1).0 is Ok,
    ensures
        tree_insertion_step(d, tree_insertion_step(d, kv, ins1, b1).1, ins2, b2) == (
            Ok::<bool, DbError>(false),
            tree_insertion_step(d, kv, ins1, b1).1,
        ),
        lookup::<u32, MerkleTreeInsertion>(
            d,
            kv,
            Column::MerkleTreeInsertionByLeafIndex,
            ins1.leaf_index,
        ) == Ok::<Option<MerkleTreeInsertion>, DbError>(None) ==> tree_insertion_step(d, kv, ins1, b1).0 == Ok::<bool, DbError>(true) && lookup::<
            u32,
            MerkleTreeInsertion,
        >(
            d,
            tree_insertion_step(d, kv, ins1, b1).1,
            Column::MerkleTreeInsertionByLeafIndex,
            ins1.leaf_index,
        ) == Ok::<Option<MerkleTreeInsertion>, DbError>(Some(ins1)),
{
    reveal(tree_insertion_step);
    let leaf = key_of::<u32>(d, Column::MerkleTreeInsertionByLeafIndex, ins1.leaf_index);
    if !kv.contains_key(leaf) {
        let by_id = key_of::<H256>(d, Column::MerkleLeafIndexByMessageId, ins1.message_id);
        let block = key_of::<u32>(d, Column::MerkleInsertionBlockNumberByLeafIndex, ins1.leaf_index);
        let kv_a = kv.insert(leaf, MerkleTreeInsertion::spec_encode(ins1));
        let kv_b = kv_a.insert(by_id, <u32 as Codec>::spec_encode(ins1.leaf_index));
        lemma_lookup_insert_same::<u32, MerkleTreeInsertion>(
            d,
            kv,
            Column::MerkleTreeInsertionByLeafIndex,
            ins1.leaf_index,
            ins1,
        );
        lemma_key_of_other_column::<H256, u32>(
            d,
            Column::MerkleLeafIndexByMessageId,
            ins1.message_id,
            Column::MerkleTreeInsertionByLeafIndex,
            ins1.leaf_index,
        );
        lemma_key_of_other_column::<u32, u32>(
            d,
            Column::MerkleInsertionBlockNumberByLeafIndex,
            ins1.leaf_index,
            Column::MerkleTreeInsertionByLeafIndex,
            ins1.leaf_index,
        );
        lemma_lookup_insert_other::<u32, MerkleTreeInsertion>(
            d,
            kv_a,
            Column::MerkleTreeInsertionByLeafIndex,
            ins1.leaf_index,
            by_id,
            <u32 as Codec>::spec_encode(ins1.leaf_index),
        );
        lemma_lookup_insert_other::<u32, MerkleTreeInsertion>(
            d,
            kv_b,
            Column::MerkleTreeInsertionByLeafIndex,
            ins1.leaf_index,
            block,
            <u64 as Codec>::spec_encode(b1),
        );
    }
}

/// Storing a new message leaves the highest seen nonce at the larger of the
/// one before, absence read as zero, and the message's nonce.
pub proof fn lemma_store_message_raises_highest(
    d: u32,
    kv: Map<Seq<u8>, Seq<u8>>,
    m: MessageView,
    b: u64,
)
    requires
        message_step(d, kv, m, b).0 == Ok::<bool, DbError>(true),
    ensures
        lookup::<bool, u32>(d, kv, Column::HighestSeenMessageNonce, false) matches Ok(current)
            && lookup::<bool, u32>(
            d,
            message_step(d, kv, m, b).1,
            Column::HighestSeenMessageNonce,
            false,
        ) == Ok::<Option<u32>, DbError>(
            Some(
                if m.nonce >= unwrap_or_zero(current) {
                    m.nonce
                } else {
                    unwrap_or_zero(current)
                },
            ),
        ),
{
    reveal(message_step_with_id);
    let id = message_id(m).0@;
    let slot = key_of::<bool>(d, Column::HighestSeenMessageNonce, false);
    let by_id = storage_key(d, Column::MessageById, id);
    let by_nonce = key_of::<u32>(d, Column::MessageIdByNonce, m.nonce);
    let block = key_of::<u32>(d, Column::DispatchedBlockNumberByNonce, m.nonce);
    if slot == by_id {
        lemma_storage_key_injective(
            d,
            Column::HighestSeenMessageNonce,
            <bool as Codec>::spec_encode(false),
            d,
            Column::MessageById,
            id,
        );
    }
    lemma_key_of_other_column::<u32, bool>(
        d,
        Column::MessageIdByNonce,
        m.nonce,
        Column::HighestSeenMessageNonce,
        false,
    );
    lemma_key_of_other_column::<u32, bool>(
        d,
        Column::DispatchedBlockNumberByNonce,
        m.nonce,
        Column::HighestSeenMessageNonce,
        false,
    );
    let current = lookup::<bool, u32>(d, kv, Column::HighestSeenMessageNonce, false)->Ok_0;
    let kv1 = kv.insert(by_id, HyperlaneMessage::spec_encode(m)).insert(by_nonce, id);
    if m.nonce >= unwrap_or_zero(current) {
        lemma_lookup_insert_same::<bool, u32>(d, kv1, Column::HighestSeenMessageNonce, false, m.nonce);
    }
}

/// After any run of gas payments none of which has a sequence number, no
/// sequence number reads differently than before the run.
pub proof fn lemma_unsequenced_gas_payment_logs(
    d: u32,
    kv: Map<Seq<u8>, Seq<u8>>,
    logs: Seq<(Indexed<InterchainGasPayment>, LogMeta)>,
    n: nat,
    s: u32,
)
    requires
        n <= logs.len(),
        forall|i: int| 0 <= i < logs.len() ==> (#[trigger] logs[i]).0.sequence is None,
    ensures
        lookup::<u32, InterchainGasPayment>(
            d,
            gas_payment_logs(d, kv, logs, n).1,
            Column::GasPaymentBySequence,
            s,
        ) == lookup::<u32, InterchainGasPayment>(d, kv, Column::GasPaymentBySequence, s),
    decreases n,
{
    if n > 0 {
        lemma_unsequenced_gas_payment_logs(d, kv, logs, (n - 1) as nat, s);
        let prev = gas_payment_logs(d, kv, logs, (n - 1) as nat);
        let item = logs[n - 1];
        assert(item.0.sequence is None);
        lemma_unsequenced_gas_payment(d, prev.1, item.0.inner, item.1);
        assert(gas_payment_logs(d, kv, logs, n) == {
            match prev.0 {
                Err(e) => (Err(e), prev.1),
                Ok(c) => {
                    let (r2, kv2) = indexed_gas_payment_step(d, prev.1, item.0.inner, None, item.1);
                    match r2 {
                        Err(e) => (Err(e), kv2),
                        Ok(stored) => (Ok(if stored { c + 1 } else { c }), kv2),
                    }
                },
            }
        });
    }
}

} // verus!
