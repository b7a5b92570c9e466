//! The store's contents as a map from raw keys to raw values, and what each
//! ingestion operation does to it.
use vstd::prelude::*;
use crate::codec::Codec;
use crate::hash::H256;
use crate::keys::{storage_key, Column};
use crate::uint::{u256_add, U256};
use crate::types::{
    message_id, HyperlaneMessage, Indexed, InterchainGasExpenditure, InterchainGasExpenditureData,
    InterchainGasPayment, InterchainGasPaymentData, InterchainGasPaymentMeta, GasPaymentKey, LogMeta,
    MerkleTreeInsertion, MessageView,
};

verus! {

/// Why a store operation failed.
#[derive(Clone, Copy, Debug, PartialEq, Eq, Structural)]
pub enum DbError {
    /// Bytes stored under a key do not decode as the column's value type.
    Decode,
    /// A running total would not fit in its integer type.
    Overflow,
}

/// The raw key of the value for `k` in column `c` of domain `d`.
pub open spec fn key_of<K: Codec>(d: u32, c: Column, k: K::V) -> Seq<u8> {
    storage_key(d, c, K::spec_encode(k))
}

/// What a typed read of column `c` at `k` gives: absence, the decoded value,
/// or a decode error.
pub open spec fn lookup<K: Codec, V: Codec>(
    d: u32,
    kv: Map<Seq<u8>, Seq<u8>>,
    c: Column,
    k: K::V,
) -> Result<Option<V::V>, DbError> {
    let raw = key_of::<K>(d, c, k);
    if !kv.contains_key(raw) {
        Ok(None)
    } else {
        match V::spec_decode(kv[raw]) {
            Some(v) => Ok(Some(v)),
            None => Err(DbError::Decode),
        }
    }
}

/// Whether the exec result `r` of a read is the spec result `s`.
pub open spec fn read_matches<V: View>(
    r: Result<Option<V>, DbError>,
    s: Result<Option<V::V>, DbError>,
) -> bool {
    match r {
        Ok(Some(v)) => s == Ok::<Option<V::V>, DbError>(Some(v@)),
        Ok(None) => s == Ok::<Option<V::V>, DbError>(None),
        Err(e) => s == Err::<Option<V::V>, DbError>(e),
    }
}

/// The message stored under `nonce`: the id stored under it, then the message
/// stored under that id.
pub open spec fn message_by_nonce(d: u32, kv: Map<Seq<u8>, Seq<u8>>, nonce: u32) -> Result<
    Option<MessageView>,
    DbError,
> {
    match lookup::<u32, H256>(d, kv, Column::MessageIdByNonce, nonce) {
        Err(e) => Err(e),
        Ok(None) => Ok(None),
        Ok(Some(id)) => lookup::<H256, HyperlaneMessage>(d, kv, Column::MessageById, id),
    }
}

/// The single slot of a per-domain scalar is keyed by `false`.
pub open spec fn scalar_slot(d: u32, c: Column) -> Seq<u8> {
    key_of::<bool>(d, c, false)
}

pub open spec fn unwrap_or_zero(v: Option<u32>) -> u32 {
    match v {
        Some(x) => x,
        None => 0,
    }
}

/// The contents after the highest-seen nonce, read as `current`, has been
/// raised to `nonce` if `nonce` is at least as high.
pub open spec fn raise_highest(
    d: u32,
    kv: Map<Seq<u8>, Seq<u8>>,
    current: Option<u32>,
    nonce: u32,
) -> Map<Seq<u8>, Seq<u8>> {
    if nonce >= unwrap_or_zero(current) {
        kv.insert(scalar_slot(d, Column::HighestSeenMessageNonce), <u32 as Codec>::spec_encode(nonce))
    } else {
        kv
    }
}

/// Storing message `m` with id `id`, dispatched at `block`: the result and the
/// contents after it. Bytes under the nonce that do not decode give that
/// error; an id already stored under the nonce leaves everything as it was;
/// otherwise the message is stored under `id`, `id` under the nonce, the
/// highest seen nonce is raised, and the block is stored under the nonce.
#[verifier::opaque]
pub open spec fn message_step_with_id(
    d: u32,
    kv: Map<Seq<u8>, Seq<u8>>,
    m: MessageView,
    id: Seq<u8>,
    block: u64,
) -> (Result<bool, DbError>, Map<Seq<u8>, Seq<u8>>) {
    match lookup::<u32, H256>(d, kv, Column::MessageIdByNonce, m.nonce) {
        Err(e) => (Err(e), kv),
        Ok(Some(_)) => (Ok(false), kv),
        Ok(None) => match lookup::<bool, u32>(d, kv, Column::HighestSeenMessageNonce, false) {
            Err(e) => (Err(e), kv),
            Ok(current) => {
                let kv1 = kv.insert(
                    storage_key(d, Column::MessageById, id),
                    HyperlaneMessage::spec_encode(m),
                ).insert(key_of::<u32>(d, Column::MessageIdByNonce, m.nonce), id);
                let kv2 = raise_highest(d, kv1, current, m.nonce);
                (
                    Ok(true),
                    kv2.insert(
                        key_of::<u32>(d, Column::DispatchedBlockNumberByNonce, m.nonce),
                        <u64 as Codec>::spec_encode(block),
                    ),
                )
            },
        },
    }
}

/// Storing message `m`, dispatched at `block`, under its content-derived id.
pub open spec fn message_step(
    d: u32,
    kv: Map<Seq<u8>, Seq<u8>>,
    m: MessageView,
    block: u64,
) -> (Result<bool, DbError>, Map<Seq<u8>, Seq<u8>>) {
    message_step_with_id(d, kv, m, message_id(m).0@, block)
}

/// The processing key of the log that `meta` describes.
pub open spec fn payment_meta(meta: LogMeta) -> InterchainGasPaymentMeta {
    InterchainGasPaymentMeta { transaction_id: meta.transaction_id, log_index: meta.log_index }
}

/// The key that payment `p` is summed under.
pub open spec fn payment_key(p: InterchainGasPayment) -> GasPaymentKey {
    GasPaymentKey { message_id: p.message_id, destination: p.destination }
}

/// A stored payment total, with absence read as zero.
pub open spec fn payment_base(total: Option<InterchainGasPaymentData>) -> InterchainGasPaymentData {
    match total {
        Some(t) => t,
        None => InterchainGasPaymentData {
            payment: U256 { hi: 0, lo: 0 },
            gas_amount: U256 { hi: 0, lo: 0 },
        },
    }
}

/// A stored total, with absence read as zero, plus payment `p`; `None` where
/// a sum does not fit in 256 bits.
pub open spec fn add_payment(
    total: Option<InterchainGasPaymentData>,
    p: InterchainGasPayment,
) -> Option<InterchainGasPaymentData> {
    let base = payment_base(total);
    match (u256_add(base.payment, p.payment), u256_add(base.gas_amount, p.gas_amount)) {
        (Some(payment), Some(gas_amount)) => Some(InterchainGasPaymentData { payment, gas_amount }),
        _ => None,
    }
}

/// Processing payment `p`, reported by the log at `meta`: a log already marked
/// processed changes nothing and gives false; otherwise the log is marked
/// processed and `p` is added to the total of its key.
#[verifier::opaque]
pub open spec fn gas_payment_step(
    d: u32,
    kv: Map<Seq<u8>, Seq<u8>>,
    p: InterchainGasPayment,
    meta: LogMeta,
) -> (Result<bool, DbError>, Map<Seq<u8>, Seq<u8>>) {
    let pk = payment_meta(meta);
    match lookup::<InterchainGasPaymentMeta, bool>(d, kv, Column::GasPaymentMetaProcessed, pk) {
        Err(e) => (Err(e), kv),
        Ok(Some(true)) => (Ok(false), kv),
        Ok(_) => match lookup::<GasPaymentKey, InterchainGasPaymentData>(
            d,
            kv,
            Column::GasPaymentByKey,
            payment_key(p),
        ) {
            Err(e) => (Err(e), kv),
            Ok(total) => match add_payment(total, p) {
                None => (Err(DbError::Overflow), kv),
                Some(t) => (
                    Ok(true),
                    kv.insert(
                        key_of::<InterchainGasPaymentMeta>(d, Column::GasPaymentMetaProcessed, pk),
                        <bool as Codec>::spec_encode(true),
                    ).insert(
                        key_of::<GasPaymentKey>(d, Column::GasPaymentByKey, payment_key(p)),
                        InterchainGasPaymentData::spec_encode(t),
                    ),
                ),
            },
        },
    }
}

/// Processing payment `p` with the sequence number `sequence`, if it has one:
/// first as `gas_payment_step`; then, with a sequence, bytes under it that do
/// not decode give that error, a sequence already recorded gives false, and a
/// new one records `p` and the log's block under it.
#[verifier::opaque]
pub open spec fn indexed_gas_payment_step(
    d: u32,
    kv: Map<Seq<u8>, Seq<u8>>,
    p: InterchainGasPayment,
    sequence: Option<u32>,
    meta: LogMeta,
) -> (Result<bool, DbError>, Map<Seq<u8>, Seq<u8>>) {
    let (r, kv1) = gas_payment_step(d, kv, p, meta);
    match r {
        Err(e) => (Err(e), kv1),
        Ok(processed) => match sequence {
            None => (Ok(processed), kv1),
            Some(s) => match lookup::<u32, InterchainGasPayment>(
                d,
                kv1,
                Column::GasPaymentBySequence,
                s,
            ) {
                Err(e) => (Err(e), kv1),
                Ok(Some(_)) => (Ok(false), kv1),
                Ok(None) => (
                    Ok(processed),
                    kv1.insert(
                        key_of::<u32>(d, Column::GasPaymentBySequence, s),
                        InterchainGasPayment::spec_encode(p),
                    ).insert(
                        key_of::<u32>(d, Column::GasPaymentBlockBySequence, s),
                        <u64 as Codec>::spec_encode(meta.block_number),
                    ),
                ),
            },
        },
    }
}

/// A stored expenditure total, with absence read as zero, plus `e`; `None`
/// where a sum does not fit in 256 bits.
pub open spec fn add_expenditure(
    total: Option<InterchainGasExpenditureData>,
    e: InterchainGasExpenditure,
) -> Option<InterchainGasExpenditureData> {
    let base = match total {
        Some(t) => t,
        None => InterchainGasExpenditureData { tokens_used: U256 { hi: 0, lo: 0 }, gas_used: U256 { hi: 0, lo: 0 } },
    };
    match (u256_add(base.tokens_used, e.tokens_used), u256_add(base.gas_used, e.gas_used)) {
        (Some(tokens_used), Some(gas_used)) => Some(InterchainGasExpenditureData { tokens_used, gas_used }),
        _ => None,
    }
}

/// Adding expenditure `e` to the total of its message.
pub open spec fn gas_expenditure_step(
    d: u32,
    kv: Map<Seq<u8>, Seq<u8>>,
    e: InterchainGasExpenditure,
) -> (Result<(), DbError>, Map<Seq<u8>, Seq<u8>>) {
    match lookup::<H256, InterchainGasExpenditureData>(
        d,
        kv,
        Column::GasExpenditureByMessageId,
        e.message_id,
    ) {
        Err(x) => (Err(x), kv),
        Ok(total) => match add_expenditure(total, e) {
            None => (Err(DbError::Overflow), kv),
            Some(t) => (
                Ok(()),
                kv.insert(
                    key_of::<H256>(d, Column::GasExpenditureByMessageId, e.message_id),
                    InterchainGasExpenditureData::spec_encode(t),
                ),
            ),
        },
    }
}

/// Storing tree insertion `ins`, seen at `block`: bytes under its leaf index
/// that do not decode give that error; an insertion already stored there
/// changes nothing and gives false; otherwise the insertion and the block are
/// stored under the leaf index, and the leaf index under the message id.
#[verifier::opaque]
pub open spec fn tree_insertion_step(
    d: u32,
    kv: Map<Seq<u8>, Seq<u8>>,
    ins: MerkleTreeInsertion,
    block: u64,
) -> (Result<bool, DbError>, Map<Seq<u8>, Seq<u8>>) {
    match lookup::<u32, MerkleTreeInsertion>(
        d,
        kv,
        Column::MerkleTreeInsertionByLeafIndex,
        ins.leaf_index,
    ) {
        Err(e) => (Err(e), kv),
        Ok(Some(_)) => (Ok(false), kv),
        Ok(None) => (
            Ok(true),
            kv.insert(
                key_of::<u32>(d, Column::MerkleTreeInsertionByLeafIndex, ins.leaf_index),
                MerkleTreeInsertion::spec_encode(ins),
            ).insert(
                key_of::<H256>(d, Column::MerkleLeafIndexByMessageId, ins.message_id),
                <u32 as Codec>::spec_encode(ins.leaf_index),
            ).insert(
                key_of::<u32>(d, Column::MerkleInsertionBlockNumberByLeafIndex, ins.leaf_index),
                <u64 as Codec>::spec_encode(block),
            ),
        ),
    }
}

/// Applies `step` to positions `0 .. n` in order, starting from `kv`: the
/// number of steps that stored something and the contents after the last.
/// The first error ends the run, with the contents as that step left them.
pub open spec fn count_new(
    kv: Map<Seq<u8>, Seq<u8>>,
    n: nat,
    step: spec_fn(Map<Seq<u8>, Seq<u8>>, int) -> (Result<bool, DbError>, Map<Seq<u8>, Seq<u8>>),
) -> (Result<nat, DbError>, Map<Seq<u8>, Seq<u8>>)
    decreases n,
{
    if n == 0 {
        (Ok(0), kv)
    } else {
        let (r, kv1) = count_new(kv, (n - 1) as nat, step);
        match r {
            Err(e) => (Err(e), kv1),
            Ok(c) => {
                let (r2, kv2) = step(kv1, n - 1);
                match r2 {
                    Err(e) => (Err(e), kv2),
                    Ok(stored) => (Ok(if stored { c + 1 } else { c }), kv2),
                }
            },
        }
    }
}

/// Whether a batch's exec result and contents are the spec outcome.
pub open spec fn batch_matches(
    r: Result<u32, DbError>,
    kv: Map<Seq<u8>, Seq<u8>>,
    outcome: (Result<nat, DbError>, Map<Seq<u8>, Seq<u8>>),
) -> bool {
    kv == outcome.1 && match outcome.0 {
        Ok(n) => r == Ok::<u32, DbError>(n as u32),
        Err(e) => r == Err::<u32, DbError>(e),
    }
}

/// Storing the first `n` messages of a batch, each at its log's block.
pub open spec fn message_logs(
    d: u32,
    kv: Map<Seq<u8>, Seq<u8>>,
    logs: Seq<(Indexed<HyperlaneMessage>, LogMeta)>,
    n: nat,
) -> (Result<nat, DbError>, Map<Seq<u8>, Seq<u8>>) {
    count_new(kv, n, |kv1: Map<Seq<u8>, Seq<u8>>, i: int| message_step(d, kv1, logs[i].0.inner@, logs[i].1.block_number))
}

/// Processing the first `n` gas payments of a batch.
pub open spec fn gas_payment_logs(
    d: u32,
    kv: Map<Seq<u8>, Seq<u8>>,
    logs: Seq<(Indexed<InterchainGasPayment>, LogMeta)>,
    n: nat,
) -> (Result<nat, DbError>, Map<Seq<u8>, Seq<u8>>) {
    count_new(
        kv,
        n,
        |kv1: Map<Seq<u8>, Seq<u8>>, i: int| indexed_gas_payment_step(d, kv1, logs[i].0.inner, logs[i].0.sequence, logs[i].1),
    )
}

/// Storing the first `n` tree insertions of a batch, each at its log's block.
pub open spec fn tree_insertion_logs(
    d: u32,
    kv: Map<Seq<u8>, Seq<u8>>,
    logs: Seq<(Indexed<MerkleTreeInsertion>, LogMeta)>,
    n: nat,
) -> (Result<nat, DbError>, Map<Seq<u8>, Seq<u8>>) {
    count_new(kv, n, |kv1: Map<Seq<u8>, Seq<u8>>, i: int| tree_insertion_step(d, kv1, logs[i].0.inner, logs[i].1.block_number))
}

pub(crate) proof fn lemma_message_logs_error_sticks(
    d: u32,
    kv: Map<Seq<u8>, Seq<u8>>,
    logs: Seq<(Indexed<HyperlaneMessage>, LogMeta)>,
    n: nat,
)
    requires
        n <= logs.len(),
        message_logs(d, kv, logs, n).0 is Err,
    ensures
        message_logs(d, kv, logs, logs.len()) == message_logs(d, kv, logs, n),
    decreases logs.len() - n,
{
    if n < logs.len() {
        assert(message_logs(d, kv, logs, n + 1) == message_logs(d, kv, logs, n));
        lemma_message_logs_error_sticks(d, kv, logs, n + 1);
    }
}

pub(crate) proof fn lemma_gas_payment_logs_error_sticks(
    d: u32,
    kv: Map<Seq<u8>, Seq<u8>>,
    logs: Seq<(Indexed<InterchainGasPayment>, LogMeta)>,
    n: nat,
)
    requires
        n <= logs.len(),
        gas_payment_logs(d, kv, logs, n).0 is Err,
    ensures
        gas_payment_logs(d, kv, logs, logs.len()) == gas_payment_logs(d, kv, logs, n),
    decreases logs.len() - n,
{
    if n < logs.len() {
        assert(gas_payment_logs(d, kv, logs, n + 1) == gas_payment_logs(d, kv, logs, n));
        lemma_gas_payment_logs_error_sticks(d, kv, logs, n + 1);
    }
}

pub(crate) proof fn lemma_tree_insertion_logs_error_sticks(
    d: u32,
    kv: Map<Seq<u8>, Seq<u8>>,
    logs: Seq<(Indexed<MerkleTreeInsertion>, LogMeta)>,
    n: nat,
)
    requires
        n <= logs.len(),
        tree_insertion_logs(d, kv, logs, n).0 is Err,
    ensures
        tree_insertion_logs(d, kv, logs, logs.len()) == tree_insertion_logs(d, kv, logs, n),
    decreases logs.len() - n,
{
    if n < logs.len() {
        assert(tree_insertion_logs(d, kv, logs, n + 1) == tree_insertion_logs(d, kv, logs, n));
        lemma_tree_insertion_logs_error_sticks(d, kv, logs, n + 1);
    }
}

} // verus!
