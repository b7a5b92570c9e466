//! The layout of keys: every key is scoped by its domain and its column.
use vstd::prelude::*;
use crate::codec::{u32_be, Codec};
use vstd::string::StringSliceAdditionalSpecFns;

verus! {

/// A logical column of the store: one mapping from keys of one type to values
/// of one type.
#[derive(Clone, Copy, Debug, PartialEq, Eq, Structural)]
pub enum Column {
    MessageIdByNonce,
    DispatchedBlockNumberByNonce,
    MessageById,
    ProcessedByNonce,
    GasPaymentBySequence,
    GasPaymentBlockBySequence,
    HighestSeenMessageNonce,
    GasPaymentByKey,
    GasPaymentMetaProcessed,
    GasExpenditureByMessageId,
    StatusByMessageId,
    RetryCountByMessageId,
    MerkleTreeInsertionByLeafIndex,
    MerkleLeafIndexByMessageId,
    MerkleInsertionBlockNumberByLeafIndex,
    GasPaymentHighWatermark,
}

/// The byte that tells the columns apart.
pub open spec fn column_tag(c: Column) -> u8 {
    match c {
        Column::MessageIdByNonce => 0,
        Column::DispatchedBlockNumberByNonce => 1,
        Column::MessageById => 2,
        Column::ProcessedByNonce => 3,
        Column::GasPaymentBySequence => 4,
        Column::GasPaymentBlockBySequence => 5,
        Column::HighestSeenMessageNonce => 6,
        Column::GasPaymentByKey => 7,
        Column::GasPaymentMetaProcessed => 8,
        Column::GasExpenditureByMessageId => 9,
        Column::StatusByMessageId => 10,
        Column::RetryCountByMessageId => 11,
        Column::MerkleTreeInsertionByLeafIndex => 12,
        Column::MerkleLeafIndexByMessageId => 13,
        Column::MerkleInsertionBlockNumberByLeafIndex => 14,
        Column::GasPaymentHighWatermark => 15,
    }
}

/// The stable name of a column, which follows its tag in every key.
pub open spec fn spec_column_name(c: Column) -> &'static str {
    match c {
        Column::MessageIdByNonce => "message_id_",
        Column::DispatchedBlockNumberByNonce => "message_dispatched_block_number_",
        Column::MessageById => "message_",
        Column::ProcessedByNonce => "nonce_processed_",
        Column::GasPaymentBySequence => "gas_payment_by_sequence_",
        Column::GasPaymentBlockBySequence => "gas_payment_block_by_sequence_",
        Column::HighestSeenMessageNonce => "highest_seen_message_nonce_",
        Column::GasPaymentByKey => "gas_payment_sequence_for_message_id_v2_",
        Column::GasPaymentMetaProcessed => "gas_payment_meta_processed_v3_",
        Column::GasExpenditureByMessageId => "gas_expenditure_for_message_id_v2_",
        Column::StatusByMessageId => "status_by_message_id_",
        Column::RetryCountByMessageId => "pending_message_retry_count_for_message_id_",
        Column::MerkleTreeInsertionByLeafIndex => "merkle_tree_insertion_",
        Column::MerkleLeafIndexByMessageId => "merkle_leaf_index_by_message_id_",
        Column::MerkleInsertionBlockNumberByLeafIndex => "merkle_tree_insertion_block_number_by_leaf_index_",
        Column::GasPaymentHighWatermark => "latest_indexed_gas_payment_block",
    }
}

pub fn column_tag_of(c: Column) -> (r: u8)
    ensures
        r == column_tag(c),
{
    match c {
        Column::MessageIdByNonce => 0,
        Column::DispatchedBlockNumberByNonce => 1,
        Column::MessageById => 2,
        Column::ProcessedByNonce => 3,
        Column::GasPaymentBySequence => 4,
        Column::GasPaymentBlockBySequence => 5,
        Column::HighestSeenMessageNonce => 6,
        Column::GasPaymentByKey => 7,
        Column::GasPaymentMetaProcessed => 8,
        Column::GasExpenditureByMessageId => 9,
        Column::StatusByMessageId => 10,
        Column::RetryCountByMessageId => 11,
        Column::MerkleTreeInsertionByLeafIndex => 12,
        Column::MerkleLeafIndexByMessageId => 13,
        Column::MerkleInsertionBlockNumberByLeafIndex => 14,
        Column::GasPaymentHighWatermark => 15,
    }
}

pub fn column_name(c: Column) -> (r: &'static str)
    ensures
        r == spec_column_name(c),
{
    match c {
        Column::MessageIdByNonce => "message_id_",
        Column::DispatchedBlockNumberByNonce => "message_dispatched_block_number_",
        Column::MessageById => "message_",
        Column::ProcessedByNonce => "nonce_processed_",
        Column::GasPaymentBySequence => "gas_payment_by_sequence_",
        Column::GasPaymentBlockBySequence => "gas_payment_block_by_sequence_",
        Column::HighestSeenMessageNonce => "highest_seen_message_nonce_",
        Column::GasPaymentByKey => "gas_payment_sequence_for_message_id_v2_",
        Column::GasPaymentMetaProcessed => "gas_payment_meta_processed_v3_",
        Column::GasExpenditureByMessageId => "gas_expenditure_for_message_id_v2_",
        Column::StatusByMessageId => "status_by_message_id_",
        Column::RetryCountByMessageId => "pending_message_retry_count_for_message_id_",
        Column::MerkleTreeInsertionByLeafIndex => "merkle_tree_insertion_",
        Column::MerkleLeafIndexByMessageId => "merkle_leaf_index_by_message_id_",
        Column::MerkleInsertionBlockNumberByLeafIndex => "merkle_tree_insertion_block_number_by_leaf_index_",
        Column::GasPaymentHighWatermark => "latest_indexed_gas_payment_block",
    }
}

/// The raw key under which a column of a domain holds the value for the key
/// whose encoding is `k`: the domain id, big-endian, the column's tag, the
/// column's name, then `k`.
pub open spec fn storage_key(domain: u32, c: Column, k: Seq<u8>) -> Seq<u8> {
    u32_be(domain) + seq![column_tag(c)] + spec_column_name(c).spec_bytes() + k
}

/// Distinct (domain, column, key) triples have distinct raw keys.
pub proof fn lemma_storage_key_injective(d1: u32, c1: Column, k1: Seq<u8>, d2: u32, c2: Column, k2: Seq<u8>)
    requires
        storage_key(d1, c1, k1) == storage_key(d2, c2, k2),
    ensures
        d1 == d2,
        c1 == c2,
        k1 == k2,
{
    let s1 = storage_key(d1, c1, k1);
    let s2 = storage_key(d2, c2, k2);
    assert(s1.subrange(0, 4) =~= u32_be(d1));
    assert(s2.subrange(0, 4) =~= u32_be(d2));
    <u32 as Codec>::lemma_round_trip(d1);
    <u32 as Codec>::lemma_round_trip(d2);
    assert(s1[4] == column_tag(c1));
    assert(s2[4] == column_tag(c2));
    assert(c1 == c2);
    let n: int = 5 + spec_column_name(c1).spec_bytes().len() as int;
    assert(s1.subrange(n, s1.len() as int) =~= k1);
    assert(s2.subrange(n, s2.len() as int) =~= k2);
}

/// Builds the raw key for a column of a domain and an encoded key.
pub fn make_storage_key(domain: u32, c: Column, k: &[u8]) -> (r: Vec<u8>)
    ensures
        r@ == storage_key(domain, c, k@),
{
    let mut r = domain.encode();
    r.push(column_tag_of(c));
    let name = column_name(c).as_bytes();
    let mut i: usize = 0;
    let ghost prefix = r@;
    while i < name.len()
        invariant
            i <= name@.len(),
            r@ == prefix + name@.subrange(0, i as int),
        decreases name@.len() - i,
    {
        r.push(name[i]);
        i = i + 1;
        assert(r@ =~= prefix + name@.subrange(0, i as int));
    }
    let mut j: usize = 0;
    let ghost mid = r@;
    while j < k.len()
        invariant
            j <= k@.len(),
            r@ == mid + k@.subrange(0, j as int),
        decreases k@.len() - j,
    {
        r.push(k[j]);
        j = j + 1;
        assert(r@ =~= mid + k@.subrange(0, j as int));
    }
    assert(name@.subrange(0, name@.len() as int) =~= name@);
    assert(k@.subrange(0, k@.len() as int) =~= k@);
    assert(r@ =~= storage_key(domain, c, k@));
    r
}

} // verus!
