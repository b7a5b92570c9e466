//! The event log store: idempotent ingestion of messages, gas payments, gas
//! expenditures and merkle tree insertions, over a typed, namespaced view of
//! a key-value substrate.
use vstd::prelude::*;
use crate::codec::Codec;
use crate::hash::H256;
use crate::keys::{make_storage_key, storage_key, Column};
use crate::kv::MemoryDb;
use crate::uint::U256;
use crate::model::{
    add_payment, batch_matches, gas_expenditure_step, gas_payment_logs, gas_payment_step,
    indexed_gas_payment_step, key_of, lemma_gas_payment_logs_error_sticks,
    lemma_message_logs_error_sticks, lemma_tree_insertion_logs_error_sticks, lookup,
    message_by_nonce, message_logs, message_step, message_step_with_id, payment_key,
    raise_highest, read_matches, scalar_slot, tree_insertion_logs, tree_insertion_step, DbError,
};
use crate::types::{
    HyperlaneDomain, HyperlaneMessage, Indexed, InterchainGasExpenditure,
    InterchainGasExpenditureData, InterchainGasPayment, InterchainGasPaymentData,
    InterchainGasPaymentMeta, GasPaymentKey, LogMeta, MerkleTreeInsertion, MessageView,
    PendingOperationStatus,
};

verus! {

/// A store of the events of one domain.
pub struct HyperlaneRocksDB {
    domain: HyperlaneDomain,
    db: MemoryDb,
}

impl HyperlaneRocksDB {
    /// The substrate is well formed.
    pub closed spec fn wf(&self) -> bool {
        self.db.wf()
    }

    /// The id of the domain that scopes every key.
    pub closed spec fn domain_id(&self) -> u32 {
        self.domain.id
    }

    /// The raw contents of the substrate.
    pub closed spec fn kv(&self) -> Map<Seq<u8>, Seq<u8>> {
        self.db@
    }

    /// A store for `domain` on the substrate `db`.
    pub fn new(domain: &HyperlaneDomain, db: MemoryDb) -> (r: HyperlaneRocksDB)
        requires
            db.wf(),
        ensures
            r.wf(),
            r.domain_id() == domain.id,
            r.kv() == db@,
    {
        HyperlaneRocksDB { domain: domain.clone_domain(), db }
    }

    /// The domain this store is scoped to.
    pub fn domain(&self) -> (r: &HyperlaneDomain)
        ensures
            r.id == self.domain_id(),
    {
        &self.domain
    }

    /// Gives the substrate back.
    pub fn into_inner(self) -> (r: MemoryDb)
        requires
            self.wf(),
        ensures
            r.wf(),
            r@ == self.kv(),
    {
        self.db
    }

    /// Stores `val` under `key` in column `c`.
    pub fn store_keyed<K: Codec, V: Codec>(&mut self, c: Column, key: &K, val: &V)
        requires
            old(self).wf(),
        ensures
            final(self).wf(),
            final(self).domain_id() == old(self).domain_id(),
            final(self).kv() == old(self).kv().insert(
                key_of::<K>(old(self).domain_id(), c, key@),
                V::spec_encode(val@),
            ),
    {
        let k = make_storage_key(self.domain.id, c, key.encode().as_slice());
        let v = val.encode();
        self.db.put(k.as_slice(), v.as_slice());
    }

    /// Whether column `c` holds a value for `key`.
    pub fn contains_keyed<K: Codec>(&self, c: Column, key: &K) -> (r: bool)
        requires
            self.wf(),
        ensures
            r == self.kv().contains_key(key_of::<K>(self.domain_id(), c, key@)),
    {
        let k = make_storage_key(self.domain.id, c, key.encode().as_slice());
        self.db.contains(k.as_slice())
    }

    /// Reads the value of column `c` for `key`.
    pub fn retrieve_keyed<K: Codec, V: Codec>(&self, c: Column, key: &K) -> (r: Result<
        Option<V>,
        DbError,
    >)
        requires
            self.wf(),
        ensures
            read_matches(r, lookup::<K, V>(self.domain_id(), self.kv(), c, key@)),
    {
        let k = make_storage_key(self.domain.id, c, key.encode().as_slice());
        match self.db.get(k.as_slice()) {
            None => Ok(None),
            Some(bytes) => match V::decode(bytes.as_slice()) {
                Some(v) => Ok(Some(v)),
                None => Err(DbError::Decode),
            },
        }
    }
}

impl HyperlaneRocksDB {
    /// Stores a dispatched message, unless a message with its nonce is
    /// stored already. Returns whether it was stored; bytes under the nonce
    /// that do not decode give `DbError::Decode`.
    ///
    /// Keys --> values: `id` --> message, `nonce` --> `id`,
    /// `nonce` --> dispatched block number.
    pub fn store_message(&mut self, message: &HyperlaneMessage, dispatched_block_number: u64) -> (r:
        Result<bool, DbError>)
        requires
            old(self).wf(),
        ensures
            final(self).wf(),
            final(self).domain_id() == old(self).domain_id(),
            (r, final(self).kv()) == message_step(
                old(self).domain_id(),
                old(self).kv(),
                message@,
                dispatched_block_number,
            ),
    {
        let id = message.id();
        self.store_message_with_id(message, &id, dispatched_block_number)
    }

    /// Stores `message` under the id `id`, unless a message with its nonce is
    /// stored already. Returns whether it was stored; bytes under the nonce
    /// that do not decode give `DbError::Decode`. `store_message` gives it the
    /// message's own id.
    pub fn store_message_with_id(
        &mut self,
        message: &HyperlaneMessage,
        id: &H256,
        dispatched_block_number: u64,
    ) -> (r: Result<bool, DbError>)
        requires
            old(self).wf(),
        ensures
            final(self).wf(),
            final(self).domain_id() == old(self).domain_id(),
            (r, final(self).kv()) == message_step_with_id(
                old(self).domain_id(),
                old(self).kv(),
                message@,
                id.0@,
                dispatched_block_number,
            ),
    {
        proof {
            reveal(message_step_with_id);
        }
        let ghost d = self.domain_id();
        let ghost kv0 = self.kv();
        let stored_id: Option<H256> = match self.retrieve_keyed(Column::MessageIdByNonce, &message.nonce) {
            Err(e) => {
                return Err(e);
            },
            Ok(i) => i,
        };
        if stored_id.is_some() {
            return Ok(false);
        }
        match self.retrieve_highest_seen_message_nonce() {
            Err(e) => {
                return Err(e);
            },
            Ok(_) => {},
        }
        self.store_keyed(Column::MessageById, id, message);
        self.store_keyed(Column::MessageIdByNonce, &message.nonce, id);
        proof {
            let slot = scalar_slot(d, Column::HighestSeenMessageNonce);
            let k1 = storage_key(d, Column::MessageById, id.0@);
            let k2 = key_of::<u32>(d, Column::MessageIdByNonce, message.nonce);
            if slot == k1 {
                crate::keys::lemma_storage_key_injective(d, Column::HighestSeenMessageNonce, seq![0u8], d, Column::MessageById, id.0@);
            }
            if slot == k2 {
                crate::keys::lemma_storage_key_injective(d, Column::HighestSeenMessageNonce, seq![0u8], d, Column::MessageIdByNonce, <u32 as Codec>::spec_encode(message.nonce));
            }
            assert(lookup::<bool, u32>(d, self.kv(), Column::HighestSeenMessageNonce, false)
                == lookup::<bool, u32>(d, kv0, Column::HighestSeenMessageNonce, false));
        }
        match self.try_update_max_seen_message_nonce(message.nonce) {
            Err(e) => {
                return Err(e);
            },
            Ok(()) => {},
        }
        self.store_keyed(Column::DispatchedBlockNumberByNonce, &message.nonce, &dispatched_block_number);
        Ok(true)
    }

    /// Raises the highest nonce seen to `nonce`, if `nonce` is at least as
    /// high as it.
    pub fn try_update_max_seen_message_nonce(&mut self, nonce: u32) -> (r: Result<(), DbError>)
        requires
            old(self).wf(),
        ensures
            final(self).wf(),
            final(self).domain_id() == old(self).domain_id(),
            match lookup::<bool, u32>(old(self).domain_id(), old(self).kv(), Column::HighestSeenMessageNonce, false) {
                Err(e) => r == Err::<(), DbError>(e) && final(self).kv() == old(self).kv(),
                Ok(current) => r == Ok::<(), DbError>(()) && final(self).kv() == raise_highest(
                    old(self).domain_id(),
                    old(self).kv(),
                    current,
                    nonce,
                ),
            },
    {
        let current = match self.retrieve_highest_seen_message_nonce() {
            Err(e) => {
                return Err(e);
            },
            Ok(c) => c,
        };
        let current_max = match current {
            Some(c) => c,
            None => 0,
        };
        if nonce >= current_max {
            self.store_keyed(Column::HighestSeenMessageNonce, &false, &nonce);
        }
        Ok(())
    }

    /// The highest nonce of a message stored so far, if any.
    pub fn retrieve_highest_seen_message_nonce(&self) -> (r: Result<Option<u32>, DbError>)
        requires
            self.wf(),
        ensures
            r == lookup::<bool, u32>(self.domain_id(), self.kv(), Column::HighestSeenMessageNonce, false),
    {
        self.retrieve_keyed(Column::HighestSeenMessageNonce, &false)
    }

    /// Processes a gas payment with its optional sequence number. Returns
    /// false where the log was processed before or the sequence number was
    /// recorded before; otherwise whether the payment was processed. Stored
    /// bytes that do not decode give `DbError::Decode`.
    pub fn process_indexed_gas_payment(
        &mut self,
        indexed_payment: Indexed<InterchainGasPayment>,
        log_meta: &LogMeta,
    ) -> (r: Result<bool, DbError>)
        requires
            old(self).wf(),
        ensures
            final(self).wf(),
            final(self).domain_id() == old(self).domain_id(),
            (r, final(self).kv()) == indexed_gas_payment_step(
                old(self).domain_id(),
                old(self).kv(),
                indexed_payment.inner,
                indexed_payment.sequence,
                *log_meta,
            ),
    {
        proof {
            reveal(indexed_gas_payment_step);
        }
        let payment = *indexed_payment.inner();
        let processed = match self.process_gas_payment(payment, log_meta) {
            Err(e) => {
                return Err(e);
            },
            Ok(b) => b,
        };
        let sequence = match indexed_payment.sequence {
            None => {
                return Ok(processed);
            },
            Some(s) => s,
        };
        let recorded: Option<InterchainGasPayment> = match self.retrieve_keyed(
            Column::GasPaymentBySequence,
            &sequence,
        ) {
            Err(e) => {
                return Err(e);
            },
            Ok(p) => p,
        };
        if recorded.is_some() {
            return Ok(false);
        }
        self.store_keyed(Column::GasPaymentBySequence, &sequence, &payment);
        self.store_keyed(Column::GasPaymentBlockBySequence, &sequence, &log_meta.block_number);
        Ok(processed)
    }

    /// Processes a gas payment unless the log that reported it was processed
    /// before. Returns whether it was processed now.
    pub fn process_gas_payment(&mut self, payment: InterchainGasPayment, log_meta: &LogMeta) -> (r:
        Result<bool, DbError>)
        requires
            old(self).wf(),
        ensures
            final(self).wf(),
            final(self).domain_id() == old(self).domain_id(),
            (r, final(self).kv()) == gas_payment_step(
                old(self).domain_id(),
                old(self).kv(),
                payment,
                *log_meta,
            ),
    {
        proof {
            reveal(gas_payment_step);
        }
        let payment_meta = InterchainGasPaymentMeta::from_log_meta(log_meta);
        let processed: Option<bool> = match self.retrieve_keyed(
            Column::GasPaymentMetaProcessed,
            &payment_meta,
        ) {
            Err(e) => {
                return Err(e);
            },
            Ok(p) => p,
        };
        if processed == Some(true) {
            return Ok(false);
        }
        let total = match self.summed_gas_payment(&payment) {
            Err(e) => {
                return Err(e);
            },
            Ok(t) => t,
        };
        self.store_keyed(Column::GasPaymentMetaProcessed, &payment_meta, &true);
        self.store_keyed(Column::GasPaymentByKey, &payment.key(), &total);
        Ok(true)
    }

    /// The total stored for the key of `event`, plus `event`.
    fn summed_gas_payment(&self, event: &InterchainGasPayment) -> (r: Result<
        InterchainGasPaymentData,
        DbError,
    >)
        requires
            self.wf(),
        ensures
            match lookup::<GasPaymentKey, InterchainGasPaymentData>(
                self.domain_id(),
                self.kv(),
                Column::GasPaymentByKey,
                payment_key(*event),
            ) {
                Err(e) => r == Err::<InterchainGasPaymentData, DbError>(e),
                Ok(total) => match add_payment(total, *event) {
                    None => r == Err::<InterchainGasPaymentData, DbError>(DbError::Overflow),
                    Some(t) => r == Ok::<InterchainGasPaymentData, DbError>(t),
                },
            },
    {
        let existing: Option<InterchainGasPaymentData> = match self.retrieve_keyed(
            Column::GasPaymentByKey,
            &event.key(),
        ) {
            Err(e) => {
                return Err(e);
            },
            Ok(t) => t,
        };
        let base = match existing {
            Some(t) => t,
            None => InterchainGasPaymentData {
                payment: U256 { hi: 0, lo: 0 },
                gas_amount: U256 { hi: 0, lo: 0 },
            },
        };
        match (base.payment.checked_add(&event.payment), base.gas_amount.checked_add(&event.gas_amount)) {
            (Some(payment), Some(gas_amount)) => Ok(InterchainGasPaymentData { payment, gas_amount }),
            _ => Err(DbError::Overflow),
        }
    }

    /// Stores a merkle tree insertion under its leaf index, unless one is
    /// stored there already, and maps its message id to the leaf index.
    /// Returns whether it was stored; bytes under the leaf index that do not
    /// decode give `DbError::Decode`.
    pub fn process_tree_insertion(
        &mut self,
        insertion: &MerkleTreeInsertion,
        insertion_block_number: u64,
    ) -> (r: Result<bool, DbError>)
        requires
            old(self).wf(),
        ensures
            final(self).wf(),
            final(self).domain_id() == old(self).domain_id(),
            (r, final(self).kv()) == tree_insertion_step(
                old(self).domain_id(),
                old(self).kv(),
                *insertion,
                insertion_block_number,
            ),
    {
        proof {
            reveal(tree_insertion_step);
        }
        let stored: Option<MerkleTreeInsertion> = match self.retrieve_keyed(
            Column::MerkleTreeInsertionByLeafIndex,
            &insertion.leaf_index,
        ) {
            Err(e) => {
                return Err(e);
            },
            Ok(i) => i,
        };
        if stored.is_some() {
            return Ok(false);
        }
        // Leaves are keyed by leaf index, which is unique, rather than by
        // message id, which may recur, so that they can be read in insertion
        // order.
        self.store_keyed(Column::MerkleTreeInsertionByLeafIndex, &insertion.leaf_index, insertion);
        self.store_keyed(Column::MerkleLeafIndexByMessageId, &insertion.message_id, &insertion.leaf_index);
        self.store_keyed(
            Column::MerkleInsertionBlockNumberByLeafIndex,
            &insertion.leaf_index,
            &insertion_block_number,
        );
        Ok(true)
    }

    /// Adds a gas expenditure to the total of its message.
    pub fn process_gas_expenditure(&mut self, expenditure: InterchainGasExpenditure) -> (r: Result<
        (),
        DbError,
    >)
        requires
            old(self).wf(),
        ensures
            final(self).wf(),
            final(self).domain_id() == old(self).domain_id(),
            (r, final(self).kv()) == gas_expenditure_step(
                old(self).domain_id(),
                old(self).kv(),
                expenditure,
            ),
    {
        self.update_gas_expenditure_by_message_id(expenditure)
    }

    fn update_gas_expenditure_by_message_id(&mut self, event: InterchainGasExpenditure) -> (r: Result<
        (),
        DbError,
    >)
        requires
            old(self).wf(),
        ensures
            final(self).wf(),
            final(self).domain_id() == old(self).domain_id(),
            (r, final(self).kv()) == gas_expenditure_step(
                old(self).domain_id(),
                old(self).kv(),
                event,
            ),
    {
        let existing: Option<InterchainGasExpenditureData> = match self.retrieve_keyed(
            Column::GasExpenditureByMessageId,
            &event.message_id,
        ) {
            Err(e) => {
                return Err(e);
            },
            Ok(t) => t,
        };
        let base = match existing {
            Some(t) => t,
            None => InterchainGasExpenditureData {
                tokens_used: U256 { hi: 0, lo: 0 },
                gas_used: U256 { hi: 0, lo: 0 },
            },
        };
        let total = match (base.tokens_used.checked_add(&event.tokens_used), base.gas_used.checked_add(&event.gas_used)) {
            (Some(tokens_used), Some(gas_used)) => InterchainGasExpenditureData { tokens_used, gas_used },
            _ => {
                return Err(DbError::Overflow);
            },
        };
        self.store_keyed(Column::GasExpenditureByMessageId, &event.message_id, &total);
        Ok(())
    }
}

/// Ingesting batches of logs.
impl HyperlaneRocksDB {
    /// Stores a batch of dispatched messages, each at its log's block. Returns how many were new; an error ends the batch, and what
    /// was stored before it stays.
    pub fn store_message_logs(&mut self, logs: &[(Indexed<HyperlaneMessage>, LogMeta)]) -> (r: Result<u32, DbError>)
        requires
            old(self).wf(),
            logs@.len() <= u32::MAX,
        ensures
            final(self).wf(),
            final(self).domain_id() == old(self).domain_id(),
            batch_matches(
                r,
                final(self).kv(),
                message_logs(old(self).domain_id(), old(self).kv(), logs@, logs@.len()),
            ),
    {
        let ghost d = self.domain_id();
        let ghost kv0 = self.kv();
        let mut stored: u32 = 0;
        let mut i: usize = 0;
        while i < logs.len()
            invariant
                self.wf(),
                self.domain_id() == d,
                d == old(self).domain_id(),
                kv0 == old(self).kv(),
                i <= logs@.len(),
                logs@.len() <= u32::MAX,
                stored <= i,
                (Ok::<nat, DbError>(stored as nat), self.kv()) == message_logs(d, kv0, logs@, i as nat),
            decreases logs@.len() - i,
        {
            let (log, meta) = &logs[i];
            match self.store_message(log.inner(), meta.block_number) {
                Err(e) => {
                    proof {
                        lemma_message_logs_error_sticks(d, kv0, logs@, (i + 1) as nat);
                    }
                    return Err(e);
                },
                Ok(new) => {
                    if new {
                        stored = stored + 1;
                    }
                },
            }
            i = i + 1;
        }
        Ok(stored)
    }

    /// Processes a batch of gas payments. Returns how many were new; an error ends the batch, and what
    /// was stored before it stays.
    pub fn store_gas_payment_logs(&mut self, logs: &[(Indexed<InterchainGasPayment>, LogMeta)]) -> (r: Result<u32, DbError>)
        requires
            old(self).wf(),
            logs@.len() <= u32::MAX,
        ensures
            final(self).wf(),
            final(self).domain_id() == old(self).domain_id(),
            batch_matches(
                r,
                final(self).kv(),
                gas_payment_logs(old(self).domain_id(), old(self).kv(), logs@, logs@.len()),
            ),
    {
        let ghost d = self.domain_id();
        let ghost kv0 = self.kv();
        let mut stored: u32 = 0;
        let mut i: usize = 0;
        while i < logs.len()
            invariant
                self.wf(),
                self.domain_id() == d,
                d == old(self).domain_id(),
                kv0 == old(self).kv(),
                i <= logs@.len(),
                logs@.len() <= u32::MAX,
                stored <= i,
                (Ok::<nat, DbError>(stored as nat), self.kv()) == gas_payment_logs(d, kv0, logs@, i as nat),
            decreases logs@.len() - i,
        {
            let (log, meta) = &logs[i];
            match self.process_indexed_gas_payment(Indexed::new(*log.inner(), log.sequence), meta) {
                Err(e) => {
                    proof {
                        lemma_gas_payment_logs_error_sticks(d, kv0, logs@, (i + 1) as nat);
                    }
                    return Err(e);
                },
                Ok(new) => {
                    if new {
                        stored = stored + 1;
                    }
                },
            }
            i = i + 1;
        }
        Ok(stored)
    }

    /// Stores a batch of merkle tree insertions, each at its log's block. Returns how many were new; an error ends the batch, and what
    /// was stored before it stays.
    pub fn store_tree_insertion_logs(&mut self, logs: &[(Indexed<MerkleTreeInsertion>, LogMeta)]) -> (r: Result<u32, DbError>)
        requires
            old(self).wf(),
            logs@.len() <= u32::MAX,
        ensures
            final(self).wf(),
            final(self).domain_id() == old(self).domain_id(),
            batch_matches(
                r,
                final(self).kv(),
                tree_insertion_logs(old(self).domain_id(), old(self).kv(), logs@, logs@.len()),
            ),
    {
        let ghost d = self.domain_id();
        let ghost kv0 = self.kv();
        let mut stored: u32 = 0;
        let mut i: usize = 0;
        while i < logs.len()
            invariant
                self.wf(),
                self.domain_id() == d,
                d == old(self).domain_id(),
                kv0 == old(self).kv(),
                i <= logs@.len(),
                logs@.len() <= u32::MAX,
                stored <= i,
                (Ok::<nat, DbError>(stored as nat), self.kv()) == tree_insertion_logs(d, kv0, logs@, i as nat),
            decreases logs@.len() - i,
        {
            let (log, meta) = &logs[i];
            match self.process_tree_insertion(log.inner(), meta.block_number) {
                Err(e) => {
                    proof {
                        lemma_tree_insertion_logs_error_sticks(d, kv0, logs@, (i + 1) as nat);
                    }
                    return Err(e);
                },
                Ok(new) => {
                    if new {
                        stored = stored + 1;
                    }
                },
            }
            i = i + 1;
        }
        Ok(stored)
    }
}

/// Reading what the store holds.
impl HyperlaneRocksDB {
    /// The message with nonce `nonce`, if one is stored.
    pub fn retrieve_message_by_nonce(&self, nonce: u32) -> (r: Result<Option<HyperlaneMessage>, DbError>)
        requires
            self.wf(),
        ensures
            read_matches(r, message_by_nonce(self.domain_id(), self.kv(), nonce)),
    {
        let id: Option<H256> = match self.retrieve_keyed(Column::MessageIdByNonce, &nonce) {
            Err(e) => {
                return Err(e);
            },
            Ok(id) => id,
        };
        match id {
            None => Ok(None),
            Some(id) => self.retrieve_keyed(Column::MessageById, &id),
        }
    }

    /// The total paid for `gas_payment_key`, if any payment was processed
    /// for it.
    pub fn retrieve_gas_payment_by_gas_payment_key(&self, gas_payment_key: GasPaymentKey) -> (r:
        Result<Option<InterchainGasPayment>, DbError>)
        requires
            self.wf(),
        ensures
            match lookup::<GasPaymentKey, InterchainGasPaymentData>(
                self.domain_id(),
                self.kv(),
                Column::GasPaymentByKey,
                gas_payment_key,
            ) {
                Err(e) => r == Err::<Option<InterchainGasPayment>, DbError>(e),
                Ok(None) => r == Ok::<Option<InterchainGasPayment>, DbError>(None),
                Ok(Some(t)) => r == Ok::<Option<InterchainGasPayment>, DbError>(
                    Some(
                        InterchainGasPayment {
                            message_id: gas_payment_key.message_id,
                            destination: gas_payment_key.destination,
                            payment: t.payment,
                            gas_amount: t.gas_amount,
                        },
                    ),
                ),
            },
    {
        let data: Option<InterchainGasPaymentData> = match self.retrieve_keyed(
            Column::GasPaymentByKey,
            &gas_payment_key,
        ) {
            Err(e) => {
                return Err(e);
            },
            Ok(d) => d,
        };
        match data {
            None => Ok(None),
            Some(t) => Ok(
                Some(
                    InterchainGasPayment {
                        message_id: gas_payment_key.message_id,
                        destination: gas_payment_key.destination,
                        payment: t.payment,
                        gas_amount: t.gas_amount,
                    },
                ),
            ),
        }
    }

    /// The total spent on message `message_id`; zero where nothing was spent.
    pub fn retrieve_gas_expenditure_by_message_id(&self, message_id: H256) -> (r: Result<
        InterchainGasExpenditure,
        DbError,
    >)
        requires
            self.wf(),
        ensures
            match lookup::<H256, InterchainGasExpenditureData>(
                self.domain_id(),
                self.kv(),
                Column::GasExpenditureByMessageId,
                message_id,
            ) {
                Err(e) => r == Err::<InterchainGasExpenditure, DbError>(e),
                Ok(None) => r == Ok::<InterchainGasExpenditure, DbError>(
                    InterchainGasExpenditure {
                        message_id,
                        tokens_used: U256 { hi: 0, lo: 0 },
                        gas_used: U256 { hi: 0, lo: 0 },
                    },
                ),
                Ok(Some(t)) => r == Ok::<InterchainGasExpenditure, DbError>(
                    InterchainGasExpenditure {
                        message_id,
                        tokens_used: t.tokens_used,
                        gas_used: t.gas_used,
                    },
                ),
            },
    {
        let data: Option<InterchainGasExpenditureData> = match self.retrieve_keyed(
            Column::GasExpenditureByMessageId,
            &message_id,
        ) {
            Err(e) => {
                return Err(e);
            },
            Ok(d) => d,
        };
        match data {
            None => Ok(InterchainGasExpenditure {
                        message_id,
                        tokens_used: U256 { hi: 0, lo: 0 },
                        gas_used: U256 { hi: 0, lo: 0 },
                    }),
            Some(t) => Ok(
                InterchainGasExpenditure {
                    message_id,
                    tokens_used: t.tokens_used,
                    gas_used: t.gas_used,
                },
            ),
        }
    }

    /// The message with sequence number (nonce) `sequence`.
    pub fn retrieve_message_by_sequence(&self, sequence: u32) -> (r: Result<Option<HyperlaneMessage>, DbError>)
        requires
            self.wf(),
        ensures
            read_matches(r, message_by_nonce(self.domain_id(), self.kv(), sequence)),
    {
        self.retrieve_message_by_nonce(sequence)
    }

    /// The block that dispatched the message with nonce `sequence`.
    pub fn retrieve_message_block_number_by_sequence(&self, sequence: u32) -> (r: Result<Option<u64>, DbError>)
        requires
            self.wf(),
        ensures
            read_matches(r, lookup::<u32, u64>(self.domain_id(), self.kv(), Column::DispatchedBlockNumberByNonce, sequence)),
    {
        self.retrieve_keyed(Column::DispatchedBlockNumberByNonce, &sequence)
    }

    /// The tree insertion with sequence number (leaf index) `sequence`.
    pub fn retrieve_tree_insertion_by_sequence(&self, sequence: u32) -> (r: Result<Option<MerkleTreeInsertion>, DbError>)
        requires
            self.wf(),
        ensures
            read_matches(r, lookup::<u32, MerkleTreeInsertion>(self.domain_id(), self.kv(), Column::MerkleTreeInsertionByLeafIndex, sequence)),
    {
        self.retrieve_keyed(Column::MerkleTreeInsertionByLeafIndex, &sequence)
    }

    /// The block of the tree insertion with leaf index `sequence`.
    pub fn retrieve_tree_insertion_block_number_by_sequence(&self, sequence: u32) -> (r: Result<Option<u64>, DbError>)
        requires
            self.wf(),
        ensures
            read_matches(r, lookup::<u32, u64>(self.domain_id(), self.kv(), Column::MerkleInsertionBlockNumberByLeafIndex, sequence)),
    {
        self.retrieve_keyed(Column::MerkleInsertionBlockNumberByLeafIndex, &sequence)
    }

    /// The gas payment recorded with sequence number `sequence`.
    pub fn retrieve_gas_payment_by_sequence(&self, sequence: u32) -> (r: Result<Option<InterchainGasPayment>, DbError>)
        requires
            self.wf(),
        ensures
            read_matches(r, lookup::<u32, InterchainGasPayment>(self.domain_id(), self.kv(), Column::GasPaymentBySequence, sequence)),
    {
        self.retrieve_keyed(Column::GasPaymentBySequence, &sequence)
    }

    /// The block of the gas payment recorded with sequence number `sequence`.
    pub fn retrieve_gas_payment_block_number_by_sequence(&self, sequence: u32) -> (r: Result<Option<u64>, DbError>)
        requires
            self.wf(),
        ensures
            read_matches(r, lookup::<u32, u64>(self.domain_id(), self.kv(), Column::GasPaymentBlockBySequence, sequence)),
    {
        self.retrieve_keyed(Column::GasPaymentBlockBySequence, &sequence)
    }

    /// The block up to which gas payments are known to be indexed, if one was
    /// stored. Only gas payments have a high watermark.
    pub fn retrieve_high_watermark(&self) -> (r: Result<Option<u32>, DbError>)
        requires
            self.wf(),
        ensures
            r == lookup::<bool, u32>(self.domain_id(), self.kv(), Column::GasPaymentHighWatermark, false),
    {
        self.retrieve_keyed(Column::GasPaymentHighWatermark, &false)
    }

    /// Stores the gas payment high watermark. The last value stored is the
    /// one read back, whether it is higher or lower than the one before.
    pub fn store_high_watermark(&mut self, block_number: u32) -> (r: Result<(), DbError>)
        requires
            old(self).wf(),
        ensures
            final(self).wf(),
            final(self).domain_id() == old(self).domain_id(),
            r == Ok::<(), DbError>(()),
            final(self).kv() == old(self).kv().insert(
                scalar_slot(old(self).domain_id(), Column::GasPaymentHighWatermark),
                <u32 as Codec>::spec_encode(block_number),
            ),
    {
        self.store_keyed(Column::GasPaymentHighWatermark, &false, &block_number);
        Ok(())
    }
}

/// Typed accessors, one pair per column.
impl HyperlaneRocksDB {
    /// Stores the id of the message with nonce `nonce`.
    pub fn store_message_id_by_nonce(&mut self, nonce: &u32, val: &H256)
        requires
            old(self).wf(),
        ensures
            final(self).wf(),
            final(self).domain_id() == old(self).domain_id(),
            final(self).kv() == old(self).kv().insert(
                key_of::<u32>(old(self).domain_id(), Column::MessageIdByNonce, nonce@),
                H256::spec_encode(val@),
            ),
    {
        self.store_keyed(Column::MessageIdByNonce, nonce, val)
    }

    /// Reads the id of the message with nonce `nonce`.
    pub fn retrieve_message_id_by_nonce(&self, nonce: &u32) -> (r: Result<Option<H256>, DbError>)
        requires
            self.wf(),
        ensures
            read_matches(r, lookup::<u32, H256>(self.domain_id(), self.kv(), Column::MessageIdByNonce, nonce@)),
    {
        self.retrieve_keyed(Column::MessageIdByNonce, nonce)
    }



    /// Stores whether the message with nonce was delivered, as `nonce`.
    pub fn store_processed_by_nonce(&mut self, nonce: &u32, val: &bool)
        requires
            old(self).wf(),
        ensures
            final(self).wf(),
            final(self).domain_id() == old(self).domain_id(),
            final(self).kv() == old(self).kv().insert(
                key_of::<u32>(old(self).domain_id(), Column::ProcessedByNonce, nonce@),
                <bool as Codec>::spec_encode(val@),
            ),
    {
        self.store_keyed(Column::ProcessedByNonce, nonce, val)
    }

    /// Reads whether the message with nonce was delivered, as `nonce`.
    pub fn retrieve_processed_by_nonce(&self, nonce: &u32) -> (r: Result<Option<bool>, DbError>)
        requires
            self.wf(),
        ensures
            read_matches(r, lookup::<u32, bool>(self.domain_id(), self.kv(), Column::ProcessedByNonce, nonce@)),
    {
        self.retrieve_keyed(Column::ProcessedByNonce, nonce)
    }



    /// Stores the delivery status of message `id`.
    pub fn store_status_by_message_id(&mut self, id: &H256, val: &PendingOperationStatus)
        requires
            old(self).wf(),
        ensures
            final(self).wf(),
            final(self).domain_id() == old(self).domain_id(),
            final(self).kv() == old(self).kv().insert(
                key_of::<H256>(old(self).domain_id(), Column::StatusByMessageId, id@),
                PendingOperationStatus::spec_encode(val@),
            ),
    {
        self.store_keyed(Column::StatusByMessageId, id, val)
    }

    /// Reads the delivery status of message `id`.
    pub fn retrieve_status_by_message_id(&self, id: &H256) -> (r: Result<Option<PendingOperationStatus>, DbError>)
        requires
            self.wf(),
        ensures
            read_matches(r, lookup::<H256, PendingOperationStatus>(self.domain_id(), self.kv(), Column::StatusByMessageId, id@)),
    {
        self.retrieve_keyed(Column::StatusByMessageId, id)
    }





    /// Stores the delivery retry count of message `id`.
    pub fn store_pending_message_retry_count_by_message_id(&mut self, id: &H256, val: &u32)
        requires
            old(self).wf(),
        ensures
            final(self).wf(),
            final(self).domain_id() == old(self).domain_id(),
            final(self).kv() == old(self).kv().insert(
                key_of::<H256>(old(self).domain_id(), Column::RetryCountByMessageId, id@),
                <u32 as Codec>::spec_encode(val@),
            ),
    {
        self.store_keyed(Column::RetryCountByMessageId, id, val)
    }

    /// Reads the delivery retry count of message `id`.
    pub fn retrieve_pending_message_retry_count_by_message_id(&self, id: &H256) -> (r: Result<Option<u32>, DbError>)
        requires
            self.wf(),
        ensures
            read_matches(r, lookup::<H256, u32>(self.domain_id(), self.kv(), Column::RetryCountByMessageId, id@)),
    {
        self.retrieve_keyed(Column::RetryCountByMessageId, id)
    }

    /// Stores the tree insertion at `leaf_index`.
    pub fn store_merkle_tree_insertion_by_leaf_index(&mut self, leaf_index: &u32, val: &MerkleTreeInsertion)
        requires
            old(self).wf(),
        ensures
            final(self).wf(),
            final(self).domain_id() == old(self).domain_id(),
            final(self).kv() == old(self).kv().insert(
                key_of::<u32>(old(self).domain_id(), Column::MerkleTreeInsertionByLeafIndex, leaf_index@),
                MerkleTreeInsertion::spec_encode(val@),
            ),
    {
        self.store_keyed(Column::MerkleTreeInsertionByLeafIndex, leaf_index, val)
    }

    /// Reads the tree insertion at `leaf_index`.
    pub fn retrieve_merkle_tree_insertion_by_leaf_index(&self, leaf_index: &u32) -> (r: Result<Option<MerkleTreeInsertion>, DbError>)
        requires
            self.wf(),
        ensures
            read_matches(r, lookup::<u32, MerkleTreeInsertion>(self.domain_id(), self.kv(), Column::MerkleTreeInsertionByLeafIndex, leaf_index@)),
    {
        self.retrieve_keyed(Column::MerkleTreeInsertionByLeafIndex, leaf_index)
    }

    /// Stores the leaf index of message `id`.
    pub fn store_merkle_leaf_index_by_message_id(&mut self, id: &H256, val: &u32)
        requires
            old(self).wf(),
        ensures
            final(self).wf(),
            final(self).domain_id() == old(self).domain_id(),
            final(self).kv() == old(self).kv().insert(
                key_of::<H256>(old(self).domain_id(), Column::MerkleLeafIndexByMessageId, id@),
                <u32 as Codec>::spec_encode(val@),
            ),
    {
        self.store_keyed(Column::MerkleLeafIndexByMessageId, id, val)
    }

    /// Reads the leaf index of message `id`.
    pub fn retrieve_merkle_leaf_index_by_message_id(&self, id: &H256) -> (r: Result<Option<u32>, DbError>)
        requires
            self.wf(),
        ensures
            read_matches(r, lookup::<H256, u32>(self.domain_id(), self.kv(), Column::MerkleLeafIndexByMessageId, id@)),
    {
        self.retrieve_keyed(Column::MerkleLeafIndexByMessageId, id)
    }

    /// Stores the block of the tree insertion at `leaf_index`.
    pub fn store_merkle_tree_insertion_block_number_by_leaf_index(&mut self, leaf_index: &u32, val: &u64)
        requires
            old(self).wf(),
        ensures
            final(self).wf(),
            final(self).domain_id() == old(self).domain_id(),
            final(self).kv() == old(self).kv().insert(
                key_of::<u32>(old(self).domain_id(), Column::MerkleInsertionBlockNumberByLeafIndex, leaf_index@),
                <u64 as Codec>::spec_encode(val@),
            ),
    {
        self.store_keyed(Column::MerkleInsertionBlockNumberByLeafIndex, leaf_index, val)
    }

    /// Reads the block of the tree insertion at `leaf_index`.
    pub fn retrieve_merkle_tree_insertion_block_number_by_leaf_index(&self, leaf_index: &u32) -> (r: Result<Option<u64>, DbError>)
        requires
            self.wf(),
        ensures
            read_matches(r, lookup::<u32, u64>(self.domain_id(), self.kv(), Column::MerkleInsertionBlockNumberByLeafIndex, leaf_index@)),
    {
        self.retrieve_keyed(Column::MerkleInsertionBlockNumberByLeafIndex, leaf_index)
    }
}

/// What message processing reads from a store.
pub trait ProcessMessage {
    /// Whether the store is in a state that can be read.
    spec fn readable(&self) -> bool;

    /// What reading the highest seen nonce gives.
    spec fn highest_seen_message_nonce(&self) -> Result<Option<u32>, DbError>;

    /// What reading the message with nonce `nonce` gives.
    spec fn message_at(&self, nonce: u32) -> Result<Option<MessageView>, DbError>;

    /// What reading the processed flag of nonce `nonce` gives.
    spec fn processed_at(&self, nonce: u32) -> Result<Option<bool>, DbError>;

    /// The id of the domain the store is scoped to.
    spec fn scope(&self) -> u32;

    /// The highest nonce of a message stored so far, if any.
    fn retrieve_highest_seen_message_nonce(&self) -> (r: Result<Option<u32>, DbError>)
        requires
            self.readable(),
        ensures
            r == self.highest_seen_message_nonce(),
    ;

    /// The message with nonce `nonce`, if one is stored.
    fn retrieve_message_by_nonce(&self, nonce: u32) -> (r: Result<Option<HyperlaneMessage>, DbError>)
        requires
            self.readable(),
        ensures
            read_matches(r, self.message_at(nonce)),
    ;

    /// Whether the message with nonce `nonce` was recorded as processed.
    fn retrieve_processed_by_nonce(&self, nonce: u32) -> (r: Result<Option<bool>, DbError>)
        requires
            self.readable(),
        ensures
            r == self.processed_at(nonce),
    ;

    /// The domain the store is scoped to.
    fn domain(&self) -> (r: &HyperlaneDomain)
        ensures
            r.id == self.scope(),
    ;
}

impl ProcessMessage for HyperlaneRocksDB {
    open spec fn readable(&self) -> bool {
        self.wf()
    }

    open spec fn highest_seen_message_nonce(&self) -> Result<Option<u32>, DbError> {
        lookup::<bool, u32>(self.domain_id(), self.kv(), Column::HighestSeenMessageNonce, false)
    }

    open spec fn message_at(&self, nonce: u32) -> Result<Option<MessageView>, DbError> {
        message_by_nonce(self.domain_id(), self.kv(), nonce)
    }

    open spec fn processed_at(&self, nonce: u32) -> Result<Option<bool>, DbError> {
        lookup::<u32, bool>(self.domain_id(), self.kv(), Column::ProcessedByNonce, nonce)
    }

    open spec fn scope(&self) -> u32 {
        self.domain_id()
    }

    fn retrieve_highest_seen_message_nonce(&self) -> (r: Result<Option<u32>, DbError>) {
        HyperlaneRocksDB::retrieve_highest_seen_message_nonce(self)
    }

    fn retrieve_message_by_nonce(&self, nonce: u32) -> (r: Result<Option<HyperlaneMessage>, DbError>) {
        HyperlaneRocksDB::retrieve_message_by_nonce(self, nonce)
    }

    fn retrieve_processed_by_nonce(&self, nonce: u32) -> (r: Result<Option<bool>, DbError>) {
        HyperlaneRocksDB::retrieve_processed_by_nonce(self, &nonce)
    }

    fn domain(&self) -> (r: &HyperlaneDomain) {
        HyperlaneRocksDB::domain(self)
    }
}

} // verus!
