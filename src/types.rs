//! The records that the store persists, and their encodings.
use vstd::prelude::*;
use crate::codec::Codec;
use crate::hash::{H256, H512};
use crate::uint::U256;

verus! {

/// Names the Keccak-256 digest of a byte string.
pub uninterp spec fn keccak256_of(b: Seq<u8>) -> [u8; 32];

/// Relies on sha3's `Keccak256`: the 32-byte digest of the input, which depends
/// on the input alone.
#[verifier::external_body]
fn keccak256(b: &Vec<u8>) -> (r: H256)
    ensures
        r.0 == keccak256_of(b@),
{
    let digest = <sha3::Keccak256 as sha3::Digest>::digest(b.as_slice());
    let mut out = [0u8; 32];
    out.copy_from_slice(digest.as_slice());
    H256(out)
}

/// A chain the agent talks to: its name and its numeric domain id.
#[derive(Clone, Debug)]
pub struct HyperlaneDomain {
    pub name: String,
    pub id: u32,
}

impl HyperlaneDomain {
    /// A copy of the domain.
    pub fn clone_domain(&self) -> (r: HyperlaneDomain)
        ensures
            r.id == self.id,
            r.name@ == self.name@,
    {
        HyperlaneDomain { name: self.name.clone(), id: self.id }
    }
}

/// A dispatched cross-chain message.
#[derive(Clone, Debug)]
pub struct HyperlaneMessage {
    pub version: u8,
    pub nonce: u32,
    pub origin: u32,
    pub sender: H256,
    pub destination: u32,
    pub recipient: H256,
    pub body: Vec<u8>,
}

/// The mathematical value of a message.
pub struct MessageView {
    pub version: u8,
    pub nonce: u32,
    pub origin: u32,
    pub sender: H256,
    pub destination: u32,
    pub recipient: H256,
    pub body: Seq<u8>,
}

impl View for HyperlaneMessage {
    type V = MessageView;

    open spec fn view(&self) -> MessageView {
        MessageView {
            version: self.version,
            nonce: self.nonce,
            origin: self.origin,
            sender: self.sender,
            destination: self.destination,
            recipient: self.recipient,
            body: self.body@,
        }
    }
}

/// The fields of a message in their encoded order.
pub type MessageFields = (u8, (u32, (u32, (H256, (u32, (H256, Vec<u8>))))));

pub open spec fn message_fields(m: MessageView) -> (
    u8,
    (u32, (u32, (H256, (u32, (H256, Seq<u8>))))),
) {
    (m.version, (m.nonce, (m.origin, (m.sender, (m.destination, (m.recipient, m.body))))))
}

/// The id of a message: the Keccak-256 digest of its encoding.
pub open spec fn message_id(m: MessageView) -> H256 {
    H256(keccak256_of(HyperlaneMessage::spec_encode(m)))
}

impl HyperlaneMessage {
    /// The content-derived id of the message.
    pub fn id(&self) -> (r: H256)
        ensures
            r == message_id(self@),
    {
        keccak256(&self.encode())
    }
}

/// A message is encoded as version, nonce, origin, sender, destination and
/// recipient, each of fixed width, followed by its body.
impl Codec for HyperlaneMessage {
    open spec fn spec_encode(v: MessageView) -> Seq<u8> {
        MessageFields::spec_encode(message_fields(v))
    }

    open spec fn spec_decode(b: Seq<u8>) -> Option<MessageView> {
        match MessageFields::spec_decode(b) {
            Some((version, (nonce, (origin, (sender, (destination, (recipient, body))))))) => Some(
                MessageView { version, nonce, origin, sender, destination, recipient, body },
            ),
            None => None,
        }
    }

    proof fn lemma_round_trip(v: MessageView) {
        MessageFields::lemma_round_trip(message_fields(v));
    }

    fn encode(&self) -> (r: Vec<u8>) {
        let fields: MessageFields = (
            self.version,
            (
                self.nonce,
                (self.origin, (self.sender, (self.destination, (self.recipient, self.body.clone())))),
            ),
        );
        fields.encode()
    }

    fn decode(b: &[u8]) -> (r: Option<HyperlaneMessage>) {
        match MessageFields::decode(b) {
            Some((version, (nonce, (origin, (sender, (destination, (recipient, body))))))) => Some(
                HyperlaneMessage { version, nonce, origin, sender, destination, recipient, body },
            ),
            None => None,
        }
    }
}

/// A payment of gas for a message, as one on-chain event reports it.
#[derive(Clone, Copy, Debug)]
pub struct InterchainGasPayment {
    pub message_id: H256,
    pub destination: u32,
    pub payment: U256,
    pub gas_amount: U256,
}

impl View for InterchainGasPayment {
    type V = InterchainGasPayment;

    open spec fn view(&self) -> InterchainGasPayment {
        *self
    }
}

impl Codec for InterchainGasPayment {
    open spec fn spec_encode(v: InterchainGasPayment) -> Seq<u8> {
        <(H256, (u32, (U256, U256)))>::spec_encode((v.message_id, (v.destination, (v.payment, v.gas_amount))))
    }

    open spec fn spec_decode(b: Seq<u8>) -> Option<InterchainGasPayment> {
        match <(H256, (u32, (U256, U256)))>::spec_decode(b) {
            Some((message_id, (destination, (payment, gas_amount)))) => Some(InterchainGasPayment { message_id, destination, payment, gas_amount }),
            None => None,
        }
    }

    proof fn lemma_round_trip(v: InterchainGasPayment) {
        <(H256, (u32, (U256, U256)))>::lemma_round_trip((v.message_id, (v.destination, (v.payment, v.gas_amount))));
    }

    fn encode(&self) -> (r: Vec<u8>) {
        let fields: (H256, (u32, (U256, U256))) = (self.message_id, (self.destination, (self.payment, self.gas_amount)));
        fields.encode()
    }

    fn decode(b: &[u8]) -> (r: Option<InterchainGasPayment>) {
        match <(H256, (u32, (U256, U256)))>::decode(b) {
            Some((message_id, (destination, (payment, gas_amount)))) => Some(InterchainGasPayment { message_id, destination, payment, gas_amount }),
            None => None,
        }
    }
}

/// The key that payments for one message to one destination are summed under.
#[derive(Clone, Copy, Debug)]
pub struct GasPaymentKey {
    pub message_id: H256,
    pub destination: u32,
}

impl View for GasPaymentKey {
    type V = GasPaymentKey;

    open spec fn view(&self) -> GasPaymentKey {
        *self
    }
}

impl Codec for GasPaymentKey {
    open spec fn spec_encode(v: GasPaymentKey) -> Seq<u8> {
        <(H256, u32)>::spec_encode((v.message_id, v.destination))
    }

    open spec fn spec_decode(b: Seq<u8>) -> Option<GasPaymentKey> {
        match <(H256, u32)>::spec_decode(b) {
            Some((message_id, destination)) => Some(GasPaymentKey { message_id, destination }),
            None => None,
        }
    }

    proof fn lemma_round_trip(v: GasPaymentKey) {
        <(H256, u32)>::lemma_round_trip((v.message_id, v.destination));
    }

    fn encode(&self) -> (r: Vec<u8>) {
        let fields: (H256, u32) = (self.message_id, self.destination);
        fields.encode()
    }

    fn decode(b: &[u8]) -> (r: Option<GasPaymentKey>) {
        match <(H256, u32)>::decode(b) {
            Some((message_id, destination)) => Some(GasPaymentKey { message_id, destination }),
            None => None,
        }
    }
}

/// The stored part of a payment total; its key gives the rest.
#[derive(Clone, Copy, Debug)]
pub struct InterchainGasPaymentData {
    pub payment: U256,
    pub gas_amount: U256,
}

impl View for InterchainGasPaymentData {
    type V = InterchainGasPaymentData;

    open spec fn view(&self) -> InterchainGasPaymentData {
        *self
    }
}

impl Codec for InterchainGasPaymentData {
    open spec fn spec_encode(v: InterchainGasPaymentData) -> Seq<u8> {
        <(U256, U256)>::spec_encode((v.payment, v.gas_amount))
    }

    open spec fn spec_decode(b: Seq<u8>) -> Option<InterchainGasPaymentData> {
        match <(U256, U256)>::spec_decode(b) {
            Some((payment, gas_amount)) => Some(InterchainGasPaymentData { payment, gas_amount }),
            None => None,
        }
    }

    proof fn lemma_round_trip(v: InterchainGasPaymentData) {
        <(U256, U256)>::lemma_round_trip((v.payment, v.gas_amount));
    }

    fn encode(&self) -> (r: Vec<u8>) {
        let fields: (U256, U256) = (self.payment, self.gas_amount);
        fields.encode()
    }

    fn decode(b: &[u8]) -> (r: Option<InterchainGasPaymentData>) {
        match <(U256, U256)>::decode(b) {
            Some((payment, gas_amount)) => Some(InterchainGasPaymentData { payment, gas_amount }),
            None => None,
        }
    }
}

/// The on-chain coordinates of the log that reported a payment:
/// the key under which that log is marked as processed.
#[derive(Clone, Copy, Debug)]
pub struct InterchainGasPaymentMeta {
    pub transaction_id: H512,
    pub log_index: u64,
}

impl View for InterchainGasPaymentMeta {
    type V = InterchainGasPaymentMeta;

    open spec fn view(&self) -> InterchainGasPaymentMeta {
        *self
    }
}

impl Codec for InterchainGasPaymentMeta {
    open spec fn spec_encode(v: InterchainGasPaymentMeta) -> Seq<u8> {
        <(H512, u64)>::spec_encode((v.transaction_id, v.log_index))
    }

    open spec fn spec_decode(b: Seq<u8>) -> Option<InterchainGasPaymentMeta> {
        match <(H512, u64)>::spec_decode(b) {
            Some((transaction_id, log_index)) => Some(InterchainGasPaymentMeta { transaction_id, log_index }),
            None => None,
        }
    }

    proof fn lemma_round_trip(v: InterchainGasPaymentMeta) {
        <(H512, u64)>::lemma_round_trip((v.transaction_id, v.log_index));
    }

    fn encode(&self) -> (r: Vec<u8>) {
        let fields: (H512, u64) = (self.transaction_id, self.log_index);
        fields.encode()
    }

    fn decode(b: &[u8]) -> (r: Option<InterchainGasPaymentMeta>) {
        match <(H512, u64)>::decode(b) {
            Some((transaction_id, log_index)) => Some(InterchainGasPaymentMeta { transaction_id, log_index }),
            None => None,
        }
    }
}

/// Gas spent by the agent on a message.
#[derive(Clone, Copy, Debug)]
pub struct InterchainGasExpenditure {
    pub message_id: H256,
    pub tokens_used: U256,
    pub gas_used: U256,
}

impl View for InterchainGasExpenditure {
    type V = InterchainGasExpenditure;

    open spec fn view(&self) -> InterchainGasExpenditure {
        *self
    }
}

impl Codec for InterchainGasExpenditure {
    open spec fn spec_encode(v: InterchainGasExpenditure) -> Seq<u8> {
        <(H256, (U256, U256))>::spec_encode((v.message_id, (v.tokens_used, v.gas_used)))
    }

    open spec fn spec_decode(b: Seq<u8>) -> Option<InterchainGasExpenditure> {
        match <(H256, (U256, U256))>::spec_decode(b) {
            Some((message_id, (tokens_used, gas_used))) => Some(InterchainGasExpenditure { message_id, tokens_used, gas_used }),
            None => None,
        }
    }

    proof fn lemma_round_trip(v: InterchainGasExpenditure) {
        <(H256, (U256, U256))>::lemma_round_trip((v.message_id, (v.tokens_used, v.gas_used)));
    }

    fn encode(&self) -> (r: Vec<u8>) {
        let fields: (H256, (U256, U256)) = (self.message_id, (self.tokens_used, self.gas_used));
        fields.encode()
    }

    fn decode(b: &[u8]) -> (r: Option<InterchainGasExpenditure>) {
        match <(H256, (U256, U256))>::decode(b) {
            Some((message_id, (tokens_used, gas_used))) => Some(InterchainGasExpenditure { message_id, tokens_used, gas_used }),
            None => None,
        }
    }
}

/// The stored part of an expenditure total; its key gives the message.
#[derive(Clone, Copy, Debug)]
pub struct InterchainGasExpenditureData {
    pub tokens_used: U256,
    pub gas_used: U256,
}

impl View for InterchainGasExpenditureData {
    type V = InterchainGasExpenditureData;

    open spec fn view(&self) -> InterchainGasExpenditureData {
        *self
    }
}

impl Codec for InterchainGasExpenditureData {
    open spec fn spec_encode(v: InterchainGasExpenditureData) -> Seq<u8> {
        <(U256, U256)>::spec_encode((v.tokens_used, v.gas_used))
    }

    open spec fn spec_decode(b: Seq<u8>) -> Option<InterchainGasExpenditureData> {
        match <(U256, U256)>::spec_decode(b) {
            Some((tokens_used, gas_used)) => Some(InterchainGasExpenditureData { tokens_used, gas_used }),
            None => None,
        }
    }

    proof fn lemma_round_trip(v: InterchainGasExpenditureData) {
        <(U256, U256)>::lemma_round_trip((v.tokens_used, v.gas_used));
    }

    fn encode(&self) -> (r: Vec<u8>) {
        let fields: (U256, U256) = (self.tokens_used, self.gas_used);
        fields.encode()
    }

    fn decode(b: &[u8]) -> (r: Option<InterchainGasExpenditureData>) {
        match <(U256, U256)>::decode(b) {
            Some((tokens_used, gas_used)) => Some(InterchainGasExpenditureData { tokens_used, gas_used }),
            None => None,
        }
    }
}

/// The insertion of a message id into the origin chain's merkle tree.
#[derive(Clone, Copy, Debug)]
pub struct MerkleTreeInsertion {
    pub leaf_index: u32,
    pub message_id: H256,
}

impl View for MerkleTreeInsertion {
    type V = MerkleTreeInsertion;

    open spec fn view(&self) -> MerkleTreeInsertion {
        *self
    }
}

impl Codec for MerkleTreeInsertion {
    open spec fn spec_encode(v: MerkleTreeInsertion) -> Seq<u8> {
        <(u32, H256)>::spec_encode((v.leaf_index, v.message_id))
    }

    open spec fn spec_decode(b: Seq<u8>) -> Option<MerkleTreeInsertion> {
        match <(u32, H256)>::spec_decode(b) {
            Some((leaf_index, message_id)) => Some(MerkleTreeInsertion { leaf_index, message_id }),
            None => None,
        }
    }

    proof fn lemma_round_trip(v: MerkleTreeInsertion) {
        <(u32, H256)>::lemma_round_trip((v.leaf_index, v.message_id));
    }

    fn encode(&self) -> (r: Vec<u8>) {
        let fields: (u32, H256) = (self.leaf_index, self.message_id);
        fields.encode()
    }

    fn decode(b: &[u8]) -> (r: Option<MerkleTreeInsertion>) {
        match <(u32, H256)>::decode(b) {
            Some((leaf_index, message_id)) => Some(MerkleTreeInsertion { leaf_index, message_id }),
            None => None,
        }
    }
}

/// Where a log was emitted on its chain.
#[derive(Clone, Copy, Debug)]
pub struct LogMeta {
    pub address: H256,
    pub block_number: u64,
    pub block_hash: H256,
    pub transaction_id: H512,
    pub transaction_index: u64,
    pub log_index: u64,
}

/// An event together with the sequence number that an ordered indexer gave it,
/// if it gave one.
#[derive(Clone, Debug)]
pub struct Indexed<T> {
    pub inner: T,
    pub sequence: Option<u32>,
}

impl<T> Indexed<T> {
    pub fn new(inner: T, sequence: Option<u32>) -> (r: Indexed<T>)
        ensures
            r.inner == inner,
            r.sequence == sequence,
    {
        Indexed { inner, sequence }
    }

    pub fn inner(&self) -> (r: &T)
        ensures
            *r == self.inner,
    {
        &self.inner
    }
}

impl InterchainGasPaymentMeta {
    /// The processing key of the log that `meta` describes.
    pub fn from_log_meta(meta: &LogMeta) -> (r: InterchainGasPaymentMeta)
        ensures
            r.transaction_id == meta.transaction_id,
            r.log_index == meta.log_index,
    {
        InterchainGasPaymentMeta { transaction_id: meta.transaction_id, log_index: meta.log_index }
    }
}

impl InterchainGasPayment {
    /// The key that this payment is summed under.
    pub fn key(&self) -> (r: GasPaymentKey)
        ensures
            r.message_id == self.message_id,
            r.destination == self.destination,
    {
        GasPaymentKey { message_id: self.message_id, destination: self.destination }
    }
}

/// The state that message delivery records for a message; the store keeps it
/// without reading it.
#[derive(Clone, Copy, Debug, PartialEq, Eq, Structural)]
pub enum PendingOperationStatus {
    FirstPrepareAttempt,
    Retry,
    ReadyToSubmit,
    Confirm,
}

impl View for PendingOperationStatus {
    type V = PendingOperationStatus;

    open spec fn view(&self) -> PendingOperationStatus {
        *self
    }
}

pub open spec fn status_tag(s: PendingOperationStatus) -> u8 {
    match s {
        PendingOperationStatus::FirstPrepareAttempt => 0,
        PendingOperationStatus::Retry => 1,
        PendingOperationStatus::ReadyToSubmit => 2,
        PendingOperationStatus::Confirm => 3,
    }
}

pub open spec fn status_of_tag(t: u8) -> Option<PendingOperationStatus> {
    if t == 0 {
        Some(PendingOperationStatus::FirstPrepareAttempt)
    } else if t == 1 {
        Some(PendingOperationStatus::Retry)
    } else if t == 2 {
        Some(PendingOperationStatus::ReadyToSubmit)
    } else if t == 3 {
        Some(PendingOperationStatus::Confirm)
    } else {
        None
    }
}

/// A status is one byte, its variant's tag.
impl Codec for PendingOperationStatus {
    open spec fn spec_encode(v: PendingOperationStatus) -> Seq<u8> {
        seq![status_tag(v)]
    }

    open spec fn spec_decode(b: Seq<u8>) -> Option<PendingOperationStatus> {
        if b.len() == 1 {
            status_of_tag(b[0])
        } else {
            None
        }
    }

    proof fn lemma_round_trip(v: PendingOperationStatus) {
    }

    fn encode(&self) -> (r: Vec<u8>) {
        let t: u8 = match self {
            PendingOperationStatus::FirstPrepareAttempt => 0,
            PendingOperationStatus::Retry => 1,
            PendingOperationStatus::ReadyToSubmit => 2,
            PendingOperationStatus::Confirm => 3,
        };
        let mut r: Vec<u8> = Vec::new();
        r.push(t);
        assert(r@ =~= Self::spec_encode(*self));
        r
    }

    fn decode(b: &[u8]) -> (r: Option<PendingOperationStatus>) {
        if b.len() != 1 {
            None
        } else if b[0] == 0 {
            Some(PendingOperationStatus::FirstPrepareAttempt)
        } else if b[0] == 1 {
            Some(PendingOperationStatus::Retry)
        } else if b[0] == 2 {
            Some(PendingOperationStatus::ReadyToSubmit)
        } else if b[0] == 3 {
            Some(PendingOperationStatus::Confirm)
        } else {
            None
        }
    }
}

} // verus!
