use vstd::prelude::*;

use crate::digest::Digest;

verus! {

/// One committed content entry of a checkpoint: a transaction identifier
/// bound to the digest of that transaction's effects.
#[derive(Clone, Copy, Debug, PartialEq, Eq, Hash)]
pub struct ExecutionDigests {
    pub transaction: Digest,
    pub effects: Digest,
}

impl ExecutionDigests {
    pub fn new(transaction: Digest, effects: Digest) -> (r: ExecutionDigests)
        ensures
            r.transaction == transaction,
            r.effects == effects,
    {
        ExecutionDigests { transaction, effects }
    }

    /// Bit-exact comparison of both digests.
    pub fn equals(&self, other: &ExecutionDigests) -> (r: bool)
        ensures
            r == (*self == *other),
    {
        self.transaction.equals(&other.transaction) && self.effects.equals(&other.effects)
    }
}

/// The effects of one executed transaction, as the verifier reads them:
/// the transaction they belong to, their own content digest, and the
/// digest of the events they emitted, if any.
#[derive(Clone, Copy, Debug, PartialEq, Eq, Hash)]
pub struct TransactionEffects {
    pub transaction_digest: Digest,
    pub digest: Digest,
    pub events_digest: Option<Digest>,
}

impl TransactionEffects {
    pub fn new(transaction_digest: Digest, digest: Digest, events_digest: Option<Digest>) -> (r:
        TransactionEffects)
        ensures
            r.transaction_digest == transaction_digest,
            r.digest == digest,
            r.events_digest == events_digest,
    {
        TransactionEffects { transaction_digest, digest, events_digest }
    }

    /// The pair that a content entry commits to for these effects.
    pub open spec fn spec_execution_digests(self) -> ExecutionDigests {
        ExecutionDigests { transaction: self.transaction_digest, effects: self.digest }
    }

    pub fn execution_digests(&self) -> (r: ExecutionDigests)
        ensures
            r == self.spec_execution_digests(),
    {
        ExecutionDigests { transaction: self.transaction_digest, effects: self.digest }
    }
}

/// The events emitted by one transaction, identified by their content digest.
#[derive(Clone, Copy, Debug, PartialEq, Eq, Hash)]
pub struct TransactionEvents {
    pub digest: Digest,
}

impl TransactionEvents {
    pub fn new(digest: Digest) -> (r: TransactionEvents)
        ensures
            r.digest == digest,
    {
        TransactionEvents { digest }
    }
}

/// A transaction as executed in a checkpoint: its effects and the events
/// object that came with it, if any.
#[derive(Clone, Copy, Debug, PartialEq, Eq, Hash)]
pub struct CheckpointTransaction {
    pub effects: TransactionEffects,
    pub events: Option<TransactionEvents>,
}

impl CheckpointTransaction {
    pub fn new(effects: TransactionEffects, events: Option<TransactionEvents>) -> (r:
        CheckpointTransaction)
        ensures
            r.effects == effects,
            r.events == events,
    {
        CheckpointTransaction { effects, events }
    }
}

/// The committee-signed header of a checkpoint.
#[derive(Clone, Copy, Debug, PartialEq, Eq, Hash)]
pub struct CheckpointSummary {
    pub epoch: u64,
    pub sequence_number: u64,
    /// Digest committing to the checkpoint's content list.
    pub content_digest: Digest,
}

impl CheckpointSummary {
    pub fn new(epoch: u64, sequence_number: u64, content_digest: Digest) -> (r: CheckpointSummary)
        ensures
            r.epoch == epoch,
            r.sequence_number == sequence_number,
            r.content_digest == content_digest,
    {
        CheckpointSummary { epoch, sequence_number, content_digest }
    }
}

/// The ordered content list of a checkpoint, together with the digest that
/// the digest primitive computed over that list.
#[derive(Clone, Debug, PartialEq, Eq, Hash)]
pub struct CheckpointContents {
    pub entries: Vec<ExecutionDigests>,
    pub digest: Digest,
}

impl CheckpointContents {
    pub fn new(entries: Vec<ExecutionDigests>, digest: Digest) -> (r: CheckpointContents)
        ensures
            r.entries@ == entries@,
            r.digest == digest,
    {
        CheckpointContents { entries, digest }
    }
}

/// The validator committee of one epoch. Its keys and weights only matter
/// to the signature primitive; the verifier reads its epoch.
#[derive(Clone, Copy, Debug, PartialEq, Eq, Hash)]
pub struct Committee {
    pub epoch: u64,
}

impl Committee {
    pub fn new(epoch: u64) -> (r: Committee)
        ensures
            r.epoch == epoch,
    {
        Committee { epoch }
    }
}

/// A checkpoint's signed summary, its content list and the transactions
/// executed in it; entries and transactions correspond by position.
#[derive(Clone, Debug, PartialEq, Eq, Hash)]
pub struct CheckpointData {
    pub checkpoint_summary: CheckpointSummary,
    pub checkpoint_contents: CheckpointContents,
    pub transactions: Vec<CheckpointTransaction>,
}

impl CheckpointData {
    pub fn new(
        checkpoint_summary: CheckpointSummary,
        checkpoint_contents: CheckpointContents,
        transactions: Vec<CheckpointTransaction>,
    ) -> (r: CheckpointData)
        ensures
            r.checkpoint_summary == checkpoint_summary,
            r.checkpoint_contents == checkpoint_contents,
            r.transactions@ == transactions@,
    {
        CheckpointData { checkpoint_summary, checkpoint_contents, transactions }
    }

    /// Content entries and transactions pair up one for one.
    pub open spec fn is_paired(self) -> bool {
        self.checkpoint_contents.entries@.len() == self.transactions@.len()
    }
}

} // verus!
