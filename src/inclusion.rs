use vstd::prelude::*;

use crate::checkpoint::{
    CheckpointContents, CheckpointData, CheckpointSummary, CheckpointTransaction, Committee,
    ExecutionDigests, TransactionEffects, TransactionEvents,
};
use crate::digest::Digest;

verus! {

/// Why a proof of inclusion was rejected. Every kind is terminal.
#[derive(Clone, Copy, Debug, PartialEq, Eq, Structural)]
pub enum VerificationError {
    /// The committee signature is invalid for the summary, or the summary
    /// does not commit to the supplied content list.
    SummaryVerificationFailed,
    /// Content entries and transactions do not pair up one for one.
    MalformedCheckpoint,
    /// No content entry binds the target to the effects paired with it.
    TransactionNotFound,
    /// The events object disagrees with the events digest of the effects.
    EventsDigestMismatch,
}

impl VerificationError {
    /// A short human-readable description of the failure.
    pub fn message(&self) -> (r: &'static str) {
        match self {
            VerificationError::SummaryVerificationFailed => "checkpoint summary verification failed",
            VerificationError::MalformedCheckpoint => "checkpoint contents and transactions differ in length",
            VerificationError::TransactionNotFound => "transaction not found in checkpoint contents",
            VerificationError::EventsDigestMismatch => "events digest does not match",
        }
    }
}

/// The summary is authentic: the committee's signature primitive accepted
/// it, the committee is the one of the summary's epoch, and the summary
/// commits to the supplied, non-empty content list.
pub open spec fn summary_authentic(
    summary: CheckpointSummary,
    contents: CheckpointContents,
    committee: Committee,
    signature_valid: bool,
) -> bool {
    &&& signature_valid
    &&& summary.epoch == committee.epoch
    &&& contents.entries@.len() > 0
    &&& contents.digest == summary.content_digest
}

/// Checks the checkpoint summary against the committee and the content list.
/// `signature_valid` is the verdict of the committee signature primitive on
/// this summary.
pub fn authenticate_summary(
    summary: &CheckpointSummary,
    contents: &CheckpointContents,
    committee: &Committee,
    signature_valid: bool,
) -> (r: Result<(), VerificationError>)
    ensures
        r == (if summary_authentic(*summary, *contents, *committee, signature_valid) {
            Ok(())
        } else {
            Err(VerificationError::SummaryVerificationFailed)
        }),
{
    if signature_valid && summary.epoch == committee.epoch && contents.entries.len() > 0
        && contents.digest.equals(&summary.content_digest) {
        Ok(())
    } else {
        Err(VerificationError::SummaryVerificationFailed)
    }
}

/// The content entry names the target and commits to exactly the effects
/// paired with it.
pub open spec fn entry_matches(entry: ExecutionDigests, tx: CheckpointTransaction, tid: Digest) -> bool {
    &&& entry.transaction == tid
    &&& tx.effects.spec_execution_digests() == entry
}

/// The first position at or after `i` whose pair matches the target.
pub open spec fn first_match_from(
    entries: Seq<ExecutionDigests>,
    txs: Seq<CheckpointTransaction>,
    tid: Digest,
    i: int,
) -> Option<int>
    decreases entries.len() - i,
{
    if i < 0 || i >= entries.len() || i >= txs.len() {
        None
    } else if entry_matches(entries[i], txs[i], tid) {
        Some(i)
    } else {
        first_match_from(entries, txs, tid, i + 1)
    }
}

/// The first position whose pair matches the target, if any.
pub open spec fn first_match(
    entries: Seq<ExecutionDigests>,
    txs: Seq<CheckpointTransaction>,
    tid: Digest,
) -> Option<int> {
    first_match_from(entries, txs, tid, 0)
}

/// Finds the first position whose content entry names `tid` and commits to
/// the effects of the transaction at the same position.
pub fn locate_transaction(
    entries: &Vec<ExecutionDigests>,
    txs: &Vec<CheckpointTransaction>,
    tid: &Digest,
) -> (r: Result<usize, VerificationError>)
    ensures
        entries@.len() != txs@.len() ==> r == Err::<usize, VerificationError>(
            VerificationError::MalformedCheckpoint,
        ),
        entries@.len() == txs@.len() ==> match r {
            Ok(k) => k < txs@.len() && first_match(entries@, txs@, *tid) == Some(k as int),
            Err(e) => e == VerificationError::TransactionNotFound && first_match(
                entries@,
                txs@,
                *tid,
            ) is None,
        },
{
    if entries.len() != txs.len() {
        return Err(VerificationError::MalformedCheckpoint);
    }
    let mut i: usize = 0;
    while i < entries.len()
        invariant
            entries@.len() == txs@.len(),
            0 <= i <= entries@.len(),
            first_match(entries@, txs@, *tid) == first_match_from(entries@, txs@, *tid, i as int),
        decreases entries@.len() - i,
    {
        let entry = &entries[i];
        let tx = &txs[i];
        if entry.transaction.equals(tid) && tx.effects.execution_digests().equals(entry) {
            return Ok(i);
        }
        i = i + 1;
    }
    Err(VerificationError::TransactionNotFound)
}

/// The events object is present exactly when the effects declare an events
/// digest, and then has that digest.
pub open spec fn events_consistent(tx: CheckpointTransaction) -> bool {
    match tx.events {
        Some(ev) => tx.effects.events_digest == Some(ev.digest),
        None => tx.effects.events_digest is None,
    }
}

/// Checks that the events attached to a transaction are the ones its
/// effects declare.
pub fn check_events(tx: &CheckpointTransaction) -> (r: Result<(), VerificationError>)
    ensures
        r == (if events_consistent(*tx) {
            Ok(())
        } else {
            Err(VerificationError::EventsDigestMismatch)
        }),
{
    let consistent = match (&tx.events, &tx.effects.events_digest) {
        (Some(ev), Some(declared)) => ev.digest.equals(declared),
        (None, None) => true,
        _ => false,
    };
    if consistent {
        Ok(())
    } else {
        Err(VerificationError::EventsDigestMismatch)
    }
}

/// A proof that the transaction `tid` is part of `checkpoint`, to be checked
/// against `committee`.
#[derive(Clone, Debug, PartialEq, Eq, Hash)]
pub struct Proof {
    pub checkpoint: CheckpointData,
    pub committee: Committee,
    pub tid: Digest,
}

/// What the verification of `p` yields when the committee signature
/// primitive's verdict on its summary is `signature_valid`.
pub open spec fn verify_spec(p: Proof, signature_valid: bool) -> Result<
    (TransactionEffects, Option<TransactionEvents>),
    VerificationError,
> {
    let cp = p.checkpoint;
    let entries = cp.checkpoint_contents.entries@;
    let txs = cp.transactions@;
    if !summary_authentic(cp.checkpoint_summary, cp.checkpoint_contents, p.committee, signature_valid) {
        Err(VerificationError::SummaryVerificationFailed)
    } else if entries.len() != txs.len() {
        Err(VerificationError::MalformedCheckpoint)
    } else {
        match first_match(entries, txs, p.tid) {
            None => Err(VerificationError::TransactionNotFound),
            Some(k) => if events_consistent(txs[k]) {
                Ok((txs[k].effects, txs[k].events))
            } else {
                Err(VerificationError::EventsDigestMismatch)
            },
        }
    }
}

impl Proof {
    /// Builds a proof; the checkpoint's entries and transactions must pair
    /// up one for one.
    pub fn new(checkpoint: CheckpointData, committee: Committee, tid: Digest) -> (r: Result<
        Proof,
        VerificationError,
    >)
        ensures
            checkpoint.is_paired() ==> r == Ok::<Proof, VerificationError>(
                Proof { checkpoint, committee, tid },
            ),
            !checkpoint.is_paired() ==> r == Err::<Proof, VerificationError>(
                VerificationError::MalformedCheckpoint,
            ),
    {
        if checkpoint.checkpoint_contents.entries.len() != checkpoint.transactions.len() {
            return Err(VerificationError::MalformedCheckpoint);
        }
        Ok(Proof { checkpoint, committee, tid })
    }

    /// Authenticates the summary, locates the target transaction and checks
    /// its events, stopping at the first failure. On success returns the
    /// authenticated effects and events of the target.
    pub fn verify(&self, signature_valid: bool) -> (r: Result<
        (TransactionEffects, Option<TransactionEvents>),
        VerificationError,
    >)
        ensures
            r == verify_spec(*self, signature_valid),
    {
        let cp = &self.checkpoint;
        if let Err(e) = authenticate_summary(
            &cp.checkpoint_summary,
            &cp.checkpoint_contents,
            &self.committee,
            signature_valid,
        ) {
            return Err(e);
        }
        let k = match locate_transaction(
            &cp.checkpoint_contents.entries,
            &cp.transactions,
            &self.tid,
        ) {
            Ok(k) => k,
            Err(e) => return Err(e),
        };
        let tx = &cp.transactions[k];
        if let Err(e) = check_events(tx) {
            return Err(e);
        }
        Ok((tx.effects, tx.events))
    }

    /// Whether the proof verifies, with every kind of failure collapsed into
    /// `false`.
    pub fn passes(&self, signature_valid: bool) -> (r: bool)
        ensures
            r == verify_spec(*self, signature_valid) is Ok,
    {
        self.verify(signature_valid).is_ok()
    }
}

} // verus!
