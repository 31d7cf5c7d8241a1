use vstd::prelude::*;

use crate::checkpoint::{
    CheckpointTransaction, ExecutionDigests, TransactionEffects, TransactionEvents,
};
use crate::digest::Digest;
use crate::inclusion::{
    entry_matches, events_consistent, first_match, first_match_from, summary_authentic,
    verify_spec, Proof, VerificationError,
};

verus! {

/// With no matching pair from `i` on, the search from `i` finds nothing.
pub proof fn lemma_no_match_from(
    entries: Seq<ExecutionDigests>,
    txs: Seq<CheckpointTransaction>,
    tid: Digest,
    i: int,
)
    requires
        0 <= i,
        entries.len() == txs.len(),
        forall|j: int| i <= j < entries.len() ==> !entry_matches(entries[j], txs[j], tid),
    ensures
        first_match_from(entries, txs, tid, i) is None,
    decreases entries.len() - i,
{
    if i < entries.len() {
        lemma_no_match_from(entries, txs, tid, i + 1);
    }
}

/// With a matching pair at `k` and none in `[i, k)`, the search from `i`
/// finds `k`.
pub proof fn lemma_match_at(
    entries: Seq<ExecutionDigests>,
    txs: Seq<CheckpointTransaction>,
    tid: Digest,
    i: int,
    k: int,
)
    requires
        0 <= i <= k < entries.len(),
        entries.len() == txs.len(),
        entry_matches(entries[k], txs[k], tid),
        forall|j: int| i <= j < k ==> !entry_matches(entries[j], txs[j], tid),
    ensures
        first_match_from(entries, txs, tid, i) == Some(k),
    decreases k - i,
{
    if i < k {
        lemma_match_at(entries, txs, tid, i + 1, k);
    }
}

/// The summary of `p` is authentic and its lists pair up one for one.
pub open spec fn well_formed_and_authentic(p: Proof, signature_valid: bool) -> bool {
    &&& summary_authentic(
        p.checkpoint.checkpoint_summary,
        p.checkpoint.checkpoint_contents,
        p.committee,
        signature_valid,
    )
    &&& p.checkpoint.is_paired()
}

/// `p` comes from a checkpoint that a valid committee produced honestly:
/// the summary is authentic, every content entry commits to the effects
/// paired with it, every transaction carries the events its effects declare,
/// and no transaction identifier occurs twice.
pub open spec fn honestly_built(p: Proof, signature_valid: bool) -> bool {
    let entries = p.checkpoint.checkpoint_contents.entries@;
    let txs = p.checkpoint.transactions@;
    &&& well_formed_and_authentic(p, signature_valid)
    &&& forall|i: int|
        0 <= i < entries.len() ==> entries[i] == txs[i].effects.spec_execution_digests()
            && events_consistent(txs[i])
    &&& forall|i: int, j: int|
        0 <= i < entries.len() && 0 <= j < entries.len() && i != j
            ==> entries[i].transaction != entries[j].transaction
}

/// The target's content entry sits at `k` and nowhere else.
pub open spec fn target_only_at(p: Proof, k: int) -> bool {
    let entries = p.checkpoint.checkpoint_contents.entries@;
    &&& 0 <= k < entries.len()
    &&& entries[k].transaction == p.tid
    &&& forall|j: int| 0 <= j < entries.len() && j != k ==> entries[j].transaction != p.tid
}

/// Authenticity: for an honestly built checkpoint and any transaction it
/// includes, verification succeeds with exactly that transaction's effects
/// and events, absent events included.
pub proof fn lemma_honest_proof_verifies(p: Proof, signature_valid: bool, k: int)
    requires
        honestly_built(p, signature_valid),
        0 <= k < p.checkpoint.checkpoint_contents.entries@.len(),
        p.checkpoint.checkpoint_contents.entries@[k].transaction == p.tid,
    ensures
        verify_spec(p, signature_valid) == Ok::<_, VerificationError>(
            (p.checkpoint.transactions@[k].effects, p.checkpoint.transactions@[k].events),
        ),
{
    let entries = p.checkpoint.checkpoint_contents.entries@;
    let txs = p.checkpoint.transactions@;
    assert forall|j: int| 0 <= j < k implies !entry_matches(entries[j], txs[j], p.tid) by {
        assert(entries[j].transaction != entries[k].transaction);
    }
    lemma_match_at(entries, txs, p.tid, 0, k);
}

/// Identifier tampering: a target that no content entry names is never
/// accepted, and is reported as not found once the summary and the pairing
/// have been checked.
pub proof fn lemma_absent_target_fails(p: Proof, signature_valid: bool)
    requires
        forall|j: int|
            0 <= j < p.checkpoint.checkpoint_contents.entries@.len()
                ==> p.checkpoint.checkpoint_contents.entries@[j].transaction != p.tid,
    ensures
        verify_spec(p, signature_valid) is Err,
        well_formed_and_authentic(p, signature_valid) ==> verify_spec(p, signature_valid)
            == Err::<(TransactionEffects, Option<TransactionEvents>), _>(
            VerificationError::TransactionNotFound,
        ),
{
    let entries = p.checkpoint.checkpoint_contents.entries@;
    let txs = p.checkpoint.transactions@;
    if entries.len() == txs.len() {
        lemma_no_match_from(entries, txs, p.tid, 0);
    }
}

/// Effects tampering: when the target's only content entry is paired with
/// effects whose digest differs from the committed one, the target is not
/// found.
pub proof fn lemma_tampered_effects_fail(p: Proof, signature_valid: bool, k: int)
    requires
        well_formed_and_authentic(p, signature_valid),
        target_only_at(p, k),
        p.checkpoint.transactions@[k].effects.digest
            != p.checkpoint.checkpoint_contents.entries@[k].effects,
    ensures
        verify_spec(p, signature_valid)
            == Err::<(TransactionEffects, Option<TransactionEvents>), _>(
            VerificationError::TransactionNotFound,
        ),
{
    let entries = p.checkpoint.checkpoint_contents.entries@;
    let txs = p.checkpoint.transactions@;
    lemma_no_match_from(entries, txs, p.tid, 0);
}

/// Committee substitution: a committee whose signature the primitive rejects,
/// or one of another epoch, fails summary verification.
pub proof fn lemma_wrong_committee_fails(p: Proof, signature_valid: bool)
    requires
        !signature_valid || p.committee.epoch != p.checkpoint.checkpoint_summary.epoch,
    ensures
        verify_spec(p, signature_valid)
            == Err::<(TransactionEffects, Option<TransactionEvents>), _>(
            VerificationError::SummaryVerificationFailed,
        ),
{
}

/// Events tampering: when the target is located and its events object is
/// not the one its effects declare (another digest, missing, or attached
/// although none is declared), verification reports an events mismatch.
pub proof fn lemma_tampered_events_fail(p: Proof, signature_valid: bool, k: int)
    requires
        well_formed_and_authentic(p, signature_valid),
        target_only_at(p, k),
        p.checkpoint.transactions@[k].effects.spec_execution_digests()
            == p.checkpoint.checkpoint_contents.entries@[k],
        !events_consistent(p.checkpoint.transactions@[k]),
    ensures
        verify_spec(p, signature_valid)
            == Err::<(TransactionEffects, Option<TransactionEvents>), _>(
            VerificationError::EventsDigestMismatch,
        ),
{
    let entries = p.checkpoint.checkpoint_contents.entries@;
    let txs = p.checkpoint.transactions@;
    lemma_match_at(entries, txs, p.tid, 0, k);
}

/// Idempotence: verifying the same proof with the same signature verdict
/// twice gives the same result both times.
pub proof fn lemma_verify_deterministic(p: Proof, q: Proof, signature_valid: bool)
    requires
        p == q,
    ensures
        verify_spec(p, signature_valid) == verify_spec(q, signature_valid),
{
}

} // verus!
