use sui_inclusion::checkpoint::{
    CheckpointContents, CheckpointData, CheckpointSummary, CheckpointTransaction, Committee,
    ExecutionDigests, TransactionEffects, TransactionEvents,
};
use sui_inclusion::digest::Digest;
use sui_inclusion::inclusion::{
    authenticate_summary, check_events, locate_transaction, Proof, VerificationError,
};

const EPOCH: u64 = 7;

fn d(n: u8) -> Digest {
    Digest::new([n; 32])
}

fn tx(id: u8, effects: u8, events: Option<u8>) -> CheckpointTransaction {
    let effects = TransactionEffects::new(d(id), d(effects), events.map(d));
    CheckpointTransaction::new(effects, events.map(|e| TransactionEvents::new(d(e))))
}

/// Three transactions T1, T2, T3; T2 emits no events, the others do.
fn honest_checkpoint() -> CheckpointData {
    let txs = vec![tx(1, 11, Some(21)), tx(2, 12, None), tx(3, 13, Some(23))];
    let entries: Vec<ExecutionDigests> = txs.iter().map(|t| t.effects.execution_digests()).collect();
    let summary = CheckpointSummary::new(EPOCH, 42, d(99));
    CheckpointData::new(summary, CheckpointContents::new(entries, d(99)), txs)
}

fn proof_for(checkpoint: CheckpointData, target: u8) -> Proof {
    Proof::new(checkpoint, Committee::new(EPOCH), d(target)).unwrap()
}

#[test]
fn scenario_target_second_of_three() {
    let proof = proof_for(honest_checkpoint(), 2);
    let (effects, events) = proof.verify(true).unwrap();
    assert_eq!(effects, TransactionEffects::new(d(2), d(12), None));
    assert_eq!(events, None);
}

#[test]
fn scenario_flipped_content_digest() {
    let mut checkpoint = honest_checkpoint();
    checkpoint.checkpoint_contents.entries[1] = ExecutionDigests::new(d(2), d(77));
    let proof = proof_for(checkpoint, 2);
    assert_eq!(proof.verify(true), Err(VerificationError::TransactionNotFound));
}

#[test]
fn honest_proof_verifies_every_transaction() {
    let checkpoint = honest_checkpoint();
    for (i, id) in [1u8, 2, 3].iter().enumerate() {
        let proof = proof_for(checkpoint.clone(), *id);
        let expected = checkpoint.transactions[i];
        assert_eq!(proof.verify(true), Ok((expected.effects, expected.events)));
        assert!(proof.passes(true));
    }
}

#[test]
fn honest_proof_returns_present_events() {
    let proof = proof_for(honest_checkpoint(), 3);
    let (effects, events) = proof.verify(true).unwrap();
    assert_eq!(effects.digest, d(13));
    assert_eq!(events, Some(TransactionEvents::new(d(23))));
}

#[test]
fn unknown_identifier_is_not_found() {
    let proof = proof_for(honest_checkpoint(), 4);
    assert_eq!(proof.verify(true), Err(VerificationError::TransactionNotFound));
    assert!(!proof.passes(true));
}

#[test]
fn tampered_effects_are_not_found() {
    let mut checkpoint = honest_checkpoint();
    checkpoint.transactions[0].effects = TransactionEffects::new(d(1), d(55), Some(d(21)));
    let proof = proof_for(checkpoint, 1);
    assert_eq!(proof.verify(true), Err(VerificationError::TransactionNotFound));
}

#[test]
fn rejected_signature_fails_summary() {
    let proof = proof_for(honest_checkpoint(), 2);
    assert_eq!(proof.verify(false), Err(VerificationError::SummaryVerificationFailed));
}

#[test]
fn committee_of_other_epoch_fails_summary() {
    let proof = Proof::new(honest_checkpoint(), Committee::new(EPOCH + 1), d(2)).unwrap();
    assert_eq!(proof.verify(true), Err(VerificationError::SummaryVerificationFailed));
}

#[test]
fn content_digest_mismatch_fails_summary() {
    let mut checkpoint = honest_checkpoint();
    checkpoint.checkpoint_contents.digest = d(98);
    let proof = proof_for(checkpoint, 2);
    assert_eq!(proof.verify(true), Err(VerificationError::SummaryVerificationFailed));
}

#[test]
fn empty_contents_fail_summary() {
    let summary = CheckpointSummary::new(EPOCH, 1, d(99));
    let checkpoint = CheckpointData::new(summary, CheckpointContents::new(vec![], d(99)), vec![]);
    let proof = proof_for(checkpoint, 2);
    assert_eq!(proof.verify(true), Err(VerificationError::SummaryVerificationFailed));
}

#[test]
fn substituted_events_mismatch() {
    let mut checkpoint = honest_checkpoint();
    checkpoint.transactions[0].events = Some(TransactionEvents::new(d(66)));
    let proof = proof_for(checkpoint, 1);
    assert_eq!(proof.verify(true), Err(VerificationError::EventsDigestMismatch));
}

#[test]
fn dropped_events_mismatch() {
    let mut checkpoint = honest_checkpoint();
    checkpoint.transactions[2].events = None;
    let proof = proof_for(checkpoint, 3);
    assert_eq!(proof.verify(true), Err(VerificationError::EventsDigestMismatch));
}

#[test]
fn undeclared_events_mismatch() {
    let mut checkpoint = honest_checkpoint();
    checkpoint.transactions[1].events = Some(TransactionEvents::new(d(22)));
    let proof = proof_for(checkpoint, 2);
    assert_eq!(proof.verify(true), Err(VerificationError::EventsDigestMismatch));
}

#[test]
fn verify_is_idempotent() {
    for target in [1u8, 2, 4] {
        let proof = proof_for(honest_checkpoint(), target);
        assert_eq!(proof.verify(true), proof.verify(true));
        assert_eq!(proof.verify(false), proof.verify(false));
    }
}

#[test]
fn unpaired_checkpoint_is_malformed() {
    let mut checkpoint = honest_checkpoint();
    checkpoint.transactions.pop();
    let built = Proof::new(checkpoint.clone(), Committee::new(EPOCH), d(1));
    assert_eq!(built, Err(VerificationError::MalformedCheckpoint));
    let proof = Proof { checkpoint, committee: Committee::new(EPOCH), tid: d(1) };
    assert_eq!(proof.verify(true), Err(VerificationError::MalformedCheckpoint));
}

#[test]
fn first_matching_pair_wins() {
    let txs = vec![tx(5, 15, None), tx(5, 15, Some(25))];
    let entries: Vec<ExecutionDigests> = txs.iter().map(|t| t.effects.execution_digests()).collect();
    assert_eq!(locate_transaction(&entries, &txs, &d(5)), Ok(0));
}

#[test]
fn locate_skips_identifier_with_wrong_effects() {
    let txs = vec![tx(5, 15, None), tx(5, 16, None)];
    let entries = vec![ExecutionDigests::new(d(5), d(99)), ExecutionDigests::new(d(5), d(16))];
    assert_eq!(locate_transaction(&entries, &txs, &d(5)), Ok(1));
    assert_eq!(locate_transaction(&entries, &txs[..1].to_vec(), &d(5)),
        Err(VerificationError::MalformedCheckpoint));
}

#[test]
fn stages_in_isolation() {
    let checkpoint = honest_checkpoint();
    let committee = Committee::new(EPOCH);
    assert_eq!(authenticate_summary(&checkpoint.checkpoint_summary,
        &checkpoint.checkpoint_contents, &committee, true), Ok(()));
    assert_eq!(check_events(&checkpoint.transactions[0]), Ok(()));
    assert_eq!(check_events(&tx(9, 19, None)), Ok(()));
}

#[test]
fn digest_comparison_is_bit_exact() {
    let mut bytes = [3u8; 32];
    let a = Digest::new(bytes);
    bytes[31] = 4;
    let b = Digest::new(bytes);
    assert!(a.equals(&a));
    assert!(!a.equals(&b));
    assert!(ExecutionDigests::new(a, b).equals(&ExecutionDigests::new(a, b)));
    assert!(!ExecutionDigests::new(a, b).equals(&ExecutionDigests::new(b, b)));
}

#[test]
fn error_messages_are_distinct() {
    let all = [
        VerificationError::SummaryVerificationFailed,
        VerificationError::MalformedCheckpoint,
        VerificationError::TransactionNotFound,
        VerificationError::EventsDigestMismatch,
    ];
    assert_eq!(VerificationError::TransactionNotFound.message(),
        "transaction not found in checkpoint contents");
    for i in 0..all.len() {
        for j in 0..all.len() {
            assert_eq!(i == j, all[i].message() == all[j].message());
        }
    }
}
