use zkpoker::attestation::{NoirVerifier, VerificationResult, VerifierError};

fn proof_with_head() -> [u8; 128] {
    let mut proof_arr = [1u8; 128];
    proof_arr[0] = 0xa3;
    proof_arr[1] = 0x5f;
    proof_arr
}

fn head(proof: &[u8; 128]) -> [u8; 32] {
    let mut h = [0u8; 32];
    h.copy_from_slice(&proof[..32]);
    h
}

#[test]
fn test_valid_proof() {
    let mut v = NoirVerifier::new();
    let cards: [u8; 2] = [51, 38];
    let salt = [42u8; 32];
    let commitment = [0xABu8; 32];
    let proof_arr = proof_with_head();
    v.record_zkverify_attestation(
        "bb-verify-test-p1".to_string(),
        head(&proof_arr),
        [0u8; 32],
        6,
        true,
        String::new(),
    )
    .unwrap();
    let mut audit: Vec<VerificationResult> = Vec::new();
    let result = v.verify_proof(&cards, &salt, &commitment, 6, &proof_arr, &[0u8; 32], &mut audit);
    assert_eq!(result, Ok(true));
    assert!(audit.len() > 0);
    assert!(audit[0].valid);
    assert_eq!(audit[0].claimed_rank, 6);
}

#[test]
fn test_no_attestation_rejected() {
    let v = NoirVerifier::new();
    let mut proof_arr = [1u8; 128];
    proof_arr[0] = 0xa3;
    let mut audit: Vec<VerificationResult> = Vec::new();
    let r = v.verify_proof(&[51, 38], &[42u8; 32], &[0xAB; 32], 6, &proof_arr, &[0u8; 32], &mut audit);
    assert_eq!(r, Err(VerifierError::AttestationMissing));
    assert!(audit.is_empty());
}

#[test]
fn test_wrong_commitment_with_attestation_passes() {
    let mut v = NoirVerifier::new();
    let mut proof_arr = [1u8; 128];
    proof_arr[0] = 0xa3;
    v.record_zkverify_attestation(
        "bb-verify-test".to_string(),
        head(&proof_arr),
        [0u8; 32],
        6,
        true,
        String::new(),
    )
    .unwrap();
    let mut audit: Vec<VerificationResult> = Vec::new();
    let result = v.verify_proof(&[51, 38], &[42u8; 32], &[0xDE; 32], 6, &proof_arr, &[0u8; 32], &mut audit);
    assert_eq!(result, Ok(true));
}

#[test]
fn test_empty_proof_rejected() {
    let mut v = NoirVerifier::new();
    v.record_zkverify_attestation("a".to_string(), [0u8; 32], [0u8; 32], 6, true, String::new())
        .unwrap();
    let mut audit: Vec<VerificationResult> = Vec::new();
    let r = v.verify_proof(&[51, 38], &[42u8; 32], &[0xAB; 32], 6, &[0u8; 128], &[0u8; 32], &mut audit);
    assert_eq!(r, Err(VerifierError::EmptyProof));
}

#[test]
fn test_record_zkverify_attestation() {
    let mut v = NoirVerifier::new();
    assert_eq!(v.get_attestation_count(), 0);
    let proof_hash = [0xCA; 32];
    let player = [0x01; 32];
    let idx = v
        .record_zkverify_attestation(
            "zkv_att_abc123".to_string(),
            proof_hash,
            player,
            6,
            true,
            "0xblock_deadbeef".to_string(),
        )
        .unwrap();
    assert_eq!(idx, 0);
    assert_eq!(v.get_attestation_count(), 1);
    let stored = v.get_attestation(0).unwrap();
    assert_eq!(stored.claimed_rank, 6);
    assert!(stored.verified);
    assert_eq!(stored.attestation_id, "zkv_att_abc123");
    assert_eq!(stored.block_hash, "0xblock_deadbeef");
    assert!(v.has_attestation(&proof_hash));
    assert!(!v.has_attestation(&[0xFF; 32]));
    let idx2 = v
        .record_zkverify_attestation(
            "zkv_att_xyz789".to_string(),
            [0xBB; 32],
            player,
            3,
            true,
            "0xblock2".to_string(),
        )
        .unwrap();
    assert_eq!(idx2, 1);
    assert_eq!(v.get_attestation_count(), 2);
}

#[test]
fn record_with_bad_rank_stores_nothing() {
    let mut v = NoirVerifier::new();
    let r = v.record_zkverify_attestation("x".to_string(), [1; 32], [2; 32], 10, true, String::new());
    assert_eq!(r, Err(VerifierError::InvalidRank));
    assert_eq!(v.get_attestation_count(), 0);
    assert!(!v.has_attestation(&[1; 32]));
    let idx = v
        .record_zkverify_attestation("y".to_string(), [1; 32], [2; 32], 9, false, String::new())
        .unwrap();
    assert_eq!(idx, 0);
}

#[test]
fn missing_index_is_not_found() {
    let v = NoirVerifier::new();
    assert!(matches!(v.get_attestation(0), Err(VerifierError::NotFound)));
}

#[test]
fn membership_survives_later_records() {
    let mut v = NoirVerifier::new();
    v.record_zkverify_attestation("a".to_string(), [7; 32], [0; 32], 1, true, String::new())
        .unwrap();
    assert!(v.has_attestation(&[7; 32]));
    v.record_zkverify_attestation("b".to_string(), [7; 32], [0; 32], 2, true, String::new())
        .unwrap();
    v.record_zkverify_attestation("c".to_string(), [8; 32], [0; 32], 3, true, String::new())
        .unwrap();
    assert!(v.has_attestation(&[7; 32]));
    assert_eq!(v.get_attestation_count(), 3);
}

#[test]
fn gate_checks_cards_and_rank_in_order() {
    let mut v = NoirVerifier::new();
    let proof = proof_with_head();
    v.record_zkverify_attestation("a".to_string(), head(&proof), [0; 32], 5, true, String::new())
        .unwrap();
    let mut audit: Vec<VerificationResult> = Vec::new();
    assert_eq!(
        v.verify_proof(&[52, 1], &[0; 32], &[1; 32], 5, &proof, &[0; 32], &mut audit),
        Err(VerifierError::InvalidCard)
    );
    assert_eq!(
        v.verify_proof(&[3, 3], &[0; 32], &[1; 32], 5, &proof, &[0; 32], &mut audit),
        Err(VerifierError::DuplicateCard)
    );
    assert_eq!(
        v.verify_proof(&[3, 4], &[0; 32], &[1; 32], 10, &proof, &[0; 32], &mut audit),
        Err(VerifierError::InvalidRank)
    );
    assert_eq!(
        v.verify_proof(&[52, 52], &[0; 32], &[1; 32], 10, &[0; 128], &[0; 32], &mut audit),
        Err(VerifierError::EmptyProof)
    );
    assert!(audit.is_empty());
}

#[test]
fn winner_by_rank() {
    assert_eq!(NoirVerifier::resolve_winner(6, 3), Ok(0));
    assert_eq!(NoirVerifier::resolve_winner(2, 8), Ok(1));
    assert_eq!(NoirVerifier::resolve_winner(4, 4), Ok(2));
    assert_eq!(NoirVerifier::resolve_winner(10, 4), Err(VerifierError::InvalidRank));
    assert_eq!(NoirVerifier::resolve_winner(4, 10), Err(VerifierError::InvalidRank));
}
