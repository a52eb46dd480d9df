use vstd::prelude::*;
use crate::bytes::{all_zero, any_nonzero, digest_eq};

verus! {

/// Highest hand rank a proof may claim (royal flush).
pub const MAX_RANK: u32 = 9;

/// Highest card index in a 52-card deck.
pub const MAX_CARD: u8 = 51;

/// Audit record emitted when a revealed hand is accepted.
#[derive(Clone, Debug)]
pub struct VerificationResult {
    pub valid: bool,
    pub claimed_rank: u32,
    pub player: [u8; 32],
}

/// Record asserting that the proof with fingerprint `proof_hash` was checked elsewhere.
#[derive(Clone, Debug)]
pub struct ZkVerifyAttestation {
    pub attestation_id: String,
    pub proof_hash: [u8; 32],
    pub player: [u8; 32],
    pub claimed_rank: u32,
    pub verified: bool,
    pub block_hash: String,
}

/// Why the verification gate or the attestation store refused a call.
#[derive(Clone, Copy, Debug, PartialEq, Eq, Structural)]
pub enum VerifierError {
    EmptyProof,
    InvalidCard,
    DuplicateCard,
    InvalidRank,
    AttestationMissing,
    NotFound,
    StoreFull,
}

/// Append-only store of attestations, indexed by position and looked up by fingerprint.
pub struct NoirVerifier {
    pub attestations: Vec<ZkVerifyAttestation>,
}

/// The fingerprint of a proof blob: its first 32 bytes.
pub open spec fn fingerprint_of(proof: Seq<u8>) -> Seq<u8> {
    proof.subrange(0, 32)
}

/// Whether some record in `atts` carries fingerprint `f`.
pub open spec fn attested(atts: Seq<ZkVerifyAttestation>, f: Seq<u8>) -> bool {
    exists|i: int| 0 <= i < atts.len() && (#[trigger] atts[i]).proof_hash@ == f
}

/// Whether a rank lies in the range a hand can have.
pub open spec fn rank_ok(rank: u32) -> bool {
    rank <= MAX_RANK
}

/// Whether two hole cards are valid deck indices.
pub open spec fn cards_in_range(cards: Seq<u8>) -> bool {
    cards[0] <= MAX_CARD && cards[1] <= MAX_CARD
}

/// The outcome of verifying one revealed hand, with its checks in order.
pub open spec fn gate_result(
    atts: Seq<ZkVerifyAttestation>,
    cards: Seq<u8>,
    rank: u32,
    proof: Seq<u8>,
) -> Result<bool, VerifierError> {
    if all_zero(proof) {
        Err(VerifierError::EmptyProof)
    } else if !cards_in_range(cards) {
        Err(VerifierError::InvalidCard)
    } else if cards[0] == cards[1] {
        Err(VerifierError::DuplicateCard)
    } else if !rank_ok(rank) {
        Err(VerifierError::InvalidRank)
    } else if !attested(atts, fingerprint_of(proof)) {
        Err(VerifierError::AttestationMissing)
    } else {
        Ok(true)
    }
}

/// Copies the first 32 bytes of a proof blob.
pub fn proof_fingerprint(proof: &[u8; 128]) -> (r: [u8; 32])
    ensures
        r@ == fingerprint_of(proof@),
{
    let mut out = [0u8; 32];
    let mut i: usize = 0;
    while i < 32
        invariant
            0 <= i <= 32,
            out@.len() == 32,
            proof@.len() == 128,
            forall|k: int| 0 <= k < i ==> out@[k] == proof@[k],
        decreases 32 - i,
    {
        out.set(i, proof[i]);
        i = i + 1;
    }
    assert(out@ =~= fingerprint_of(proof@));
    out
}

impl NoirVerifier {
    /// The records stored so far, in index order.
    pub open spec fn view_attestations(&self) -> Seq<ZkVerifyAttestation> {
        self.attestations@
    }

    /// An empty store.
    pub fn new() -> (r: Self)
        ensures
            r.attestations@.len() == 0,
    {
        NoirVerifier { attestations: Vec::new() }
    }

    /// Checks one revealed hand: proof present, cards valid, rank in range, and an
    /// attestation on record for the proof's fingerprint. On success an audit record
    /// is emitted into `audit`. Salt and commitment are accepted but not re-hashed:
    /// binding them to the cards is left to whoever recorded the attestation.
    pub fn verify_proof(
        &self,
        hole_cards: &[u8; 2],
        salt: &[u8; 32],
        commitment: &[u8; 32],
        claimed_rank: u32,
        proof_bytes: &[u8; 128],
        player: &[u8; 32],
        audit: &mut Vec<VerificationResult>,
    ) -> (r: Result<bool, VerifierError>)
        ensures
            r == gate_result(self.attestations@, hole_cards@, claimed_rank, proof_bytes@),
            r is Ok ==> final(audit)@ == old(audit)@.push(
                VerificationResult { valid: true, claimed_rank, player: *player },
            ),
            r is Err ==> final(audit)@ == old(audit)@,
    {
        if !any_nonzero(proof_bytes) {
            return Err(VerifierError::EmptyProof);
        }
        let c1 = hole_cards[0];
        let c2 = hole_cards[1];
        if c1 > MAX_CARD || c2 > MAX_CARD {
            return Err(VerifierError::InvalidCard);
        }
        if c1 == c2 {
            return Err(VerifierError::DuplicateCard);
        }
        if claimed_rank > MAX_RANK {
            return Err(VerifierError::InvalidRank);
        }
        let fp = proof_fingerprint(proof_bytes);
        if !self.has_attestation(&fp) {
            return Err(VerifierError::AttestationMissing);
        }
        audit.push(VerificationResult { valid: true, claimed_rank, player: *player });
        Ok(true)
    }

    /// Compares two ranks: 0 when player one wins, 1 when player two wins, 2 on a tie.
    pub fn resolve_winner(p1_rank: u32, p2_rank: u32) -> (r: Result<u32, VerifierError>)
        ensures
            !rank_ok(p1_rank) || !rank_ok(p2_rank) <==> r == Err::<u32, VerifierError>(
                VerifierError::InvalidRank,
            ),
            rank_ok(p1_rank) && rank_ok(p2_rank) ==> r == Ok::<u32, VerifierError>(
                if p1_rank > p2_rank { 0u32 } else if p2_rank > p1_rank { 1u32 } else { 2u32 },
            ),
    {
        if p1_rank > MAX_RANK || p2_rank > MAX_RANK {
            return Err(VerifierError::InvalidRank);
        }
        if p1_rank > p2_rank {
            Ok(0)
        } else if p2_rank > p1_rank {
            Ok(1)
        } else {
            Ok(2)
        }
    }

    /// Appends an attestation and returns its index. A rank outside [0, 9] is refused
    /// and nothing is stored; a full index space is refused likewise.
    pub fn record_zkverify_attestation(
        &mut self,
        attestation_id: String,
        proof_hash: [u8; 32],
        player: [u8; 32],
        claimed_rank: u32,
        verified: bool,
        block_hash: String,
    ) -> (r: Result<u32, VerifierError>)
        ensures
            !rank_ok(claimed_rank) ==> r == Err::<u32, VerifierError>(VerifierError::InvalidRank)
                && final(self).attestations@ == old(self).attestations@,
            rank_ok(claimed_rank) && old(self).attestations@.len() >= u32::MAX
                ==> r == Err::<u32, VerifierError>(VerifierError::StoreFull)
                && final(self).attestations@ == old(self).attestations@,
            rank_ok(claimed_rank) && old(self).attestations@.len() < u32::MAX ==> {
                &&& r == Ok::<u32, VerifierError>(old(self).attestations@.len() as u32)
                &&& final(self).attestations@.len() == old(self).attestations@.len() + 1
                &&& final(self).attestations@.subrange(0, old(self).attestations@.len() as int)
                    == old(self).attestations@
                &&& final(self).attestations@.last().attestation_id@ == attestation_id@
                &&& final(self).attestations@.last().proof_hash == proof_hash
                &&& final(self).attestations@.last().player == player
                &&& final(self).attestations@.last().claimed_rank == claimed_rank
                &&& final(self).attestations@.last().verified == verified
                &&& final(self).attestations@.last().block_hash@ == block_hash@
            },
    {
        if claimed_rank > MAX_RANK {
            return Err(VerifierError::InvalidRank);
        }
        let n = self.attestations.len();
        if n >= u32::MAX as usize {
            return Err(VerifierError::StoreFull);
        }
        let index = n as u32;
        self.attestations.push(
            ZkVerifyAttestation {
                attestation_id,
                proof_hash,
                player,
                claimed_rank,
                verified,
                block_hash,
            },
        );
        assert(self.attestations@.subrange(0, n as int) =~= old(self).attestations@);
        Ok(index)
    }

    /// Number of attestations ever stored.
    pub fn get_attestation_count(&self) -> (r: u32)
        requires
            self.attestations@.len() <= u32::MAX,
        ensures
            r == self.attestations@.len(),
    {
        self.attestations.len() as u32
    }

    /// The attestation stored at `index`.
    pub fn get_attestation(&self, index: u32) -> (r: Result<ZkVerifyAttestation, VerifierError>)
        ensures
            index < self.attestations@.len() <==> r is Ok,
            r is Err ==> r == Err::<ZkVerifyAttestation, VerifierError>(VerifierError::NotFound),
            r is Ok ==> {
                let a = r->Ok_0;
                let s = self.attestations@[index as int];
                &&& a.attestation_id@ == s.attestation_id@
                &&& a.proof_hash == s.proof_hash
                &&& a.player == s.player
                &&& a.claimed_rank == s.claimed_rank
                &&& a.verified == s.verified
                &&& a.block_hash@ == s.block_hash@
            },
    {
        if (index as usize) < self.attestations.len() {
            let s = &self.attestations[index as usize];
            Ok(
                ZkVerifyAttestation {
                    attestation_id: s.attestation_id.clone(),
                    proof_hash: s.proof_hash,
                    player: s.player,
                    claimed_rank: s.claimed_rank,
                    verified: s.verified,
                    block_hash: s.block_hash.clone(),
                },
            )
        } else {
            Err(VerifierError::NotFound)
        }
    }

    /// Whether an attestation was recorded for fingerprint `proof_hash`.
    pub fn has_attestation(&self, proof_hash: &[u8; 32]) -> (r: bool)
        ensures
            r == attested(self.attestations@, proof_hash@),
    {
        let mut i: usize = 0;
        while i < self.attestations.len()
            invariant
                0 <= i <= self.attestations@.len(),
                forall|k: int| 0 <= k < i ==> (#[trigger] self.attestations@[k]).proof_hash@ != proof_hash@,
            decreases self.attestations@.len() - i,
        {
            if digest_eq(&self.attestations[i].proof_hash, proof_hash) {
                return true;
            }
            i = i + 1;
        }
        false
    }
}

/// Attestation membership only grows: a fingerprint on record in a store stays on
/// record in every store that extends it by appending.
pub proof fn lemma_attested_monotonic(
    before: Seq<ZkVerifyAttestation>,
    after: Seq<ZkVerifyAttestation>,
    f: Seq<u8>,
)
    requires
        before.len() <= after.len(),
        after.subrange(0, before.len() as int) == before,
        attested(before, f),
    ensures
        attested(after, f),
{
    let i = choose|i: int| 0 <= i < before.len() && (#[trigger] before[i]).proof_hash@ == f;
    assert(after.subrange(0, before.len() as int)[i] == after[i]);
    assert(after[i].proof_hash@ == f);
}

} // verus!
