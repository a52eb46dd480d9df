use vstd::prelude::*;
use crate::attestation::{gate_result, rank_ok, NoirVerifier, VerificationResult};
use crate::bytes::{all_zero, digest_eq};
use crate::digest::{player_id_bytes32, seat_preimage, sha256_of};

verus! {

/// A participant's account key.
#[derive(Clone, Copy, Debug, PartialEq, Eq)]
pub struct Address {
    pub key: [u8; 32],
}

/// Betting stage of the current hand.
#[derive(Clone, Copy, Debug, PartialEq, Eq, Structural)]
pub enum BettingRound {
    Preflop,
    Flop,
    Turn,
    River,
    Showdown,
}

/// One seat at the table. An all-zero `commitment` means none was submitted.
#[derive(Clone, Copy, Debug)]
pub struct Player {
    pub address: Address,
    pub chips: i128,
    pub commitment: [u8; 32],
    pub current_bet: i128,
    pub has_folded: bool,
}

/// The session of one two-player game.
#[derive(Debug)]
pub struct GameState {
    pub game_id: [u8; 32],
    pub players: Vec<Player>,
    pub pot: i128,
    pub community_cards: Vec<u32>,
    pub current_round: BettingRound,
    pub dealer_button: u32,
    pub current_player: u32,
    pub is_active: bool,
    pub player1_proof_hash: [u8; 32],
    pub player2_proof_hash: [u8; 32],
    pub verifier_contract: Address,
}

/// Audit record of a settled showdown.
#[derive(Clone, Copy, Debug)]
pub struct ShowdownEvent {
    pub winner: Address,
    pub player1_rank: u32,
    pub player2_rank: u32,
    pub player1_proof_hash: [u8; 32],
    pub player2_proof_hash: [u8; 32],
    pub player1_commitment: [u8; 32],
    pub player2_commitment: [u8; 32],
}

/// Why a game operation was refused. Player numbers are 1 and 2.
#[derive(Clone, Copy, Debug, PartialEq, Eq, Structural)]
pub enum GameError {
    NoGame,
    InvalidCommitment,
    PlayerNotFound,
    InvalidAmount,
    InsufficientChips,
    ChipOverflow,
    GameInactive,
    MissingCommitment(u32),
    EmptyProof(u32),
    InvalidRank(u32),
    VerificationFailed(u32),
}

/// The capability that decides whether a revealed hand may be settled.
pub trait ProofAttestor {
    /// Whether the backend accepts a hand revealed as `cards` with `salt`, against the
    /// stored `commitment`, with the claimed `rank`, proof blob `proof`, for `player`.
    spec fn accepts(
        &self,
        cards: Seq<u8>,
        salt: Seq<u8>,
        commitment: Seq<u8>,
        rank: u32,
        proof: Seq<u8>,
        player: Seq<u8>,
    ) -> bool;

    /// Whether `entries` are the audit records the backend emits for that hand.
    spec fn audit_ok(
        &self,
        entries: Seq<VerificationResult>,
        cards: Seq<u8>,
        salt: Seq<u8>,
        commitment: Seq<u8>,
        rank: u32,
        proof: Seq<u8>,
        player: Seq<u8>,
    ) -> bool;

    /// Asks the backend about one revealed hand of `player`, appending what it
    /// emits for audit to `audit`.
    fn attest(
        &self,
        hole_cards: &[u8; 2],
        salt: &[u8; 32],
        commitment: &[u8; 32],
        claimed_rank: u32,
        proof_bytes: &[u8; 128],
        player: &[u8; 32],
        audit: &mut Vec<VerificationResult>,
    ) -> (r: bool)
        ensures
            r == self.accepts(
                hole_cards@,
                salt@,
                commitment@,
                claimed_rank,
                proof_bytes@,
                player@,
            ),
            final(audit)@.len() >= old(audit)@.len(),
            final(audit)@.subrange(0, old(audit)@.len() as int) == old(audit)@,
            self.audit_ok(
                final(audit)@.subrange(old(audit)@.len() as int, final(audit)@.len() as int),
                hole_cards@,
                salt@,
                commitment@,
                claimed_rank,
                proof_bytes@,
                player@,
            ),
    ;
}

impl ProofAttestor for NoirVerifier {
    /// The attestation store accepts what passes `verify_proof`; salt and commitment
    /// are left to whoever recorded the attestation.
    open spec fn accepts(
        &self,
        cards: Seq<u8>,
        salt: Seq<u8>,
        commitment: Seq<u8>,
        rank: u32,
        proof: Seq<u8>,
        player: Seq<u8>,
    ) -> bool {
        gate_result(self.attestations@, cards, rank, proof) is Ok
    }

    /// One valid record naming the rank and player when accepted, none otherwise.
    open spec fn audit_ok(
        &self,
        entries: Seq<VerificationResult>,
        cards: Seq<u8>,
        salt: Seq<u8>,
        commitment: Seq<u8>,
        rank: u32,
        proof: Seq<u8>,
        player: Seq<u8>,
    ) -> bool {
        if self.accepts(cards, salt, commitment, rank, proof, player) {
            &&& entries.len() == 1
            &&& entries[0].valid
            &&& entries[0].claimed_rank == rank
            &&& entries[0].player@ == player
        } else {
            entries.len() == 0
        }
    }

    fn attest(
        &self,
        hole_cards: &[u8; 2],
        salt: &[u8; 32],
        commitment: &[u8; 32],
        claimed_rank: u32,
        proof_bytes: &[u8; 128],
        player: &[u8; 32],
        audit: &mut Vec<VerificationResult>,
    ) -> (r: bool) {
        let ghost before = audit@;
        let res = self.verify_proof(
            hole_cards,
            salt,
            commitment,
            claimed_rank,
            proof_bytes,
            player,
            audit,
        );
        assert(audit@.subrange(0, before.len() as int) =~= before);
        if res.is_ok() {
            assert(audit@.subrange(before.len() as int, audit@.len() as int) =~= seq![
                VerificationResult { valid: true, claimed_rank, player: *player },
            ]);
        } else {
            assert(audit@.subrange(before.len() as int, audit@.len() as int) =~= Seq::<
                VerificationResult,
            >::empty());
        }
        res.is_ok()
    }
}

/// A stand-in backend that accepts every hand.
pub struct MockNoirVerifier;

impl MockNoirVerifier {
    /// Accepts any hand.
    pub fn verify_proof(
        &self,
        hole_cards: &[u8; 2],
        salt: &[u8; 32],
        commitment: &[u8; 32],
        claimed_rank: u32,
        proof_bytes: &[u8; 128],
        player: &[u8; 32],
    ) -> (r: bool)
        ensures
            r,
    {
        true
    }
}

impl ProofAttestor for MockNoirVerifier {
    open spec fn accepts(
        &self,
        cards: Seq<u8>,
        salt: Seq<u8>,
        commitment: Seq<u8>,
        rank: u32,
        proof: Seq<u8>,
        player: Seq<u8>,
    ) -> bool {
        true
    }

    /// The stand-in emits nothing.
    open spec fn audit_ok(
        &self,
        entries: Seq<VerificationResult>,
        cards: Seq<u8>,
        salt: Seq<u8>,
        commitment: Seq<u8>,
        rank: u32,
        proof: Seq<u8>,
        player: Seq<u8>,
    ) -> bool {
        entries.len() == 0
    }

    fn attest(
        &self,
        hole_cards: &[u8; 2],
        salt: &[u8; 32],
        commitment: &[u8; 32],
        claimed_rank: u32,
        proof_bytes: &[u8; 128],
        player: &[u8; 32],
        audit: &mut Vec<VerificationResult>,
    ) -> (r: bool) {
        assert(audit@.subrange(0, audit@.len() as int) =~= audit@);
        assert(audit@.subrange(audit@.len() as int, audit@.len() as int) =~= Seq::<
            VerificationResult,
        >::empty());
        self.verify_proof(hole_cards, salt, commitment, claimed_rank, proof_bytes, player)
    }
}

/// A backend whose verdicts were obtained elsewhere (say, from another contract): it
/// accepts player one's hand exactly when `player1_accepted`, and any other hand
/// exactly when `player2_accepted`. Player one is recognised by its seat identifier.
pub struct VerdictAttestor {
    pub player1_accepted: bool,
    pub player2_accepted: bool,
}

impl ProofAttestor for VerdictAttestor {
    open spec fn accepts(
        &self,
        cards: Seq<u8>,
        salt: Seq<u8>,
        commitment: Seq<u8>,
        rank: u32,
        proof: Seq<u8>,
        player: Seq<u8>,
    ) -> bool {
        if player == seat_id(0) {
            self.player1_accepted
        } else {
            self.player2_accepted
        }
    }

    /// Replayed verdicts emit nothing.
    open spec fn audit_ok(
        &self,
        entries: Seq<VerificationResult>,
        cards: Seq<u8>,
        salt: Seq<u8>,
        commitment: Seq<u8>,
        rank: u32,
        proof: Seq<u8>,
        player: Seq<u8>,
    ) -> bool {
        entries.len() == 0
    }

    fn attest(
        &self,
        hole_cards: &[u8; 2],
        salt: &[u8; 32],
        commitment: &[u8; 32],
        claimed_rank: u32,
        proof_bytes: &[u8; 128],
        player: &[u8; 32],
        audit: &mut Vec<VerificationResult>,
    ) -> (r: bool) {
        assert(audit@.subrange(0, audit@.len() as int) =~= audit@);
        assert(audit@.subrange(audit@.len() as int, audit@.len() as int) =~= Seq::<
            VerificationResult,
        >::empty());
        let seat1 = player_id_bytes32(0);
        if digest_eq(&seat1, player) {
            self.player1_accepted
        } else {
            self.player2_accepted
        }
    }
}

/// Whether a commitment slot holds a submitted commitment.
pub open spec fn committed(c: [u8; 32]) -> bool {
    !all_zero(c@)
}

/// What player one receives from a pot of `pot` when the ranks are `r1` and `r2`.
/// On a tie the pot is halved and an odd chip goes to player one.
pub open spec fn award1(pot: int, r1: u32, r2: u32) -> int {
    if r1 > r2 {
        pot
    } else if r2 > r1 {
        0
    } else {
        pot - pot / 2
    }
}

/// What player two receives from a pot of `pot` when the ranks are `r1` and `r2`.
pub open spec fn award2(pot: int, r1: u32, r2: u32) -> int {
    if r1 > r2 {
        0
    } else if r2 > r1 {
        pot
    } else {
        pot / 2
    }
}

/// The identifier under which seat `index` is presented to the proof backend.
pub open spec fn seat_id(index: u32) -> Seq<u8> {
    sha256_of(seat_preimage(index))
}

/// The first failing check of a showdown that comes before the backend is asked.
pub open spec fn precheck_error(
    g: GameState,
    proof1: Seq<u8>,
    rank1: u32,
    proof2: Seq<u8>,
    rank2: u32,
) -> Option<GameError> {
    if !g.is_active {
        Some(GameError::GameInactive)
    } else if !committed(g.players@[0].commitment) {
        Some(GameError::MissingCommitment(1))
    } else if !committed(g.players@[1].commitment) {
        Some(GameError::MissingCommitment(2))
    } else if all_zero(proof1) {
        Some(GameError::EmptyProof(1))
    } else if all_zero(proof2) {
        Some(GameError::EmptyProof(2))
    } else if !rank_ok(rank1) {
        Some(GameError::InvalidRank(1))
    } else if !rank_ok(rank2) {
        Some(GameError::InvalidRank(2))
    } else {
        None
    }
}

/// The first failing precondition of a showdown, checked in order, if any.
pub open spec fn showdown_error<A: ProofAttestor>(
    g: GameState,
    a: A,
    proof1: Seq<u8>,
    rank1: u32,
    cards1: Seq<u8>,
    salt1: Seq<u8>,
    proof2: Seq<u8>,
    rank2: u32,
    cards2: Seq<u8>,
    salt2: Seq<u8>,
) -> Option<GameError> {
    if precheck_error(g, proof1, rank1, proof2, rank2) is Some {
        precheck_error(g, proof1, rank1, proof2, rank2)
    } else if !a.accepts(
        cards1,
        salt1,
        g.players@[0].commitment@,
        rank1,
        proof1,
        seat_id(0),
    ) {
        Some(GameError::VerificationFailed(1))
    } else if !a.accepts(
        cards2,
        salt2,
        g.players@[1].commitment@,
        rank2,
        proof2,
        seat_id(1),
    ) {
        Some(GameError::VerificationFailed(2))
    } else {
        None
    }
}

/// Whether paying out the pot would overflow a chip balance.
pub open spec fn payout_overflows(g: GameState, rank1: u32, rank2: u32) -> bool {
    g.players@[0].chips + award1(g.pot as int, rank1, rank2) > i128::MAX
        || g.players@[1].chips + award2(g.pot as int, rank1, rank2) > i128::MAX
}

/// Index of the first seat held by `a`, if any.
pub open spec fn seat_of(g: GameState, a: Address) -> Option<int> {
    if g.players@[0].address.key@ == a.key@ {
        Some(0)
    } else if g.players@[1].address.key@ == a.key@ {
        Some(1)
    } else {
        None
    }
}

impl GameState {
    /// Two seats, and no negative pot, balance or bet.
    pub open spec fn wf(&self) -> bool {
        &&& self.players@.len() == 2
        &&& self.pot >= 0
        &&& forall|i: int| 0 <= i < 2 ==> (#[trigger] self.players@[i]).chips >= 0
                && self.players@[i].current_bet >= 0
    }
}

/// A player with `chips` and nothing committed or bet.
fn fresh_player(address: Address, chips: i128) -> (r: Player)
    ensures
        r.address == address,
        r.chips == chips,
        r.commitment@ == seq![0u8; 32],
        r.current_bet == 0,
        !r.has_folded,
{
    let r = Player { address, chips, commitment: [0u8; 32], current_bet: 0, has_folded: false };
    assert(r.commitment@ =~= seq![0u8; 32]);
    r
}

/// A new active session in which both players hold `starting_chips`.
pub(crate) fn fresh_state(
    game_id: [u8; 32],
    player1: Address,
    player2: Address,
    starting_chips: i128,
    verifier: Address,
) -> (r: GameState)
    requires
        starting_chips >= 0,
    ensures
        r.wf(),
        r.game_id == game_id,
        r.players@[0].address == player1,
        r.players@[1].address == player2,
        r.players@[0].chips == starting_chips,
        r.players@[1].chips == starting_chips,
        !committed(r.players@[0].commitment),
        !committed(r.players@[1].commitment),
        r.players@[0].current_bet == 0,
        r.players@[1].current_bet == 0,
        r.pot == 0,
        r.community_cards@.len() == 0,
        r.current_round == BettingRound::Preflop,
        r.dealer_button == 0,
        r.current_player == 0,
        r.is_active,
        r.verifier_contract == verifier,
        !r.players@[0].has_folded,
        !r.players@[1].has_folded,
        all_zero(r.player1_proof_hash@),
        all_zero(r.player2_proof_hash@),
{
    let mut players: Vec<Player> = Vec::new();
    players.push(fresh_player(player1, starting_chips));
    players.push(fresh_player(player2, starting_chips));
    let zero = [0u8; 32];
    assert(zero@ =~= seq![0u8; 32]);
    GameState {
        game_id,
        players,
        pot: 0,
        community_cards: Vec::new(),
        current_round: BettingRound::Preflop,
        dealer_button: 0,
        current_player: 0,
        is_active: true,
        player1_proof_hash: zero,
        player2_proof_hash: zero,
        verifier_contract: verifier,
    }
}

/// Finds the seat held by `a`.
pub(crate) fn find_seat(g: &GameState, a: &Address) -> (r: Option<usize>)
    requires
        g.wf(),
    ensures
        r matches Some(i) ==> seat_of(*g, *a) == Some(i as int),
        r is None ==> seat_of(*g, *a) is None,
{
    if digest_eq(&g.players[0].address.key, &a.key) {
        Some(0)
    } else if digest_eq(&g.players[1].address.key, &a.key) {
        Some(1)
    } else {
        None
    }
}

} // verus!
