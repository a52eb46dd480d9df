use vstd::prelude::*;
use crate::attestation::{attested, cards_in_range, rank_ok, fingerprint_of, NoirVerifier, VerificationResult, proof_fingerprint, MAX_RANK};
use crate::bytes::{all_zero, any_nonzero};
use crate::digest::player_id_bytes32;
use crate::poker::{
    precheck_error,
    seat_id, BettingRound,
    find_seat, seat_of,
    fresh_state,
    award1, award2, committed, payout_overflows, showdown_error, Address, GameError, GameState,
    Player, ProofAttestor, ShowdownEvent,
};

verus! {

/// The state of a hand after a successful settlement of `g` with ranks `r1`, `r2`.
pub open spec fn settled(
    g: GameState,
    h: GameState,
    r1: u32,
    r2: u32,
    proof1: Seq<u8>,
    proof2: Seq<u8>,
) -> bool {
    &&& h.players@.len() == 2
    &&& h.players@[0].chips == g.players@[0].chips + award1(g.pot as int, r1, r2)
    &&& h.players@[1].chips == g.players@[1].chips + award2(g.pot as int, r1, r2)
    &&& forall|i: int|
        0 <= i < 2 ==> {
            &&& !committed((#[trigger] h.players@[i]).commitment)
            &&& h.players@[i].current_bet == 0
            &&& h.players@[i].address == g.players@[i].address
            &&& h.players@[i].has_folded == g.players@[i].has_folded
        }
    &&& h.pot == 0
    &&& !h.is_active
    &&& h.player1_proof_hash@ == fingerprint_of(proof1)
    &&& h.player2_proof_hash@ == fingerprint_of(proof2)
    &&& h.game_id == g.game_id
    &&& h.community_cards == g.community_cards
    &&& h.current_round == g.current_round
    &&& h.dealer_button == g.dealer_button
    &&& h.current_player == g.current_player
    &&& h.verifier_contract == g.verifier_contract
}

/// A session just opened for `p1` and `p2` with `chips` each and backend `v`.
pub open spec fn opened(
    st: GameState,
    game_id: [u8; 32],
    p1: Address,
    p2: Address,
    chips: i128,
    v: Address,
) -> bool {
    &&& st.wf()
    &&& st.game_id == game_id
    &&& st.players@[0].address == p1
    &&& st.players@[1].address == p2
    &&& st.players@[0].chips == chips
    &&& st.players@[1].chips == chips
    &&& !committed(st.players@[0].commitment)
    &&& !committed(st.players@[1].commitment)
    &&& st.players@[0].current_bet == 0
    &&& st.players@[1].current_bet == 0
    &&& !st.players@[0].has_folded
    &&& !st.players@[1].has_folded
    &&& st.pot == 0
    &&& st.community_cards@.len() == 0
    &&& st.current_round == BettingRound::Preflop
    &&& st.dealer_button == 0
    &&& st.current_player == 0
    &&& st.is_active
    &&& all_zero(st.player1_proof_hash@)
    &&& all_zero(st.player2_proof_hash@)
    &&& st.verifier_contract == v
}

/// `a` and `b` hold the same session.
pub open spec fn same_state(a: GameState, b: GameState) -> bool {
    &&& a.players@ == b.players@
    &&& a.community_cards@ == b.community_cards@
    &&& a.game_id == b.game_id
    &&& a.pot == b.pot
    &&& a.current_round == b.current_round
    &&& a.dealer_button == b.dealer_button
    &&& a.current_player == b.current_player
    &&& a.is_active == b.is_active
    &&& a.player1_proof_hash == b.player1_proof_hash
    &&& a.player2_proof_hash == b.player2_proof_hash
    &&& a.verifier_contract == b.verifier_contract
}

/// `b` differs from `a` at most in its seats.
pub open spec fn same_but_seats(a: GameState, b: GameState) -> bool {
    &&& b.game_id == a.game_id
    &&& b.pot == a.pot
    &&& b.community_cards == a.community_cards
    &&& b.current_round == a.current_round
    &&& b.dealer_button == a.dealer_button
    &&& b.current_player == a.current_player
    &&& b.is_active == a.is_active
    &&& b.player1_proof_hash == a.player1_proof_hash
    &&& b.player2_proof_hash == a.player2_proof_hash
    &&& b.verifier_contract == a.verifier_contract
}

/// `p` with its commitment replaced by `c`.
pub open spec fn with_commitment(p: Player, c: [u8; 32]) -> Player {
    Player {
        address: p.address,
        chips: p.chips,
        commitment: c,
        current_bet: p.current_bet,
        has_folded: p.has_folded,
    }
}

/// A copy of `s`, seat by seat and card by card.
fn copy_state(s: &GameState) -> (r: GameState)
    ensures
        same_state(r, *s),
{
    let mut players: Vec<Player> = Vec::new();
    let mut i: usize = 0;
    while i < s.players.len()
        invariant
            0 <= i <= s.players@.len(),
            players@ == s.players@.subrange(0, i as int),
        decreases s.players@.len() - i,
    {
        players.push(s.players[i]);
        i = i + 1;
        assert(players@ =~= s.players@.subrange(0, i as int));
    }
    let mut cards: Vec<u32> = Vec::new();
    let mut j: usize = 0;
    while j < s.community_cards.len()
        invariant
            0 <= j <= s.community_cards@.len(),
            cards@ == s.community_cards@.subrange(0, j as int),
        decreases s.community_cards@.len() - j,
    {
        cards.push(s.community_cards[j]);
        j = j + 1;
        assert(cards@ =~= s.community_cards@.subrange(0, j as int));
    }
    assert(players@ =~= s.players@);
    assert(cards@ =~= s.community_cards@);
    GameState {
        game_id: s.game_id,
        players,
        pot: s.pot,
        community_cards: cards,
        current_round: s.current_round,
        dealer_button: s.dealer_button,
        current_player: s.current_player,
        is_active: s.is_active,
        player1_proof_hash: s.player1_proof_hash,
        player2_proof_hash: s.player2_proof_hash,
        verifier_contract: s.verifier_contract,
    }
}

/// The seat that takes the hand: player one unless player two holds the higher rank.
pub open spec fn winner_of(g: GameState, r1: u32, r2: u32) -> Address {
    if r2 > r1 {
        g.players@[1].address
    } else {
        g.players@[0].address
    }
}

/// Poker table holding one session and the backend address set for new sessions.
pub struct PokerGameContract {
    /// Backend address recorded by sessions opened from now on.
    pub verifier: Option<Address>,
    /// Whether a session has been opened.
    pub initialized: bool,
    /// The current session (meaningful once `initialized`).
    pub state: GameState,
    /// Settlement audit records, oldest first.
    pub events: Vec<ShowdownEvent>,
    /// Verification audit records the backend emitted for settled hands, oldest first.
    pub verifications: Vec<VerificationResult>,
}

impl PokerGameContract {
    /// The session keeps two seats and no negative pot, balance or bet.
    pub open spec fn wf(&self) -> bool {
        self.state.wf()
    }

    /// `new_t` is `old_t` with only the session's seats possibly changed.
    pub open spec fn seats_changed(old_t: PokerGameContract, new_t: PokerGameContract) -> bool {
        &&& new_t.initialized == old_t.initialized
        &&& new_t.verifier == old_t.verifier
        &&& new_t.events == old_t.events
        &&& new_t.verifications == old_t.verifications
        &&& same_but_seats(old_t.state, new_t.state)
        &&& new_t.state.players@.len() == old_t.state.players@.len()
    }

    /// Stores `commitment` as `player`'s concealed-hand commitment, replacing any
    /// earlier one. The all-zero value is refused, as is an unknown player.
    pub fn submit_commitment(&mut self, player: Address, commitment: [u8; 32]) -> (r: Result<
        (),
        GameError,
    >)
        requires
            old(self).wf(),
        ensures
            final(self).wf(),
            all_zero(commitment@) ==> r == Err::<(), GameError>(GameError::InvalidCommitment),
            !all_zero(commitment@) && !old(self).initialized ==> r == Err::<(), GameError>(
                GameError::NoGame,
            ),
            !all_zero(commitment@) && old(self).initialized && seat_of(old(self).state, player)
                is None ==> r == Err::<(), GameError>(GameError::PlayerNotFound),
            r is Err ==> *final(self) == *old(self),
            !all_zero(commitment@) && old(self).initialized ==> match seat_of(
                old(self).state,
                player,
            ) {
                Some(i) => r is Ok && Self::seats_changed(*old(self), *final(self))
                    && final(self).state.players@ == old(self).state.players@.update(
                    i,
                    with_commitment(old(self).state.players@[i], commitment),
                ),
                None => true,
            },
    {
        if !any_nonzero(&commitment) {
            return Err(GameError::InvalidCommitment);
        }
        if !self.initialized {
            return Err(GameError::NoGame);
        }
        match find_seat(&self.state, &player) {
            None => Err(GameError::PlayerNotFound),
            Some(i) => {
                let p = self.state.players[i];
                let q = Player {
                    address: p.address,
                    chips: p.chips,
                    commitment,
                    current_bet: p.current_bet,
                    has_folded: p.has_folded,
                };
                self.state.players.set(i, q);
                Ok(())
            },
        }
    }

    /// Moves `amount` chips from `player`'s balance into the pot and passes the turn.
    /// A negative amount, a bet above the balance, or one that would overflow the pot
    /// or the player's bet is refused. An unknown player only passes the turn.
    pub fn place_bet(&mut self, player: Address, amount: i128) -> (r: Result<(), GameError>)
        requires
            old(self).wf(),
        ensures
            final(self).wf(),
            !old(self).initialized ==> r == Err::<(), GameError>(GameError::NoGame),
            old(self).initialized && amount < 0 ==> r == Err::<(), GameError>(
                GameError::InvalidAmount,
            ),
            r is Err ==> *final(self) == *old(self),
            old(self).initialized && amount >= 0 ==> {
                let g = old(self).state;
                let h = final(self).state;
                match seat_of(g, player) {
                    None => r is Ok && h.players == g.players && h.pot == g.pot,
                    Some(i) => if g.players@[i].chips < amount {
                        r == Err::<(), GameError>(GameError::InsufficientChips)
                    } else if g.pot + amount > i128::MAX || g.players@[i].current_bet + amount
                        > i128::MAX {
                        r == Err::<(), GameError>(GameError::ChipOverflow)
                    } else {
                        &&& r is Ok
                        &&& h.pot == g.pot + amount
                        &&& h.players@ == g.players@.update(
                            i,
                            Player {
                                address: g.players@[i].address,
                                chips: (g.players@[i].chips - amount) as i128,
                                commitment: g.players@[i].commitment,
                                current_bet: (g.players@[i].current_bet + amount) as i128,
                                has_folded: g.players@[i].has_folded,
                            },
                        )
                    },
                }
            },
            r is Ok ==> {
                &&& final(self).state.current_player == (old(self).state.current_player + 1) % 2
                &&& final(self).initialized == old(self).initialized
                &&& final(self).verifier == old(self).verifier
                &&& final(self).events == old(self).events
                &&& final(self).state.game_id == old(self).state.game_id
                &&& final(self).state.community_cards == old(self).state.community_cards
                &&& final(self).state.is_active == old(self).state.is_active
            },
    {
        if !self.initialized {
            return Err(GameError::NoGame);
        }
        if amount < 0 {
            return Err(GameError::InvalidAmount);
        }
        match find_seat(&self.state, &player) {
            None => {},
            Some(i) => {
                let p = self.state.players[i];
                if p.chips < amount {
                    return Err(GameError::InsufficientChips);
                }
                if self.state.pot > i128::MAX - amount || p.current_bet > i128::MAX - amount {
                    return Err(GameError::ChipOverflow);
                }
                let q = Player {
                    address: p.address,
                    chips: p.chips - amount,
                    commitment: p.commitment,
                    current_bet: p.current_bet + amount,
                    has_folded: p.has_folded,
                };
                self.state.players.set(i, q);
                self.state.pot = self.state.pot + amount;
            },
        }
        self.state.current_player = (self.state.current_player % 2 + 1) % 2;
        Ok(())
    }

    /// A table with no session and no backend address set.
    pub fn new() -> (r: Self)
        ensures
            r.wf(),
            !r.initialized,
            r.verifier is None,
            r.events@.len() == 0,
    {
        let zero = Address { key: [0u8; 32] };
        let mut state = fresh_state([0u8; 32], zero, zero, 0, zero);
        state.is_active = false;
        PokerGameContract {
            verifier: None,
            initialized: false,
            state,
            events: Vec::new(),
            verifications: Vec::new(),
        }
    }

    /// Sets the backend address that later sessions record.
    pub fn set_verifier(&mut self, verifier: Address)
        requires
            old(self).wf(),
        ensures
            final(self).wf(),
            final(self).verifier == Some(verifier),
            final(self).initialized == old(self).initialized,
            final(self).state == old(self).state,
            final(self).events == old(self).events,
            final(self).verifications == old(self).verifications,
    {
        self.verifier = Some(verifier);
    }

    /// Opens a new session with both players holding `starting_chips`, nothing
    /// committed and an empty pot. Without a backend address, player one's stands in.
    pub fn init_game(
        &mut self,
        game_id: [u8; 32],
        player1: Address,
        player2: Address,
        starting_chips: i128,
    ) -> (r: Result<GameState, GameError>)
        requires
            old(self).wf(),
        ensures
            final(self).wf(),
            starting_chips < 0 <==> r == Err::<GameState, GameError>(GameError::InvalidAmount),
            starting_chips < 0 ==> *final(self) == *old(self),
            starting_chips >= 0 ==> {
                let v = match old(self).verifier {
                    Some(v) => v,
                    None => player1,
                };
                &&& r is Ok
                &&& opened(r->Ok_0, game_id, player1, player2, starting_chips, v)
                &&& opened(final(self).state, game_id, player1, player2, starting_chips, v)
                &&& same_state(r->Ok_0, final(self).state)
                &&& final(self).initialized
                &&& final(self).verifier == old(self).verifier
                &&& final(self).events == old(self).events
                &&& final(self).verifications == old(self).verifications
            },
    {
        if starting_chips < 0 {
            return Err(GameError::InvalidAmount);
        }
        let verifier = match self.verifier {
            Some(v) => v,
            None => player1,
        };
        self.state = fresh_state(game_id, player1, player2, starting_chips, verifier);
        self.initialized = true;
        Ok(copy_state(&self.state))
    }

    /// Outcome of `resolve_showdown` on a table that holds an initialized session.
    pub open spec fn showdown_outcome<A: ProofAttestor>(
        old_t: PokerGameContract,
        new_t: PokerGameContract,
        a: A,
        proof1: Seq<u8>,
        rank1: u32,
        cards1: Seq<u8>,
        salt1: Seq<u8>,
        proof2: Seq<u8>,
        rank2: u32,
        cards2: Seq<u8>,
        salt2: Seq<u8>,
        r: Result<Address, GameError>,
    ) -> bool {
        let g = old_t.state;
        let n = old_t.verifications@.len();
        let m = new_t.verifications@.len();
        match showdown_error(g, a, proof1, rank1, cards1, salt1, proof2, rank2, cards2, salt2) {
            Some(e) => r == Err::<Address, GameError>(e) && new_t == old_t,
            None => if payout_overflows(g, rank1, rank2) {
                r == Err::<Address, GameError>(GameError::ChipOverflow) && new_t == old_t
            } else {
                &&& r == Ok::<Address, GameError>(winner_of(g, rank1, rank2))
                &&& settled(g, new_t.state, rank1, rank2, proof1, proof2)
                &&& new_t.initialized == old_t.initialized
                &&& new_t.verifier == old_t.verifier
                &&& new_t.events@.len() == old_t.events@.len() + 1
                &&& new_t.events@.subrange(0, old_t.events@.len() as int) == old_t.events@
                &&& new_t.events@.last().winner == winner_of(g, rank1, rank2)
                &&& new_t.events@.last().player1_rank == rank1
                &&& new_t.events@.last().player2_rank == rank2
                &&& new_t.events@.last().player1_proof_hash@ == fingerprint_of(proof1)
                &&& new_t.events@.last().player2_proof_hash@ == fingerprint_of(proof2)
                &&& new_t.events@.last().player1_commitment == g.players@[0].commitment
                &&& new_t.events@.last().player2_commitment == g.players@[1].commitment
                &&& n <= m
                &&& new_t.verifications@.subrange(0, n as int) == old_t.verifications@
                &&& exists|k: int|
                    n <= k <= m && #[trigger] a.audit_ok(
                        new_t.verifications@.subrange(n as int, k),
                        cards1,
                        salt1,
                        g.players@[0].commitment@,
                        rank1,
                        proof1,
                        seat_id(0),
                    ) && a.audit_ok(
                        new_t.verifications@.subrange(k, m as int),
                        cards2,
                        salt2,
                        g.players@[1].commitment@,
                        rank2,
                        proof2,
                        seat_id(1),
                    )
            },
        }
    }

    /// Marks `player` as folded; an unknown player changes nothing.
    pub fn fold(&mut self, player: Address) -> (r: Result<(), GameError>)
        requires
            old(self).wf(),
        ensures
            final(self).wf(),
            !old(self).initialized <==> r == Err::<(), GameError>(GameError::NoGame),
            old(self).initialized ==> r is Ok,
            r is Err ==> *final(self) == *old(self),
            r is Ok ==> Self::seats_changed(*old(self), *final(self)) && match seat_of(
                old(self).state,
                player,
            ) {
                None => final(self).state.players == old(self).state.players,
                Some(i) => final(self).state.players@ == old(self).state.players@.update(
                    i,
                    Player { has_folded: true, ..old(self).state.players@[i] },
                ),
            },
    {
        if !self.initialized {
            return Err(GameError::NoGame);
        }
        match find_seat(&self.state, &player) {
            None => {},
            Some(i) => {
                let p = self.state.players[i];
                let q = Player {
                    address: p.address,
                    chips: p.chips,
                    commitment: p.commitment,
                    current_bet: p.current_bet,
                    has_folded: true,
                };
                self.state.players.set(i, q);
            },
        }
        Ok(())
    }

    /// Replaces the community cards.
    pub fn reveal_community_cards(&mut self, cards: Vec<u32>) -> (r: Result<(), GameError>)
        requires
            old(self).wf(),
        ensures
            final(self).wf(),
            !old(self).initialized <==> r == Err::<(), GameError>(GameError::NoGame),
            old(self).initialized ==> r is Ok,
            r is Err ==> *final(self) == *old(self),
            r is Ok ==> final(self).state.community_cards@ == cards@
                && final(self).events == old(self).events
                && final(self).verifications == old(self).verifications
                && final(self).state.players == old(self).state.players
                && final(self).state.pot == old(self).state.pot
                && final(self).state.is_active == old(self).state.is_active,
    {
        if !self.initialized {
            return Err(GameError::NoGame);
        }
        self.state.community_cards = cards;
        Ok(())
    }

    /// Pays the whole pot to `winner` and closes the session. An unknown winner
    /// receives nothing, but the session still closes.
    pub fn end_game(&mut self, winner: Address) -> (r: Result<Address, GameError>)
        requires
            old(self).wf(),
        ensures
            final(self).wf(),
            !old(self).initialized ==> r == Err::<Address, GameError>(GameError::NoGame),
            r is Err ==> *final(self) == *old(self),
            old(self).initialized ==> {
                let g = old(self).state;
                let h = final(self).state;
                match seat_of(g, winner) {
                    None => r == Ok::<Address, GameError>(winner) && h.players == g.players
                        && h.pot == g.pot && !h.is_active,
                    Some(i) => if g.players@[i].chips + g.pot > i128::MAX {
                        r == Err::<Address, GameError>(GameError::ChipOverflow)
                    } else {
                        &&& r == Ok::<Address, GameError>(winner)
                        &&& h.players@ == g.players@.update(
                            i,
                            Player { chips: (g.players@[i].chips + g.pot) as i128, ..g.players@[i] },
                        )
                        &&& h.pot == 0
                        &&& !h.is_active
                    },
                }
            },
    {
        if !self.initialized {
            return Err(GameError::NoGame);
        }
        match find_seat(&self.state, &winner) {
            None => {},
            Some(i) => {
                let p = self.state.players[i];
                if p.chips > i128::MAX - self.state.pot {
                    return Err(GameError::ChipOverflow);
                }
                let q = Player {
                    address: p.address,
                    chips: p.chips + self.state.pot,
                    commitment: p.commitment,
                    current_bet: p.current_bet,
                    has_folded: p.has_folded,
                };
                self.state.players.set(i, q);
                self.state.pot = 0;
            },
        }
        self.state.is_active = false;
        Ok(winner)
    }

    /// The current session, if one was opened.
    pub fn get_game_state(&self) -> (r: Option<&GameState>)
        ensures
            self.initialized <==> r is Some,
            r matches Some(st) ==> *st == self.state,
    {
        if self.initialized {
            Some(&self.state)
        } else {
            None
        }
    }

    /// Runs the checks of `resolve_showdown` that come before the backend is asked,
    /// in the same order, without changing anything.
    pub fn precheck_showdown(
        &self,
        player1_proof: &[u8; 128],
        player1_rank: u32,
        player2_proof: &[u8; 128],
        player2_rank: u32,
    ) -> (r: Result<(), GameError>)
        requires
            self.wf(),
        ensures
            !self.initialized ==> r == Err::<(), GameError>(GameError::NoGame),
            self.initialized ==> match precheck_error(
                self.state,
                player1_proof@,
                player1_rank,
                player2_proof@,
                player2_rank,
            ) {
                Some(e) => r == Err::<(), GameError>(e),
                None => r is Ok,
            },
    {
        if !self.initialized {
            return Err(GameError::NoGame);
        }
        if !self.state.is_active {
            return Err(GameError::GameInactive);
        }
        if !any_nonzero(&self.state.players[0].commitment) {
            return Err(GameError::MissingCommitment(1));
        }
        if !any_nonzero(&self.state.players[1].commitment) {
            return Err(GameError::MissingCommitment(2));
        }
        if !any_nonzero(player1_proof) {
            return Err(GameError::EmptyProof(1));
        }
        if !any_nonzero(player2_proof) {
            return Err(GameError::EmptyProof(2));
        }
        if player1_rank > MAX_RANK {
            return Err(GameError::InvalidRank(1));
        }
        if player2_rank > MAX_RANK {
            return Err(GameError::InvalidRank(2));
        }
        Ok(())
    }

    /// Settles the hand: checks the session, both commitments, both proof blobs and
    /// both ranks, asks `attestor` about player one and then player two, and only then
    /// pays out the pot, clears commitments and bets, and closes the session. Any
    /// refusal leaves the table exactly as it was. Revealed cards and salts are passed
    /// to the attestor but not re-hashed against the stored commitments here.
    pub fn resolve_showdown<A: ProofAttestor>(
        &mut self,
        attestor: &A,
        player1_proof: &[u8; 128],
        player1_rank: u32,
        player1_cards: &[u8; 2],
        player1_salt: &[u8; 32],
        player2_proof: &[u8; 128],
        player2_rank: u32,
        player2_cards: &[u8; 2],
        player2_salt: &[u8; 32],
    ) -> (r: Result<Address, GameError>)
        requires
            old(self).wf(),
        ensures
            final(self).wf(),
            !old(self).initialized ==> r == Err::<Address, GameError>(GameError::NoGame)
                && *final(self) == *old(self),
            old(self).initialized ==> Self::showdown_outcome(
                *old(self),
                *final(self),
                *attestor,
                player1_proof@,
                player1_rank,
                player1_cards@,
                player1_salt@,
                player2_proof@,
                player2_rank,
                player2_cards@,
                player2_salt@,
                r,
            ),
    {
        if !self.initialized {
            return Err(GameError::NoGame);
        }
        if !self.state.is_active {
            return Err(GameError::GameInactive);
        }
        let p1: Player = self.state.players[0];
        let p2: Player = self.state.players[1];
        if !any_nonzero(&p1.commitment) {
            return Err(GameError::MissingCommitment(1));
        }
        if !any_nonzero(&p2.commitment) {
            return Err(GameError::MissingCommitment(2));
        }
        if !any_nonzero(player1_proof) {
            return Err(GameError::EmptyProof(1));
        }
        if !any_nonzero(player2_proof) {
            return Err(GameError::EmptyProof(2));
        }
        if player1_rank > MAX_RANK {
            return Err(GameError::InvalidRank(1));
        }
        if player2_rank > MAX_RANK {
            return Err(GameError::InvalidRank(2));
        }
        let mut audit: Vec<VerificationResult> = Vec::new();
        let id1 = player_id_bytes32(0);
        if !attestor.attest(
            player1_cards,
            player1_salt,
            &p1.commitment,
            player1_rank,
            player1_proof,
            &id1,
            &mut audit,
        ) {
            return Err(GameError::VerificationFailed(1));
        }
        let ghost first = audit@;
        let id2 = player_id_bytes32(1);
        if !attestor.attest(
            player2_cards,
            player2_salt,
            &p2.commitment,
            player2_rank,
            player2_proof,
            &id2,
            &mut audit,
        ) {
            return Err(GameError::VerificationFailed(2));
        }
        let pot = self.state.pot;
        let (a1, a2): (i128, i128) = if player1_rank > player2_rank {
            (pot, 0)
        } else if player2_rank > player1_rank {
            (0, pot)
        } else {
            (pot - pot / 2, pot / 2)
        };
        if p1.chips > i128::MAX - a1 || p2.chips > i128::MAX - a2 {
            return Err(GameError::ChipOverflow);
        }
        let hash1 = proof_fingerprint(player1_proof);
        let hash2 = proof_fingerprint(player2_proof);
        let winner = if player2_rank > player1_rank {
            p2.address
        } else {
            p1.address
        };
        let n1 = Player {
            address: p1.address,
            chips: p1.chips + a1,
            commitment: [0u8; 32],
            current_bet: 0,
            has_folded: p1.has_folded,
        };
        let n2 = Player {
            address: p2.address,
            chips: p2.chips + a2,
            commitment: [0u8; 32],
            current_bet: 0,
            has_folded: p2.has_folded,
        };
        assert(all_zero(n1.commitment@));
        assert(all_zero(n2.commitment@));
        self.state.players.set(0, n1);
        self.state.players.set(1, n2);
        self.state.pot = 0;
        self.state.is_active = false;
        self.state.player1_proof_hash = hash1;
        self.state.player2_proof_hash = hash2;
        let ghost old_events = old(self).events@;
        self.events.push(
            ShowdownEvent {
                winner,
                player1_rank,
                player2_rank,
                player1_proof_hash: hash1,
                player2_proof_hash: hash2,
                player1_commitment: p1.commitment,
                player2_commitment: p2.commitment,
            },
        );
        assert(self.events@.subrange(0, old_events.len() as int) =~= old_events);
        let ghost both = audit@;
        let ghost before = self.verifications@;
        self.verifications.append(&mut audit);
        proof {
            let n = before.len() as int;
            let k = n + first.len();
            let m = self.verifications@.len() as int;
            assert(first.subrange(0, first.len() as int) =~= first);
            assert(self.verifications@.subrange(0, n) =~= before);
            assert(self.verifications@.subrange(n, k) =~= first);
            assert(self.verifications@.subrange(k, m) =~= both.subrange(
                first.len() as int,
                both.len() as int,
            ));
        }
        Ok(winner)
    }
}

/// A showdown in which either proof blob is all zero is refused, and a refused
/// showdown leaves the table, pot and balances included, unchanged.
pub proof fn lemma_empty_proof_refused<A: ProofAttestor>(
    g: GameState,
    a: A,
    proof1: Seq<u8>,
    rank1: u32,
    cards1: Seq<u8>,
    salt1: Seq<u8>,
    proof2: Seq<u8>,
    rank2: u32,
    cards2: Seq<u8>,
    salt2: Seq<u8>,
)
    requires
        all_zero(proof1) || all_zero(proof2),
    ensures
        showdown_error(g, a, proof1, rank1, cards1, salt1, proof2, rank2, cards2, salt2) is Some,
{
}

/// With the attestation store as backend, a showdown whose proof fingerprint has no
/// attestation on record is refused, and so changes nothing.
pub proof fn lemma_unattested_refused(
    g: GameState,
    v: NoirVerifier,
    proof1: Seq<u8>,
    rank1: u32,
    cards1: Seq<u8>,
    salt1: Seq<u8>,
    proof2: Seq<u8>,
    rank2: u32,
    cards2: Seq<u8>,
    salt2: Seq<u8>,
)
    requires
        !attested(v.attestations@, fingerprint_of(proof1))
            || !attested(v.attestations@, fingerprint_of(proof2)),
    ensures
        showdown_error(g, v, proof1, rank1, cards1, salt1, proof2, rank2, cards2, salt2) is Some,
{
}

/// A settled showdown pays out exactly the pot: the two balance changes sum to it,
/// tie split included.
pub proof fn lemma_pot_conserved(
    g: GameState,
    h: GameState,
    r1: u32,
    r2: u32,
    proof1: Seq<u8>,
    proof2: Seq<u8>,
)
    requires
        g.wf(),
        settled(g, h, r1, r2, proof1, proof2),
    ensures
        (h.players@[0].chips - g.players@[0].chips) + (h.players@[1].chips - g.players@[1].chips)
            == g.pot,
        h.pot == 0,
{
}

/// With the attestation store as backend, a showdown on an open session with both
/// commitments in place, non-empty proofs whose fingerprints are on record, valid
/// distinct hole cards and ranks in range passes every check; when player one holds
/// the higher rank, player one is the winner and receives the whole pot.
pub proof fn lemma_attested_showdown_settles(
    g: GameState,
    v: NoirVerifier,
    proof1: Seq<u8>,
    rank1: u32,
    cards1: Seq<u8>,
    salt1: Seq<u8>,
    proof2: Seq<u8>,
    rank2: u32,
    cards2: Seq<u8>,
    salt2: Seq<u8>,
)
    requires
        g.wf(),
        g.is_active,
        committed(g.players@[0].commitment),
        committed(g.players@[1].commitment),
        !all_zero(proof1),
        !all_zero(proof2),
        rank_ok(rank1),
        rank_ok(rank2),
        cards_in_range(cards1),
        cards_in_range(cards2),
        cards1[0] != cards1[1],
        cards2[0] != cards2[1],
        attested(v.attestations@, fingerprint_of(proof1)),
        attested(v.attestations@, fingerprint_of(proof2)),
    ensures
        showdown_error(g, v, proof1, rank1, cards1, salt1, proof2, rank2, cards2, salt2) is None,
        rank1 > rank2 ==> winner_of(g, rank1, rank2) == g.players@[0].address
            && award1(g.pot as int, rank1, rank2) == g.pot
            && award2(g.pot as int, rank1, rank2) == 0,
{
}

} // verus!
