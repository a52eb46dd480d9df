use vstd::prelude::*;
use crate::bytes::digest_eq;
use crate::poker::Address;

verus! {

/// A registered match between two players.
#[derive(Clone, Copy, Debug)]
pub struct Game {
    pub game_id: [u8; 32],
    pub player1: Address,
    pub player2: Address,
    pub started_at: u64,
    pub ended_at: u64,
    pub winner: Option<Address>,
    pub is_active: bool,
}

/// Why the registry refused a call.
#[derive(Clone, Copy, Debug, PartialEq, Eq, Structural)]
pub enum HubError {
    NotFound,
    NotAPlayer,
}

/// Registry of matches keyed by identifier; identifiers are unique.
pub struct GameHubContract {
    pub games: Vec<Game>,
}

/// The identifier of a match started at `ts`: `ts` in big-endian order in the first
/// eight bytes, zeros after.
pub open spec fn game_id_of(ts: u64) -> Seq<u8> {
    Seq::new(32, |k: int| if k < 8 { (ts >> ((8 * (7 - k)) as u64)) as u8 } else { 0u8 })
}

/// Position of the match with identifier `id`, if registered.
pub open spec fn index_of(games: Seq<Game>, id: Seq<u8>) -> Option<int> {
    if exists|i: int| 0 <= i < games.len() && (#[trigger] games[i]).game_id@ == id {
        Some(choose|i: int| 0 <= i < games.len() && (#[trigger] games[i]).game_id@ == id)
    } else {
        None
    }
}

/// Builds the identifier of a match started at `ts`.
fn make_game_id(ts: u64) -> (r: [u8; 32])
    ensures
        r@ == game_id_of(ts),
{
    let mut out = [0u8; 32];
    let mut k: usize = 0;
    while k < 8
        invariant
            0 <= k <= 8,
            out@.len() == 32,
            forall|j: int| 0 <= j < k ==> out@[j] == game_id_of(ts)[j],
            forall|j: int| 8 <= j < 32 ==> out@[j] == 0,
        decreases 8 - k,
    {
        out.set(k, (ts >> ((8 * (7 - k)) as u64)) as u8);
        k = k + 1;
    }
    assert(out@ =~= game_id_of(ts));
    out
}

impl GameHubContract {
    /// Identifiers are pairwise distinct.
    pub open spec fn wf(&self) -> bool {
        forall|i: int, j: int|
            0 <= i < j < self.games@.len() ==> (#[trigger] self.games@[i]).game_id@
                != (#[trigger] self.games@[j]).game_id@
    }

    /// An empty registry.
    pub fn new() -> (r: Self)
        ensures
            r.wf(),
            r.games@.len() == 0,
    {
        GameHubContract { games: Vec::new() }
    }

    /// Finds the match with identifier `id`.
    fn find(&self, id: &[u8; 32]) -> (r: Option<usize>)
        requires
            self.wf(),
        ensures
            r matches Some(i) ==> i < self.games@.len() && index_of(self.games@, id@) == Some(
                i as int,
            ),
            r is None ==> index_of(self.games@, id@) is None,
    {
        let mut i: usize = 0;
        while i < self.games.len()
            invariant
                self.wf(),
                0 <= i <= self.games@.len(),
                forall|k: int| 0 <= k < i ==> (#[trigger] self.games@[k]).game_id@ != id@,
            decreases self.games@.len() - i,
        {
            if digest_eq(&self.games[i].game_id, id) {
                assert(exists|k: int|
                    0 <= k < self.games@.len() && (#[trigger] self.games@[k]).game_id@ == id@);
                let ghost c = choose|k: int|
                    0 <= k < self.games@.len() && (#[trigger] self.games@[k]).game_id@ == id@;
                assert(c == i as int);
                return Some(i);
            }
            i = i + 1;
        }
        None
    }

    /// Registers an active match between the two players started at `timestamp` and
    /// returns its identifier. A match already under that identifier is replaced.
    pub fn start_game(&mut self, player1: Address, player2: Address, timestamp: u64) -> (r: [u8;
        32])
        requires
            old(self).wf(),
        ensures
            final(self).wf(),
            r@ == game_id_of(timestamp),
            ({
                let g = Game {
                    game_id: r,
                    player1,
                    player2,
                    started_at: timestamp,
                    ended_at: 0,
                    winner: None,
                    is_active: true,
                };
                match index_of(old(self).games@, r@) {
                    Some(i) => final(self).games@ == old(self).games@.update(i, g),
                    None => final(self).games@ == old(self).games@.push(g),
                }
            }),
    {
        let game_id = make_game_id(timestamp);
        let g = Game {
            game_id,
            player1,
            player2,
            started_at: timestamp,
            ended_at: 0,
            winner: None,
            is_active: true,
        };
        match self.find(&game_id) {
            Some(i) => {
                self.games.set(i, g);
            },
            None => {
                self.games.push(g);
            },
        }
        game_id
    }

    /// Closes match `game_id` at `timestamp` with `winner`, who must be one of its players.
    pub fn end_game(&mut self, game_id: [u8; 32], winner: Address, timestamp: u64) -> (r: Result<
        (),
        HubError,
    >)
        requires
            old(self).wf(),
        ensures
            final(self).wf(),
            r is Err ==> *final(self) == *old(self),
            match index_of(old(self).games@, game_id@) {
                None => r == Err::<(), HubError>(HubError::NotFound),
                Some(i) => {
                    let g = old(self).games@[i];
                    if g.player1.key@ != winner.key@ && g.player2.key@ != winner.key@ {
                        r == Err::<(), HubError>(HubError::NotAPlayer)
                    } else {
                        r is Ok && final(self).games@ == old(self).games@.update(
                            i,
                            Game { ended_at: timestamp, winner: Some(winner), is_active: false, ..g },
                        )
                    }
                },
            },
    {
        match self.find(&game_id) {
            None => Err(HubError::NotFound),
            Some(i) => {
                let g = self.games[i];
                if !digest_eq(&g.player1.key, &winner.key) && !digest_eq(&g.player2.key, &winner.key) {
                    return Err(HubError::NotAPlayer);
                }
                let h = Game {
                    game_id: g.game_id,
                    player1: g.player1,
                    player2: g.player2,
                    started_at: g.started_at,
                    ended_at: timestamp,
                    winner: Some(winner),
                    is_active: false,
                };
                self.games.set(i, h);
                Ok(())
            },
        }
    }

    /// The match registered under `game_id`.
    pub fn get_game(&self, game_id: [u8; 32]) -> (r: Result<Game, HubError>)
        requires
            self.wf(),
        ensures
            match index_of(self.games@, game_id@) {
                None => r == Err::<Game, HubError>(HubError::NotFound),
                Some(i) => r == Ok::<Game, HubError>(self.games@[i]),
            },
    {
        match self.find(&game_id) {
            None => Err(HubError::NotFound),
            Some(i) => Ok(self.games[i]),
        }
    }
}

} // verus!
