//! The store in memory: every game and every claim record, and the three
//! operations carried out on it whole or not at all.

use vstd::prelude::*;
use crate::admin::{add_admin, initialize_game, InitializeGame, ManageAdmin};
use crate::amount::tokens_for_score;
use crate::claim::{claim_reward, mint_order, ClaimReward};
use crate::error::GameError;
use crate::mint::MintTo;
use crate::model::{ClaimRequest, LedgerView};
use crate::pubkey::{bytes_equal, Pubkey};
use crate::state::{ClaimRecord, ClaimRecordView, GameConfig, GameConfigView};

verus! {

/// The store. No two of its games have the same token type and no two of
/// its claim records the same session: a key is looked up, and a new record
/// is stored only under a key that holds nothing.
#[derive(Debug)]
pub struct Ledger {
    games: Vec<GameConfig>,
    claims: Vec<ClaimRecord>,
}

/// Whether the game at index `i` is the one of the token type `mint`.
spec fn game_at(games: Seq<GameConfig>, mint: Seq<u8>, i: int) -> bool {
    0 <= i < games.len() && games[i]@.mint == mint
}

/// Whether the record at index `i` is the one of the session.
spec fn claim_at(claims: Seq<ClaimRecord>, session_id: Seq<u8>, i: int) -> bool {
    0 <= i < claims.len() && claims[i]@.session_id == session_id
}

/// No token type has two games.
spec fn games_distinct(games: Seq<GameConfig>) -> bool {
    forall|mint: Seq<u8>, i: int, j: int|
        #[trigger] game_at(games, mint, i) && #[trigger] game_at(games, mint, j) ==> i == j
}

/// No session has two records.
spec fn claims_distinct(claims: Seq<ClaimRecord>) -> bool {
    forall|session_id: Seq<u8>, i: int, j: int|
        #[trigger] claim_at(claims, session_id, i) && #[trigger] claim_at(claims, session_id, j)
            ==> i == j
}

/// The games by token type.
spec fn games_map(games: Seq<GameConfig>) -> Map<Seq<u8>, GameConfigView> {
    Map::new(
        |mint: Seq<u8>| exists|i: int| game_at(games, mint, i),
        |mint: Seq<u8>| games[choose|i: int| game_at(games, mint, i)]@,
    )
}

/// The claim records by session.
spec fn claims_map(claims: Seq<ClaimRecord>) -> Map<Seq<u8>, ClaimRecordView> {
    Map::new(
        |session_id: Seq<u8>| exists|i: int| claim_at(claims, session_id, i),
        |session_id: Seq<u8>| claims[choose|i: int| claim_at(claims, session_id, i)]@,
    )
}

/// The game at an index is what the map holds under its token type.
proof fn lemma_games_map_at(games: Seq<GameConfig>, i: int)
    requires
        games_distinct(games),
        0 <= i < games.len(),
    ensures
        games_map(games).contains_key(games[i]@.mint),
        games_map(games)[games[i]@.mint] == games[i]@,
{
    assert(game_at(games, games[i]@.mint, i));
}

/// The record at an index is what the map holds under its session.
proof fn lemma_claims_map_at(claims: Seq<ClaimRecord>, i: int)
    requires
        claims_distinct(claims),
        0 <= i < claims.len(),
    ensures
        claims_map(claims).contains_key(claims[i]@.session_id),
        claims_map(claims)[claims[i]@.session_id] == claims[i]@,
{
    assert(claim_at(claims, claims[i]@.session_id, i));
}

/// Appending a game of a new token type inserts it into the map.
proof fn lemma_games_map_push(games: Seq<GameConfig>, game: GameConfig)
    requires
        games_distinct(games),
        !games_map(games).contains_key(game@.mint),
    ensures
        games_distinct(games.push(game)),
        games_map(games.push(game)) == games_map(games).insert(game@.mint, game@),
{
    let grown = games.push(game);
    let last = games.len() as int;
    assert forall|mint: Seq<u8>, i: int| #[trigger] game_at(grown, mint, i) implies (i == last
        && mint == game@.mint) || game_at(games, mint, i) by {}
    assert(games_distinct(grown)) by {
        assert forall|mint: Seq<u8>, i: int, j: int| #[trigger]
            game_at(grown, mint, i) && #[trigger] game_at(grown, mint, j) implies i == j by {
            if i != last && j != last {
                assert(game_at(games, mint, i) && game_at(games, mint, j));
            }
        }
    }
    assert forall|mint: Seq<u8>|
        games_map(grown).contains_key(mint) == games_map(games).insert(
            game@.mint,
            game@,
        ).contains_key(mint) by {
        if mint == game@.mint {
            assert(game_at(grown, mint, last));
        } else if games_map(games).contains_key(mint) {
            let i = choose|i: int| game_at(games, mint, i);
            assert(game_at(grown, mint, i));
        }
    }
    assert forall|mint: Seq<u8>| #[trigger]
        games_map(grown).contains_key(mint) implies games_map(grown)[mint] == games_map(
        games,
    ).insert(game@.mint, game@)[mint] by {
        let i = choose|i: int| game_at(grown, mint, i);
        if mint == game@.mint {
            assert(game_at(grown, mint, last));
        } else {
            let k = choose|k: int| game_at(games, mint, k);
            assert(game_at(games, mint, i) && game_at(games, mint, k));
        }
    }
    assert(games_map(grown) =~= games_map(games).insert(game@.mint, game@));
}

/// Appending the record of a new session inserts it into the map.
proof fn lemma_claims_map_push(claims: Seq<ClaimRecord>, record: ClaimRecord)
    requires
        claims_distinct(claims),
        !claims_map(claims).contains_key(record@.session_id),
    ensures
        claims_distinct(claims.push(record)),
        claims_map(claims.push(record)) == claims_map(claims).insert(
            record@.session_id,
            record@,
        ),
{
    let grown = claims.push(record);
    let last = claims.len() as int;
    assert forall|session_id: Seq<u8>, i: int| #[trigger]
        claim_at(grown, session_id, i) implies (i == last && session_id == record@.session_id)
        || claim_at(claims, session_id, i) by {}
    assert(claims_distinct(grown)) by {
        assert forall|session_id: Seq<u8>, i: int, j: int| #[trigger]
            claim_at(grown, session_id, i) && #[trigger] claim_at(
                grown,
                session_id,
                j,
            ) implies i == j by {
            if i != last && j != last {
                assert(claim_at(claims, session_id, i) && claim_at(claims, session_id, j));
            }
        }
    }
    assert forall|session_id: Seq<u8>|
        claims_map(grown).contains_key(session_id) == claims_map(claims).insert(
            record@.session_id,
            record@,
        ).contains_key(session_id) by {
        if session_id == record@.session_id {
            assert(claim_at(grown, session_id, last));
        } else if claims_map(claims).contains_key(session_id) {
            let i = choose|i: int| claim_at(claims, session_id, i);
            assert(claim_at(grown, session_id, i));
        }
    }
    assert forall|session_id: Seq<u8>| #[trigger]
        claims_map(grown).contains_key(session_id) implies claims_map(grown)[session_id]
        == claims_map(claims).insert(record@.session_id, record@)[session_id] by {
        let i = choose|i: int| claim_at(grown, session_id, i);
        if session_id == record@.session_id {
            assert(claim_at(grown, session_id, last));
        } else {
            let k = choose|k: int| claim_at(claims, session_id, k);
            assert(claim_at(claims, session_id, i) && claim_at(claims, session_id, k));
        }
    }
    assert(claims_map(grown) =~= claims_map(claims).insert(record@.session_id, record@));
}

/// Replacing a game by one of the same token type replaces it in the map.
proof fn lemma_games_map_update(games: Seq<GameConfig>, at: int, game: GameConfig)
    requires
        games_distinct(games),
        0 <= at < games.len(),
        game@.mint == games[at]@.mint,
    ensures
        games_distinct(games.update(at, game)),
        games_map(games.update(at, game)) == games_map(games).insert(game@.mint, game@),
{
    let changed = games.update(at, game);
    assert forall|mint: Seq<u8>, i: int|
        game_at(changed, mint, i) == game_at(games, mint, i) by {}
    assert(games_distinct(changed)) by {
        assert forall|mint: Seq<u8>, i: int, j: int| #[trigger]
            game_at(changed, mint, i) && #[trigger] game_at(changed, mint, j) implies i == j by {
            assert(game_at(games, mint, i) && game_at(games, mint, j));
        }
    }
    assert(game_at(games, game@.mint, at));
    assert forall|mint: Seq<u8>|
        games_map(changed).contains_key(mint) == games_map(games).insert(
            game@.mint,
            game@,
        ).contains_key(mint) by {
        if games_map(changed).contains_key(mint) {
            let i = choose|i: int| game_at(changed, mint, i);
            assert(game_at(games, mint, i));
        }
        if games_map(games).contains_key(mint) {
            let i = choose|i: int| game_at(games, mint, i);
            assert(game_at(changed, mint, i));
        }
    }
    assert forall|mint: Seq<u8>| #[trigger]
        games_map(changed).contains_key(mint) implies games_map(changed)[mint] == games_map(
        games,
    ).insert(game@.mint, game@)[mint] by {
        let i = choose|i: int| game_at(changed, mint, i);
        assert(game_at(games, mint, i));
        if mint == game@.mint {
            assert(i == at);
        } else {
            let k = choose|k: int| game_at(games, mint, k);
            assert(game_at(games, mint, k));
        }
    }
    assert(games_map(changed) =~= games_map(games).insert(game@.mint, game@));
}

impl View for Ledger {
    type V = LedgerView;

    closed spec fn view(&self) -> LedgerView {
        LedgerView { games: games_map(self.games@), claims: claims_map(self.claims@) }
    }
}

/// The claim request that the arguments of `Ledger::claim_reward` make.
pub open spec fn claim_request(
    mint: Pubkey,
    authority: Pubkey,
    player: Pubkey,
    score: u64,
    session_id: [u8; 32],
    now: i64,
) -> ClaimRequest {
    ClaimRequest {
        mint: mint@,
        authority: authority@,
        player: player@,
        score,
        session_id: session_id@,
        now,
    }
}

impl Ledger {
    /// What the store keeps true of itself: keys are not repeated, every name
    /// and symbol is within its bound, and every claim record is marked as
    /// claimed.
    pub closed spec fn wf(&self) -> bool {
        &&& games_distinct(self.games@)
        &&& claims_distinct(self.claims@)
        &&& forall|i: int| 0 <= i < self.games@.len() ==> (#[trigger] self.games@[i])@.wf()
        &&& forall|i: int| 0 <= i < self.claims@.len() ==> (#[trigger] self.claims@[i]).is_claimed
    }

    /// The value of a well-formed store is well-formed.
    pub proof fn lemma_view_wf(&self)
        requires
            self.wf(),
        ensures
            self@.wf(),
    {
        let games = self.games@;
        let claims = self.claims@;
        assert forall|mint: Seq<u8>| #[trigger]
            self@.games.contains_key(mint) implies self@.games[mint].mint == mint
            && self@.games[mint].wf() by {
            let i = choose|i: int| game_at(games, mint, i);
            assert(game_at(games, mint, i));
        }
        assert forall|session_id: Seq<u8>| #[trigger]
            self@.claims.contains_key(session_id) implies self@.claims[session_id].session_id
            == session_id && self@.claims[session_id].is_claimed by {
            let i = choose|i: int| claim_at(claims, session_id, i);
            assert(claim_at(claims, session_id, i));
        }
    }

    /// The store with no game and no claim record.
    pub fn new() -> (ledger: Ledger)
        ensures
            ledger.wf(),
            ledger@ == LedgerView::empty(),
    {
        let ledger = Ledger { games: Vec::new(), claims: Vec::new() };
        assert(ledger@.games =~= Map::empty());
        assert(ledger@.claims =~= Map::empty());
        ledger
    }

    /// The index of the game of the token type `mint`.
    fn find_game(&self, mint: &Pubkey) -> (found: Option<usize>)
        ensures
            match found {
                Some(i) => game_at(self.games@, mint@, i as int),
                None => forall|i: int| !game_at(self.games@, mint@, i),
            },
    {
        let mut i: usize = 0;
        while i < self.games.len()
            invariant
                i <= self.games@.len(),
                forall|j: int| 0 <= j < i ==> !game_at(self.games@, mint@, j),
            decreases self.games@.len() - i,
        {
            if self.games[i].mint == *mint {
                return Some(i);
            }
            i += 1;
        }
        None
    }

    /// The index of the record of the session.
    fn find_claim(&self, session_id: &[u8; 32]) -> (found: Option<usize>)
        ensures
            match found {
                Some(i) => claim_at(self.claims@, session_id@, i as int),
                None => forall|i: int| !claim_at(self.claims@, session_id@, i),
            },
    {
        let mut i: usize = 0;
        while i < self.claims.len()
            invariant
                i <= self.claims@.len(),
                forall|j: int| 0 <= j < i ==> !claim_at(self.claims@, session_id@, j),
            decreases self.claims@.len() - i,
        {
            if bytes_equal(&self.claims[i].session_id, session_id) {
                return Some(i);
            }
            i += 1;
        }
        None
    }

    /// The game of the token type `mint`, if one is set up.
    pub fn game(&self, mint: &Pubkey) -> (found: Option<&GameConfig>)
        requires
            self.wf(),
        ensures
            match found {
                Some(game) => self@.games.contains_key(mint@) && game@ == self@.games[mint@],
                None => !self@.games.contains_key(mint@),
            },
    {
        match self.find_game(mint) {
            Some(i) => {
                proof {
                    lemma_games_map_at(self.games@, i as int);
                }
                Some(&self.games[i])
            },
            None => None,
        }
    }

    /// The claim record of the session, if the session was claimed.
    pub fn claim_record(&self, session_id: &[u8; 32]) -> (found: Option<ClaimRecord>)
        requires
            self.wf(),
        ensures
            match found {
                Some(record) => self@.claims.contains_key(session_id@) && record@
                    == self@.claims[session_id@],
                None => !self@.claims.contains_key(session_id@),
            },
    {
        match self.find_claim(session_id) {
            Some(i) => {
                proof {
                    lemma_claims_map_at(self.claims@, i as int);
                }
                Some(self.claims[i])
            },
            None => None,
        }
    }

    /// Sets up the game of the token type `mint`, with `authority` as its
    /// first authority. Refused with `DuplicateGame` where the token type has
    /// a game already, otherwise with `InvalidMetadata` where the name is
    /// longer than 32 bytes or the symbol longer than 10; a refusal changes
    /// nothing.
    pub fn initialize_game(
        &mut self,
        mint: Pubkey,
        authority: Pubkey,
        bump: u8,
        game_name: String,
        reward_symbol: String,
        decimals: u8,
    ) -> (res: Result<(), GameError>)
        requires
            old(self).wf(),
        ensures
            final(self).wf(),
            res == old(self)@.initialize_verdict(mint@, game_name@, reward_symbol@),
            final(self)@ == old(self)@.after_initialize(
                mint@,
                authority@,
                bump,
                game_name@,
                reward_symbol@,
                decimals,
            ),
            res is Err ==> final(self)@ == old(self)@,
    {
        let stored: Option<GameConfig> = match self.find_game(&mint) {
            Some(i) => Some(self.games[i].clone()),
            None => None,
        };
        let mut ctx = InitializeGame { mint, game_config: stored, authority, bump };
        match initialize_game(&mut ctx, game_name, reward_symbol, decimals) {
            Ok(()) => {
                if let Some(game) = ctx.game_config {
                    proof {
                        lemma_games_map_push(self.games@, game);
                    }
                    self.games.push(game);
                }
                Ok(())
            },
            Err(e) => Err(e),
        }
    }

    /// Decides a claim in the game of `mint` and carries it out: see
    /// `claim_verdict` for the rules. A granted claim stores the session's
    /// record, counts itself in the game, and returns the order to mint; a
    /// refused claim changes nothing.
    ///
    /// The game must exist, and its 64-bit counters must have room for a claim
    /// that would be granted.
    pub fn claim_reward(
        &mut self,
        mint: Pubkey,
        authority: Pubkey,
        player: Pubkey,
        score: u64,
        session_id: [u8; 32],
        now: i64,
    ) -> (res: Result<MintTo, GameError>)
        requires
            old(self).wf(),
            old(self)@.games.contains_key(mint@),
            old(self)@.grants(claim_request(mint, authority, player, score, session_id, now))
                ==> old(self)@.games[mint@].has_room(tokens_for_score(score)),
        ensures
            final(self).wf(),
            final(self)@ == old(self)@.after_claim(
                claim_request(mint, authority, player, score, session_id, now),
            ),
            match old(self)@.claim_verdict(
                claim_request(mint, authority, player, score, session_id, now),
            ) {
                Ok(amount) => res is Ok && res->Ok_0@ == mint_order(
                    old(self)@.games[mint@],
                    player@,
                    amount as nat,
                ),
                Err(e) => res == Err::<MintTo, GameError>(e),
            },
            res is Err ==> final(self)@ == old(self)@,
    {
        let at: usize = match self.find_game(&mint) {
            Some(i) => i,
            None => {
                proof {
                    let i = choose|i: int| game_at(self.games@, mint@, i);
                    assert(game_at(self.games@, mint@, i));
                }
                return Err(GameError::UnauthorizedClaim);
            },
        };
        let stored: Option<ClaimRecord> = self.claim_record(&session_id);
        proof {
            lemma_games_map_at(self.games@, at as int);
        }
        let mut ctx = ClaimReward {
            game_config: self.games[at].clone(),
            claim_record: stored,
            player,
            authority,
        };
        match claim_reward(&mut ctx, score, session_id, now) {
            Ok(order) => {
                if let Some(record) = ctx.claim_record {
                    proof {
                        lemma_games_map_update(self.games@, at as int, ctx.game_config);
                        lemma_claims_map_push(self.claims@, record);
                    }
                    self.games.set(at, ctx.game_config);
                    self.claims.push(record);
                }
                Ok(order)
            },
            Err(e) => Err(e),
        }
    }

    /// Hands the authority of the game of `mint` to `new_admin`. Refused with
    /// `UnauthorizedAdmin` where `authority`, who signed, is not the game's
    /// authority; nothing changes then. The game must exist.
    pub fn add_admin(&mut self, mint: Pubkey, authority: Pubkey, new_admin: Pubkey) -> (res:
        Result<(), GameError>)
        requires
            old(self).wf(),
            old(self)@.games.contains_key(mint@),
        ensures
            final(self).wf(),
            res == old(self)@.admin_verdict(mint@, authority@),
            final(self)@ == old(self)@.after_add_admin(mint@, authority@, new_admin@),
            res is Err ==> final(self)@ == old(self)@,
    {
        let at: usize = match self.find_game(&mint) {
            Some(i) => i,
            None => {
                proof {
                    let i = choose|i: int| game_at(self.games@, mint@, i);
                    assert(game_at(self.games@, mint@, i));
                }
                return Err(GameError::UnauthorizedAdmin);
            },
        };
        proof {
            lemma_games_map_at(self.games@, at as int);
        }
        let mut ctx = ManageAdmin { game_config: self.games[at].clone(), authority };
        match add_admin(&mut ctx, new_admin) {
            Ok(()) => {
                proof {
                    lemma_games_map_update(self.games@, at as int, ctx.game_config);
                }
                self.games.set(at, ctx.game_config);
                Ok(())
            },
            Err(e) => Err(e),
        }
    }
}

} // verus!
