//! The store as a mathematical value, and what each operation does to it.
//!
//! The store holds the configuration of every game under its token type,
//! and the record of every granted claim under its session. An operation is
//! one step from a store to a store: it takes effect whole or not at all, and
//! steps happen one after another, whoever asked for them and in whatever
//! order they arrived.

use vstd::prelude::*;
use crate::amount::tokens_for_score;
use crate::claim::claim_verdict;
use crate::error::GameError;
use crate::state::{metadata_fits, ClaimRecordView, GameConfigView};

verus! {

/// The store: the games by token type, the claim records by session.
#[verifier::ext_equal]
pub struct LedgerView {
    pub games: Map<Seq<u8>, GameConfigView>,
    pub claims: Map<Seq<u8>, ClaimRecordView>,
}

/// A request to claim: the game by its token type, the principal that signed,
/// the player to credit, the score, the session, and the time.
pub struct ClaimRequest {
    pub mint: Seq<u8>,
    pub authority: Seq<u8>,
    pub player: Seq<u8>,
    pub score: u64,
    pub session_id: Seq<u8>,
    pub now: i64,
}

/// A request of any of the three kinds.
pub enum Request {
    /// Set up the game of the token type `mint`.
    InitializeGame {
        mint: Seq<u8>,
        authority: Seq<u8>,
        bump: u8,
        game_name: Seq<char>,
        reward_symbol: Seq<char>,
        decimals: u8,
    },
    /// Claim a reward.
    ClaimReward(ClaimRequest),
    /// Hand the authority of the game of `mint` to `new_admin`.
    AddAdmin { mint: Seq<u8>, authority: Seq<u8>, new_admin: Seq<u8> },
}

impl LedgerView {
    /// The store before anything has happened.
    pub open spec fn empty() -> LedgerView {
        LedgerView { games: Map::empty(), claims: Map::empty() }
    }

    /// Every game is stored under its own token type with a name and a symbol
    /// within their bounds; every claim record is stored under its own
    /// session and is marked as claimed.
    pub open spec fn wf(self) -> bool {
        &&& forall|mint: Seq<u8>| #[trigger]
            self.games.contains_key(mint) ==> self.games[mint].mint == mint
                && self.games[mint].wf()
        &&& forall|session_id: Seq<u8>| #[trigger]
            self.claims.contains_key(session_id) ==> self.claims[session_id].session_id
                == session_id && self.claims[session_id].is_claimed
    }

    /// The verdict on setting up a game: `DuplicateGame` where the token type
    /// has a game already, otherwise `InvalidMetadata` where the name or the
    /// symbol is too long.
    pub open spec fn initialize_verdict(
        self,
        mint: Seq<u8>,
        game_name: Seq<char>,
        reward_symbol: Seq<char>,
    ) -> Result<(), GameError> {
        if self.games.contains_key(mint) {
            Err(GameError::DuplicateGame)
        } else if !metadata_fits(game_name, reward_symbol) {
            Err(GameError::InvalidMetadata)
        } else {
            Ok(())
        }
    }

    /// The store after a request to set up a game.
    pub open spec fn after_initialize(
        self,
        mint: Seq<u8>,
        authority: Seq<u8>,
        bump: u8,
        game_name: Seq<char>,
        reward_symbol: Seq<char>,
        decimals: u8,
    ) -> LedgerView {
        if self.initialize_verdict(mint, game_name, reward_symbol) is Ok {
            LedgerView {
                games: self.games.insert(
                    mint,
                    GameConfigView::fresh(
                        authority,
                        mint,
                        game_name,
                        reward_symbol,
                        decimals,
                        bump,
                    ),
                ),
                ..self
            }
        } else {
            self
        }
    }

    /// The verdict on a claim in an existing game: the amount to mint, or the
    /// first rule that the claim breaks. That a record exists under the
    /// session is what makes a session claimed.
    pub open spec fn claim_verdict(self, request: ClaimRequest) -> Result<u64, GameError>
        recommends
            self.games.contains_key(request.mint),
    {
        claim_verdict(
            self.games[request.mint],
            self.claims.contains_key(request.session_id),
            request.authority,
            request.score,
        )
    }

    /// Whether a claim is granted: its game exists and no rule refuses it.
    pub open spec fn grants(self, request: ClaimRequest) -> bool {
        self.games.contains_key(request.mint) && self.claim_verdict(request) is Ok
    }

    /// The store after a claim. A granted claim stores the session's record
    /// and counts itself in its game; any other leaves the store as it was.
    pub open spec fn after_claim(self, request: ClaimRequest) -> LedgerView {
        if self.grants(request) {
            LedgerView {
                games: self.games.insert(
                    request.mint,
                    self.games[request.mint].with_claim(tokens_for_score(request.score)),
                ),
                claims: self.claims.insert(
                    request.session_id,
                    ClaimRecordView::granted(
                        request.player,
                        request.session_id,
                        request.score,
                        request.now,
                    ),
                ),
            }
        } else {
            self
        }
    }

    /// The verdict on handing the authority of an existing game on.
    pub open spec fn admin_verdict(self, mint: Seq<u8>, signer: Seq<u8>) -> Result<(), GameError>
        recommends
            self.games.contains_key(mint),
    {
        if signer != self.games[mint].authority {
            Err(GameError::UnauthorizedAdmin)
        } else {
            Ok(())
        }
    }

    /// The store after a request to hand the authority on.
    pub open spec fn after_add_admin(
        self,
        mint: Seq<u8>,
        signer: Seq<u8>,
        new_admin: Seq<u8>,
    ) -> LedgerView {
        if self.games.contains_key(mint) && self.admin_verdict(mint, signer) is Ok {
            LedgerView {
                games: self.games.insert(mint, self.games[mint].with_authority(new_admin)),
                ..self
            }
        } else {
            self
        }
    }

    /// The store after one request.
    pub open spec fn step(self, request: Request) -> LedgerView {
        match request {
            Request::InitializeGame {
                mint,
                authority,
                bump,
                game_name,
                reward_symbol,
                decimals,
            } => self.after_initialize(mint, authority, bump, game_name, reward_symbol, decimals),
            Request::ClaimReward(claim) => self.after_claim(claim),
            Request::AddAdmin { mint, authority, new_admin } => self.after_add_admin(
                mint,
                authority,
                new_admin,
            ),
        }
    }

    /// The store after a sequence of requests, taken one after another.
    pub open spec fn run(self, requests: Seq<Request>) -> LedgerView
        decreases requests.len(),
    {
        if requests.len() == 0 {
            self
        } else {
            self.run(requests.drop_last()).step(requests.last())
        }
    }

    /// Whether the last of `requests` is a claim that is granted when the
    /// requests are taken one after another from this store.
    pub open spec fn grants_last(self, requests: Seq<Request>) -> bool
        recommends
            requests.len() > 0,
    {
        requests.last() matches Request::ClaimReward(claim) && self.run(
            requests.drop_last(),
        ).grants(claim)
    }

    /// The number of granted claims for the session among `requests`.
    pub open spec fn grants_for_session(self, requests: Seq<Request>, session_id: Seq<u8>) -> nat
        decreases requests.len(),
    {
        if requests.len() == 0 {
            0
        } else {
            let before = self.grants_for_session(requests.drop_last(), session_id);
            if self.grants_last(requests) && requests.last()->ClaimReward_0.session_id
                == session_id {
                before + 1
            } else {
                before
            }
        }
    }

    /// The number of granted claims in the game of `mint` among `requests`.
    pub open spec fn grants_in_game(self, requests: Seq<Request>, mint: Seq<u8>) -> nat
        decreases requests.len(),
    {
        if requests.len() == 0 {
            0
        } else {
            let before = self.grants_in_game(requests.drop_last(), mint);
            if self.grants_last(requests) && requests.last()->ClaimReward_0.mint == mint {
                before + 1
            } else {
                before
            }
        }
    }

    /// The whole tokens of all granted claims in the game of `mint` among
    /// `requests`.
    pub open spec fn tokens_in_game(self, requests: Seq<Request>, mint: Seq<u8>) -> nat
        decreases requests.len(),
    {
        if requests.len() == 0 {
            0
        } else {
            let before = self.tokens_in_game(requests.drop_last(), mint);
            if self.grants_last(requests) && requests.last()->ClaimReward_0.mint == mint {
                before + tokens_for_score(requests.last()->ClaimReward_0.score)
            } else {
                before
            }
        }
    }
}

} // verus!
