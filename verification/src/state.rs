//! The two stored records: a game's configuration and the record of a claim.

use vstd::prelude::*;
use vstd::utf8::encode_utf8;
use crate::error::GameError;
use crate::mint::{MintAuthority, MintAuthorityView};
use crate::pubkey::Pubkey;

verus! {

/// The longest game name, in bytes of UTF-8.
pub const MAX_GAME_NAME_LEN: usize = 32;

/// The longest reward symbol, in bytes of UTF-8.
pub const MAX_REWARD_SYMBOL_LEN: usize = 10;

/// Whether a name and a symbol are within their bounds.
pub open spec fn metadata_fits(game_name: Seq<char>, reward_symbol: Seq<char>) -> bool {
    &&& encode_utf8(game_name).len() <= MAX_GAME_NAME_LEN
    &&& encode_utf8(reward_symbol).len() <= MAX_REWARD_SYMBOL_LEN
}

/// The configuration of one game. There is one per token type.
#[derive(Debug, PartialEq, Eq)]
pub struct GameConfig {
    /// The principal that may approve claims and hand the authority on.
    pub authority: Pubkey,
    /// The token type that the game mints. It never changes.
    pub mint: Pubkey,
    pub game_name: String,
    pub reward_symbol: String,
    /// The decimal places of the token type.
    pub decimals: u8,
    /// The whole tokens granted by all claims so far.
    pub total_rewards_distributed: u64,
    /// The number of claims granted so far.
    pub total_claims: u64,
    /// The last seed of the address that the configuration is stored at.
    pub bump: u8,
}

/// A game's configuration as a mathematical value. The counters are natural
/// numbers: the model has no largest count.
pub struct GameConfigView {
    pub authority: Seq<u8>,
    pub mint: Seq<u8>,
    pub game_name: Seq<char>,
    pub reward_symbol: Seq<char>,
    pub decimals: u8,
    pub total_rewards_distributed: nat,
    pub total_claims: nat,
    pub bump: u8,
}

impl GameConfigView {
    /// The configuration of a game that has granted nothing yet.
    pub open spec fn fresh(
        authority: Seq<u8>,
        mint: Seq<u8>,
        game_name: Seq<char>,
        reward_symbol: Seq<char>,
        decimals: u8,
        bump: u8,
    ) -> GameConfigView {
        GameConfigView {
            authority,
            mint,
            game_name,
            reward_symbol,
            decimals,
            total_rewards_distributed: 0,
            total_claims: 0,
            bump,
        }
    }

    /// The name and the symbol are within their bounds.
    pub open spec fn wf(self) -> bool {
        metadata_fits(self.game_name, self.reward_symbol)
    }

    /// The same game under another authority. The authority is replaced, not
    /// added to: one principal holds it at a time.
    pub open spec fn with_authority(self, new_authority: Seq<u8>) -> GameConfigView {
        GameConfigView { authority: new_authority, ..self }
    }

    /// The same game after one more claim of `tokens` whole tokens.
    pub open spec fn with_claim(self, tokens: nat) -> GameConfigView {
        GameConfigView {
            total_rewards_distributed: self.total_rewards_distributed + tokens,
            total_claims: self.total_claims + 1,
            ..self
        }
    }

    /// The capability to mint the game's token type.
    pub open spec fn mint_authority(self) -> MintAuthorityView {
        MintAuthorityView { mint: self.mint, bump: self.bump }
    }

    /// Whether 64-bit counters can count one more claim of `tokens` whole
    /// tokens.
    pub open spec fn has_room(self, tokens: nat) -> bool {
        &&& self.total_claims + 1 <= u64::MAX
        &&& self.total_rewards_distributed + tokens <= u64::MAX
    }
}

impl View for GameConfig {
    type V = GameConfigView;

    open spec fn view(&self) -> GameConfigView {
        GameConfigView {
            authority: self.authority@,
            mint: self.mint@,
            game_name: self.game_name@,
            reward_symbol: self.reward_symbol@,
            decimals: self.decimals,
            total_rewards_distributed: self.total_rewards_distributed as nat,
            total_claims: self.total_claims as nat,
            bump: self.bump,
        }
    }
}

impl Clone for GameConfig {
    fn clone(&self) -> (copy: GameConfig)
        ensures
            copy == *self,
    {
        GameConfig {
            authority: self.authority,
            mint: self.mint,
            game_name: self.game_name.clone(),
            reward_symbol: self.reward_symbol.clone(),
            decimals: self.decimals,
            total_rewards_distributed: self.total_rewards_distributed,
            total_claims: self.total_claims,
            bump: self.bump,
        }
    }
}

impl GameConfig {
    /// The configuration of a new game, with both counters at zero, or
    /// `InvalidMetadata` where the name is longer than 32 bytes or the symbol
    /// longer than 10.
    pub fn new(
        authority: Pubkey,
        mint: Pubkey,
        game_name: String,
        reward_symbol: String,
        decimals: u8,
        bump: u8,
    ) -> (made: Result<GameConfig, GameError>)
        ensures
            metadata_fits(game_name@, reward_symbol@) ==> made is Ok && made->Ok_0@
                == GameConfigView::fresh(
                authority@,
                mint@,
                game_name@,
                reward_symbol@,
                decimals,
                bump,
            ) && made->Ok_0@.wf(),
            !metadata_fits(game_name@, reward_symbol@) ==> made == Err::<GameConfig, GameError>(
                GameError::InvalidMetadata,
            ),
    {
        if game_name.as_str().as_bytes().len() > MAX_GAME_NAME_LEN
            || reward_symbol.as_str().as_bytes().len() > MAX_REWARD_SYMBOL_LEN {
            return Err(GameError::InvalidMetadata);
        }
        Ok(
            GameConfig {
                authority,
                mint,
                game_name,
                reward_symbol,
                decimals,
                total_rewards_distributed: 0,
                total_claims: 0,
                bump,
            },
        )
    }

    /// A game always has an authority and a token type: each is a whole
    /// identity of 32 bytes.
    pub proof fn lemma_identities_are_whole(&self)
        ensures
            self@.authority.len() == 32,
            self@.mint.len() == 32,
    {
    }

    /// Whether `who` is the game's current authority.
    pub fn is_authority(&self, who: &Pubkey) -> (yes: bool)
        ensures
            yes == (who@ == self@.authority),
    {
        self.authority == *who
    }

    /// The capability to mint the game's token type.
    pub fn mint_authority(&self) -> (authority: MintAuthority)
        ensures
            authority@ == self@.mint_authority(),
    {
        MintAuthority { mint: self.mint, bump: self.bump }
    }

    /// Whether the counters can count one more claim of `tokens` whole
    /// tokens.
    pub fn has_room(&self, tokens: u64) -> (yes: bool)
        ensures
            yes == self@.has_room(tokens as nat),
    {
        self.total_claims < u64::MAX && tokens <= u64::MAX - self.total_rewards_distributed
    }
}

/// The record of one granted claim. There is at most one per session, and
/// once made it is never changed or removed: that it exists is the proof that
/// the session was claimed.
#[derive(Debug, Clone, Copy, PartialEq, Eq)]
pub struct ClaimRecord {
    /// The player that was credited.
    pub player: Pubkey,
    /// The session that the claim was for: the key of the record.
    pub session_id: [u8; 32],
    /// The score as it was reported.
    pub score: u64,
    /// The whole tokens granted, before scaling.
    pub tokens_claimed: u64,
    /// The time of the claim, in seconds since the Unix epoch.
    pub timestamp: i64,
    /// Set on every record that a claim has made. Kept for those who audit the
    /// store; no rule reads it.
    pub is_claimed: bool,
}

/// A claim record as a mathematical value.
pub struct ClaimRecordView {
    pub player: Seq<u8>,
    pub session_id: Seq<u8>,
    pub score: u64,
    pub tokens_claimed: nat,
    pub timestamp: i64,
    pub is_claimed: bool,
}

impl ClaimRecordView {
    /// The record that a granted claim makes.
    pub open spec fn granted(
        player: Seq<u8>,
        session_id: Seq<u8>,
        score: u64,
        now: i64,
    ) -> ClaimRecordView {
        ClaimRecordView {
            player,
            session_id,
            score,
            tokens_claimed: (score as nat) / 100,
            timestamp: now,
            is_claimed: true,
        }
    }
}

impl View for ClaimRecord {
    type V = ClaimRecordView;

    open spec fn view(&self) -> ClaimRecordView {
        ClaimRecordView {
            player: self.player@,
            session_id: self.session_id@,
            score: self.score,
            tokens_claimed: self.tokens_claimed as nat,
            timestamp: self.timestamp,
            is_claimed: self.is_claimed,
        }
    }
}

} // verus!
