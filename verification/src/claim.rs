//! Claims: the conversion, once per session, of a reported score into tokens
//! for a player.

use vstd::prelude::*;
use crate::amount::{mint_amount, mint_amount_spec, pow10, tokens_for_score, tokens_to_mint};
use crate::error::GameError;
use crate::mint::{MintTo, MintToView};
use crate::pubkey::Pubkey;
use crate::state::{ClaimRecord, ClaimRecordView, GameConfig, GameConfigView};

verus! {

/// What a claim works on: the game, what the store holds under the session's
/// key, the player to credit, and the principal that signed the request.
#[derive(Debug)]
pub struct ClaimReward {
    pub game_config: GameConfig,
    /// The record stored under the session's key: `None` until a claim for
    /// the session has been granted.
    pub claim_record: Option<ClaimRecord>,
    pub player: Pubkey,
    /// The principal that signed the request.
    pub authority: Pubkey,
}

/// The verdict on a claim, by four rules in this order: the signer is the
/// game's authority; no record exists for the session yet, whatever such a
/// record holds; the score is worth at least one whole token; the tokens
/// scaled to base units stay inside the 64-bit range. The first rule that is
/// broken names the error; where none is, the verdict is the amount to mint.
pub open spec fn claim_verdict(
    config: GameConfigView,
    record_exists: bool,
    signer: Seq<u8>,
    score: u64,
) -> Result<u64, GameError> {
    if signer != config.authority {
        Err(GameError::UnauthorizedClaim)
    } else if record_exists {
        Err(GameError::SessionAlreadyClaimed)
    } else if tokens_for_score(score) == 0 {
        Err(GameError::InvalidScore)
    } else {
        mint_amount_spec((score / 100) as u64, config.decimals)
    }
}

/// The order that a granted claim hands to the token service: `amount` base
/// units of the game's token type to the player, signed with the capability
/// of the game's configuration.
pub open spec fn mint_order(config: GameConfigView, player: Seq<u8>, amount: nat) -> MintToView {
    MintToView { mint: config.mint, to: player, authority: config.mint_authority(), amount }
}

/// The verdict on a claim of `score` in `ctx`: the amount in base units that
/// it would mint, or the error that it would be refused with. Nothing is
/// changed.
pub fn check_claim(ctx: &ClaimReward, score: u64) -> (verdict: Result<u64, GameError>)
    ensures
        verdict == claim_verdict(ctx.game_config@, ctx.claim_record is Some, ctx.authority@, score),
{
    if !ctx.game_config.is_authority(&ctx.authority) {
        return Err(GameError::UnauthorizedClaim);
    }
    if ctx.claim_record.is_some() {
        return Err(GameError::SessionAlreadyClaimed);
    }
    let tokens: u64 = tokens_to_mint(score);
    if tokens == 0 {
        return Err(GameError::InvalidScore);
    }
    mint_amount(tokens, ctx.game_config.decimals)
}

/// Decides a claim of `score` for the session `session_id`, made at the time
/// `now`, and carries it out on `ctx`.
///
/// A granted claim fills the session's record, counts itself in the game's
/// two counters, and returns the order to mint, which the caller hands to the
/// token service inside the same transaction: where the token service
/// refuses the order, the transaction ends without storing what `ctx` holds.
/// A refused claim leaves `ctx` as it was.
///
/// The counters are 64-bit: a claim that would be granted must find room in
/// them.
pub fn claim_reward(ctx: &mut ClaimReward, score: u64, session_id: [u8; 32], now: i64) -> (res:
    Result<MintTo, GameError>)
    requires
        claim_verdict(
            old(ctx).game_config@,
            old(ctx).claim_record is Some,
            old(ctx).authority@,
            score,
        ) is Ok ==> old(ctx).game_config@.has_room(tokens_for_score(score)),
    ensures
        match claim_verdict(
            old(ctx).game_config@,
            old(ctx).claim_record is Some,
            old(ctx).authority@,
            score,
        ) {
            Ok(amount) => {
                &&& res is Ok
                &&& res->Ok_0@ == mint_order(
                    old(ctx).game_config@,
                    old(ctx).player@,
                    amount as nat,
                )
                &&& amount == tokens_for_score(score) * pow10(
                    old(ctx).game_config.decimals as nat,
                )
                &&& final(ctx).game_config@ == old(ctx).game_config@.with_claim(
                    tokens_for_score(score),
                )
                &&& final(ctx).claim_record is Some
                &&& final(ctx).claim_record->Some_0@ == ClaimRecordView::granted(
                    old(ctx).player@,
                    session_id@,
                    score,
                    now,
                )
                &&& final(ctx).player == old(ctx).player
                &&& final(ctx).authority == old(ctx).authority
            },
            Err(e) => res == Err::<MintTo, GameError>(e) && *final(ctx) == *old(ctx),
        },
        old(ctx).authority@ != old(ctx).game_config@.authority ==> res == Err::<
            MintTo,
            GameError,
        >(GameError::UnauthorizedClaim),
        res is Err ==> *final(ctx) == *old(ctx),
        old(ctx).game_config@.wf() ==> final(ctx).game_config@.wf(),
{
    let amount: u64 = match check_claim(ctx, score) {
        Ok(amount) => amount,
        Err(e) => {
            return Err(e);
        },
    };
    let tokens: u64 = tokens_to_mint(score);
    let order = MintTo {
        mint: ctx.game_config.mint,
        to: ctx.player,
        authority: ctx.game_config.mint_authority(),
        amount,
    };
    ctx.claim_record = Some(
        ClaimRecord {
            player: ctx.player,
            session_id,
            score,
            tokens_claimed: tokens,
            timestamp: now,
            is_claimed: true,
        },
    );
    ctx.game_config.total_rewards_distributed = ctx.game_config.total_rewards_distributed + tokens;
    ctx.game_config.total_claims = ctx.game_config.total_claims + 1;
    Ok(order)
}

} // verus!
