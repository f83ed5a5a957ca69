//! Setting a game up, and handing its authority on.

use vstd::prelude::*;
use crate::error::GameError;
use crate::pubkey::Pubkey;
use crate::state::{metadata_fits, GameConfig, GameConfigView};

verus! {

/// What setting a game up works on: the token type that was made for the
/// game, what the store holds for that token type, and the principal that
/// signed the request.
#[derive(Debug)]
pub struct InitializeGame {
    /// The token type of the game.
    pub mint: Pubkey,
    /// The configuration stored for the token type: `None` until a game has
    /// been set up for it.
    pub game_config: Option<GameConfig>,
    /// The principal that signed the request. It becomes the game's first
    /// authority.
    pub authority: Pubkey,
    /// The last seed of the address that the configuration is stored at.
    pub bump: u8,
}

/// What handing the authority on works on: the game, and the principal that
/// signed the request.
#[derive(Debug)]
pub struct ManageAdmin {
    pub game_config: GameConfig,
    /// The principal that signed the request.
    pub authority: Pubkey,
}

/// Sets up the game of the token type `ctx.mint`: its configuration is
/// stored with the signer as authority, the given name, symbol and decimals,
/// and both counters at zero.
///
/// Refused with `DuplicateGame` where a configuration is already stored for
/// the token type; otherwise with `InvalidMetadata` where the name is longer
/// than 32 bytes or the symbol longer than 10. A refusal leaves `ctx` as it
/// was.
pub fn initialize_game(
    ctx: &mut InitializeGame,
    game_name: String,
    reward_symbol: String,
    decimals: u8,
) -> (res: Result<(), GameError>)
    ensures
        old(ctx).game_config is Some ==> res == Err::<(), GameError>(GameError::DuplicateGame),
        old(ctx).game_config is None && !metadata_fits(game_name@, reward_symbol@) ==> res
            == Err::<(), GameError>(GameError::InvalidMetadata),
        old(ctx).game_config is None && metadata_fits(game_name@, reward_symbol@) ==> {
            &&& res is Ok
            &&& final(ctx).game_config is Some
            &&& final(ctx).game_config->Some_0@ == GameConfigView::fresh(
                old(ctx).authority@,
                old(ctx).mint@,
                game_name@,
                reward_symbol@,
                decimals,
                old(ctx).bump,
            )
            &&& final(ctx).game_config->Some_0@.wf()
            &&& final(ctx).mint == old(ctx).mint
            &&& final(ctx).authority == old(ctx).authority
            &&& final(ctx).bump == old(ctx).bump
        },
        res is Err ==> *final(ctx) == *old(ctx),
{
    if ctx.game_config.is_some() {
        return Err(GameError::DuplicateGame);
    }
    match GameConfig::new(ctx.authority, ctx.mint, game_name, reward_symbol, decimals, ctx.bump) {
        Ok(game_config) => {
            ctx.game_config = Some(game_config);
            Ok(())
        },
        Err(e) => Err(e),
    }
}

/// Hands the game's authority to `new_admin`. Only the current authority may
/// do so, and from then on only `new_admin` holds it: the authority is
/// replaced, not shared.
///
/// Refused with `UnauthorizedAdmin` where the signer is not the current
/// authority; `ctx` is then left as it was.
pub fn add_admin(ctx: &mut ManageAdmin, new_admin: Pubkey) -> (res: Result<(), GameError>)
    ensures
        old(ctx).authority@ != old(ctx).game_config@.authority ==> res == Err::<(), GameError>(
            GameError::UnauthorizedAdmin,
        ),
        old(ctx).authority@ == old(ctx).game_config@.authority ==> {
            &&& res is Ok
            &&& final(ctx).game_config@ == old(ctx).game_config@.with_authority(new_admin@)
            &&& final(ctx).authority == old(ctx).authority
        },
        res is Err ==> *final(ctx) == *old(ctx),
        old(ctx).game_config@.wf() ==> final(ctx).game_config@.wf(),
{
    if !ctx.game_config.is_authority(&ctx.authority) {
        return Err(GameError::UnauthorizedAdmin);
    }
    ctx.game_config.authority = new_admin;
    Ok(())
}

} // verus!
