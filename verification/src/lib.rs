//! A reward-issuance ledger: a game session's score is converted, exactly
//! once, into a token credit for a player, under a single rotating authority.
//!
//! The library decides and records; it does not talk to the token service or
//! to a clock. An operation takes what the store holds and the request as
//! plain values, and gives back the verdict, the new values to store, and,
//! for a granted claim, the order to mint that the caller hands on.
//!
//! - [`amount`]: from a score to whole tokens to base units.
//! - [`state`]: the two stored records, [`GameConfig`] and [`ClaimRecord`].
//! - [`mint`]: the order to mint and the capability that signs it.
//! - [`admin`]: [`initialize_game`] and [`add_admin`].
//! - [`claim`]: [`claim_reward`], the rules of a claim in their order.
//! - [`ledger`]: [`Ledger`], the store of all games and all claim records.
//! - [`model`]: the store as a mathematical value; [`laws`]: what holds of
//!   it whatever is asked, in whatever order.

pub mod admin;
pub mod amount;
pub mod claim;
pub mod error;
pub mod laws;
pub mod ledger;
pub mod mint;
pub mod model;
pub mod pubkey;
pub mod state;

pub use admin::{add_admin, initialize_game, InitializeGame, ManageAdmin};
pub use claim::{check_claim, claim_reward, ClaimReward};
pub use error::GameError;
pub use ledger::Ledger;
pub use mint::{MintAuthority, MintTo};
pub use pubkey::Pubkey;
pub use state::{ClaimRecord, GameConfig};
