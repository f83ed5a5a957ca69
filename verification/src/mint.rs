//! What is handed to the token service: the order to mint, and the
//! capability that signs it.

use vstd::prelude::*;
use vstd::slice::slice_to_vec;
use vstd::string::StringSliceAdditionalSpecFns;
use crate::pubkey::Pubkey;

verus! {

/// The first seed of the address that a game's configuration is stored at,
/// as bytes.
pub open spec fn config_seed_prefix() -> Seq<u8> {
    "game-config".spec_bytes()
}

/// The capability to mint a game's token type. It belongs to the stored
/// configuration of the game, which is found at the address derived from the
/// three seeds that `signer_seeds` gives; only who can derive that address can
/// sign for it.
#[derive(Debug, Clone, Copy, PartialEq, Eq)]
pub struct MintAuthority {
    /// The token type that the capability is for.
    pub mint: Pubkey,
    /// The last seed of the derived address.
    pub bump: u8,
}

/// A mint authority as a mathematical value.
pub struct MintAuthorityView {
    pub mint: Seq<u8>,
    pub bump: u8,
}

impl MintAuthorityView {
    /// The seeds that the token service is given to check the signature: the
    /// bytes of `game-config`, the token type, and the bump as one byte.
    pub open spec fn signer_seeds(self) -> Seq<Seq<u8>> {
        seq![config_seed_prefix(), self.mint, seq![self.bump]]
    }
}

impl View for MintAuthority {
    type V = MintAuthorityView;

    open spec fn view(&self) -> MintAuthorityView {
        MintAuthorityView { mint: self.mint@, bump: self.bump }
    }
}

impl MintAuthority {
    /// The seeds to sign with, in their order.
    pub fn signer_seeds(&self) -> (seeds: Vec<Vec<u8>>)
        ensures
            seeds@.len() == 3,
            forall|i: int| 0 <= i < 3 ==> (#[trigger] seeds@[i])@ == self@.signer_seeds()[i],
    {
        let mut seeds: Vec<Vec<u8>> = Vec::new();
        seeds.push(slice_to_vec("game-config".as_bytes()));
        seeds.push(slice_to_vec(self.mint.bytes.as_slice()));
        let mut last: Vec<u8> = Vec::new();
        last.push(self.bump);
        seeds.push(last);
        assert(seeds@[2]@ =~= seq![self.bump]);
        seeds
    }
}

/// The order to credit `amount` base units of the token type `mint` to the
/// holding account of `to`, signed by `authority`. Where that holding account
/// does not exist yet, it is made first.
#[derive(Debug, Clone, Copy, PartialEq, Eq)]
pub struct MintTo {
    pub mint: Pubkey,
    /// The player whose holding account is credited.
    pub to: Pubkey,
    pub authority: MintAuthority,
    /// The amount in base units.
    pub amount: u64,
}

/// An order to mint as a mathematical value.
pub struct MintToView {
    pub mint: Seq<u8>,
    pub to: Seq<u8>,
    pub authority: MintAuthorityView,
    pub amount: nat,
}

impl View for MintTo {
    type V = MintToView;

    open spec fn view(&self) -> MintToView {
        MintToView {
            mint: self.mint@,
            to: self.to@,
            authority: self.authority@,
            amount: self.amount as nat,
        }
    }
}

} // verus!
