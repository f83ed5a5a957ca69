//! The ways an operation of the ledger can be refused.

use vstd::prelude::*;

verus! {

/// Why an operation was refused. Every refusal is final for the operation
/// that met it and leaves all stored state as it was.
#[derive(Debug, Clone, Copy, PartialEq, Eq, Structural)]
pub enum GameError {
    /// The caller of a claim is not the game's current authority.
    UnauthorizedClaim,
    /// A claim record already exists for the session.
    SessionAlreadyClaimed,
    /// The score is worth less than one whole token.
    InvalidScore,
    /// Scaling the token amount by the decimal factor leaves the 64-bit range.
    Overflow,
    /// The caller of an authority rotation is not the game's current authority.
    UnauthorizedAdmin,
    /// A game is already configured for the token type.
    DuplicateGame,
    /// The game name or the reward symbol is longer than its bound.
    InvalidMetadata,
}

impl GameError {
    /// The sentence that `message` returns for each error.
    pub open spec fn message_spec(self) -> Seq<char> {
        match self {
            GameError::UnauthorizedClaim => "Unauthorized: Only game authority can claim rewards"@,
            GameError::SessionAlreadyClaimed => "This game session has already been claimed"@,
            GameError::InvalidScore => "Invalid score: must result in at least 1 token"@,
            GameError::Overflow => "Arithmetic overflow"@,
            GameError::UnauthorizedAdmin => "Unauthorized: Only owner can manage admins"@,
            GameError::DuplicateGame => "A game is already configured for this token"@,
            GameError::InvalidMetadata => {
                "Invalid metadata: game name or reward symbol is too long"@
            },
        }
    }

    /// The error in words, for the caller to show.
    pub fn message(&self) -> (text: &'static str)
        ensures
            text@ == self.message_spec(),
    {
        match self {
            GameError::UnauthorizedClaim => "Unauthorized: Only game authority can claim rewards",
            GameError::SessionAlreadyClaimed => "This game session has already been claimed",
            GameError::InvalidScore => "Invalid score: must result in at least 1 token",
            GameError::Overflow => "Arithmetic overflow",
            GameError::UnauthorizedAdmin => "Unauthorized: Only owner can manage admins",
            GameError::DuplicateGame => "A game is already configured for this token",
            GameError::InvalidMetadata => {
                "Invalid metadata: game name or reward symbol is too long"
            },
        }
    }
}

} // verus!
