//! From a score to the amount that is minted.
//!
//! A score is worth one whole token per hundred points, rounded down. The
//! token service counts in base units, `10^decimals` of them to a token, so
//! the whole tokens are scaled by that factor before they are minted. The
//! scaling stays inside the unsigned 64-bit range or is refused.

use vstd::prelude::*;
use crate::error::GameError;

verus! {

/// The points of score that earn one whole token.
pub const SCORE_PER_TOKEN: u64 = 100;

/// Ten to the power `e`.
pub open spec fn pow10(e: nat) -> nat
    decreases e,
{
    if e == 0 {
        1
    } else {
        10 * pow10((e - 1) as nat)
    }
}

/// The whole tokens that a score is worth: `floor(score / 100)`.
pub open spec fn tokens_for_score(score: u64) -> nat {
    (score as nat) / 100
}

/// The base units in one whole token.
pub open spec fn decimal_unit(decimals: u8) -> nat {
    pow10(decimals as nat)
}

/// The amount in base units of `tokens` whole tokens, as a mathematical
/// integer.
pub open spec fn scaled(tokens: nat, decimals: u8) -> nat {
    tokens * decimal_unit(decimals)
}

/// Whether scaling `tokens` whole tokens stays inside the 64-bit range at
/// every step: the factor itself fits, and so does the product.
pub open spec fn scaling_fits(tokens: nat, decimals: u8) -> bool {
    decimal_unit(decimals) <= u64::MAX && scaled(tokens, decimals) <= u64::MAX
}

/// What `mint_amount` returns.
pub open spec fn mint_amount_spec(tokens: u64, decimals: u8) -> Result<u64, GameError> {
    if scaling_fits(tokens as nat, decimals) {
        Ok(scaled(tokens as nat, decimals) as u64)
    } else {
        Err(GameError::Overflow)
    }
}

/// `pow10` never decreases.
pub proof fn lemma_pow10_monotonic(a: nat, b: nat)
    requires
        a <= b,
    ensures
        1 <= pow10(a) <= pow10(b),
    decreases b,
{
    if b == 0 {
    } else if a == b {
        lemma_pow10_monotonic((a - 1) as nat, (b - 1) as nat);
    } else {
        lemma_pow10_monotonic(a, (b - 1) as nat);
    }
}

/// For at least one token the product alone decides: where it fits, the
/// factor fits too.
pub proof fn lemma_scaling_fits_by_product(tokens: nat, decimals: u8)
    requires
        tokens >= 1,
    ensures
        scaling_fits(tokens, decimals) <==> scaled(tokens, decimals) <= u64::MAX,
{
    let unit = decimal_unit(decimals);
    assert(tokens * unit >= unit) by (nonlinear_arith)
        requires
            tokens >= 1,
    ;
}

/// The whole tokens that `score` is worth.
pub fn tokens_to_mint(score: u64) -> (tokens: u64)
    ensures
        tokens == tokens_for_score(score),
{
    score / SCORE_PER_TOKEN
}

/// `10^decimals`, or `None` where that leaves the 64-bit range.
pub fn checked_decimal_unit(decimals: u8) -> (unit: Option<u64>)
    ensures
        unit == (if decimal_unit(decimals) <= u64::MAX {
            Some(decimal_unit(decimals) as u64)
        } else {
            None
        }),
{
    let mut unit: u64 = 1;
    let mut done: u8 = 0;
    while done < decimals
        invariant
            done <= decimals,
            unit == pow10(done as nat),
        decreases decimals - done,
    {
        match unit.checked_mul(10) {
            Some(next) => {
                unit = next;
            },
            None => {
                proof {
                    lemma_pow10_monotonic((done + 1) as nat, decimals as nat);
                }
                return None;
            },
        }
        done += 1;
    }
    Some(unit)
}

/// The amount in base units to mint for `tokens` whole tokens:
/// `tokens * 10^decimals`, or `Overflow` where the factor or the product
/// leaves the 64-bit range.
pub fn mint_amount(tokens: u64, decimals: u8) -> (amount: Result<u64, GameError>)
    ensures
        amount == mint_amount_spec(tokens, decimals),
{
    match checked_decimal_unit(decimals) {
        None => Err(GameError::Overflow),
        Some(unit) => match tokens.checked_mul(unit) {
            None => Err(GameError::Overflow),
            Some(amount) => Ok(amount),
        },
    }
}

} // verus!
