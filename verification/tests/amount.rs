use game_rewards::amount::{checked_decimal_unit, mint_amount, tokens_to_mint, SCORE_PER_TOKEN};
use game_rewards::GameError;

#[test]
fn a_token_costs_a_hundred_points() {
    assert_eq!(SCORE_PER_TOKEN, 100);
}

#[test]
fn tokens_round_down() {
    assert_eq!(tokens_to_mint(0), 0);
    assert_eq!(tokens_to_mint(99), 0);
    assert_eq!(tokens_to_mint(100), 1);
    assert_eq!(tokens_to_mint(199), 1);
    assert_eq!(tokens_to_mint(250), 2);
    assert_eq!(tokens_to_mint(u64::MAX), 184_467_440_737_095_516);
}

#[test]
fn decimal_unit_is_a_power_of_ten() {
    assert_eq!(checked_decimal_unit(0), Some(1));
    assert_eq!(checked_decimal_unit(1), Some(10));
    assert_eq!(checked_decimal_unit(9), Some(1_000_000_000));
    assert_eq!(checked_decimal_unit(19), Some(10_000_000_000_000_000_000));
}

#[test]
fn decimal_unit_beyond_u64_is_none() {
    assert_eq!(checked_decimal_unit(20), None);
    assert_eq!(checked_decimal_unit(21), None);
    assert_eq!(checked_decimal_unit(255), None);
}

#[test]
fn decimal_unit_agrees_with_pow_while_it_fits() {
    for decimals in 0u8..=19 {
        assert_eq!(checked_decimal_unit(decimals), Some(10u64.pow(decimals as u32)));
    }
}

#[test]
fn mint_amount_scales_by_decimals() {
    assert_eq!(mint_amount(2, 9), Ok(2_000_000_000));
    assert_eq!(mint_amount(5, 0), Ok(5));
    assert_eq!(mint_amount(1, 19), Ok(10_000_000_000_000_000_000));
    assert_eq!(mint_amount(18, 18), Ok(18_000_000_000_000_000_000));
    assert_eq!(mint_amount(u64::MAX, 0), Ok(u64::MAX));
}

#[test]
fn mint_amount_refuses_a_product_out_of_range() {
    assert_eq!(mint_amount(19, 18), Err(GameError::Overflow));
    assert_eq!(mint_amount(2, 19), Err(GameError::Overflow));
    assert_eq!(mint_amount(u64::MAX, 1), Err(GameError::Overflow));
}

#[test]
fn mint_amount_refuses_a_factor_out_of_range() {
    assert_eq!(mint_amount(1, 20), Err(GameError::Overflow));
    assert_eq!(mint_amount(0, 20), Err(GameError::Overflow));
    assert_eq!(mint_amount(1, 255), Err(GameError::Overflow));
}

#[test]
fn mint_amount_of_no_tokens_is_zero_while_the_factor_fits() {
    assert_eq!(mint_amount(0, 19), Ok(0));
}
