use game_rewards::{ClaimRecord, GameError, Ledger, MintAuthority, MintTo, Pubkey};

fn who(byte: u8) -> Pubkey {
    Pubkey::new([byte; 32])
}

const AUTHORITY: u8 = 1;
const MINT: u8 = 2;
const PLAYER: u8 = 3;

fn ledger_with_game(decimals: u8) -> Ledger {
    let mut ledger = Ledger::new();
    let res = ledger.initialize_game(
        who(MINT),
        who(AUTHORITY),
        255,
        String::from("Star Runner"),
        String::from("STAR"),
        decimals,
    );
    assert_eq!(res, Ok(()));
    ledger
}

#[test]
fn new_ledger_is_empty() {
    let ledger = Ledger::new();
    assert!(ledger.game(&who(MINT)).is_none());
    assert!(ledger.claim_record(&[0; 32]).is_none());
}

#[test]
fn initialized_game_is_stored_under_its_token() {
    let ledger = ledger_with_game(9);
    let game = ledger.game(&who(MINT)).unwrap();
    assert_eq!(game.authority, who(AUTHORITY));
    assert_eq!(game.mint, who(MINT));
    assert_eq!(game.game_name, "Star Runner");
    assert_eq!(game.reward_symbol, "STAR");
    assert_eq!(game.decimals, 9);
    assert_eq!(game.total_claims, 0);
    assert_eq!(game.total_rewards_distributed, 0);
    assert_eq!(game.bump, 255);
    assert!(ledger.game(&who(9)).is_none());
}

#[test]
fn same_token_cannot_get_a_second_game() {
    let mut ledger = ledger_with_game(9);
    let res = ledger.initialize_game(
        who(MINT),
        who(8),
        1,
        String::from("Impostor"),
        String::from("IMP"),
        0,
    );
    assert_eq!(res, Err(GameError::DuplicateGame));
    let game = ledger.game(&who(MINT)).unwrap();
    assert_eq!(game.authority, who(AUTHORITY));
    assert_eq!(game.game_name, "Star Runner");
    assert_eq!(game.decimals, 9);
}

#[test]
fn too_long_metadata_stores_no_game() {
    let mut ledger = Ledger::new();
    let res = ledger.initialize_game(
        who(MINT),
        who(AUTHORITY),
        255,
        "x".repeat(33),
        String::from("STAR"),
        9,
    );
    assert_eq!(res, Err(GameError::InvalidMetadata));
    assert!(ledger.game(&who(MINT)).is_none());
    let res = ledger.initialize_game(
        who(MINT),
        who(AUTHORITY),
        255,
        String::from("Star Runner"),
        "x".repeat(11),
        9,
    );
    assert_eq!(res, Err(GameError::InvalidMetadata));
    assert!(ledger.game(&who(MINT)).is_none());
}

#[test]
fn ledger_claim_mints_and_records() {
    let mut ledger = ledger_with_game(9);
    let order = ledger
        .claim_reward(who(MINT), who(AUTHORITY), who(PLAYER), 250, [7; 32], 1_700_000_000)
        .unwrap();
    assert_eq!(
        order,
        MintTo {
            mint: who(MINT),
            to: who(PLAYER),
            authority: MintAuthority { mint: who(MINT), bump: 255 },
            amount: 2_000_000_000,
        }
    );
    assert_eq!(
        ledger.claim_record(&[7; 32]),
        Some(ClaimRecord {
            player: who(PLAYER),
            session_id: [7; 32],
            score: 250,
            tokens_claimed: 2,
            timestamp: 1_700_000_000,
            is_claimed: true,
        })
    );
    let game = ledger.game(&who(MINT)).unwrap();
    assert_eq!(game.total_claims, 1);
    assert_eq!(game.total_rewards_distributed, 2);
}

#[test]
fn two_claims_for_one_session_grant_exactly_one() {
    let mut ledger = ledger_with_game(4);
    let first = ledger.claim_reward(who(MINT), who(AUTHORITY), who(PLAYER), 500, [42; 32], 1);
    let second = ledger.claim_reward(who(MINT), who(AUTHORITY), who(PLAYER), 500, [42; 32], 2);
    assert_eq!(first.unwrap().amount, 5 * 10u64.pow(4));
    assert_eq!(second, Err(GameError::SessionAlreadyClaimed));
    let game = ledger.game(&who(MINT)).unwrap();
    assert_eq!(game.total_claims, 1);
    assert_eq!(game.total_rewards_distributed, 5);
    assert_eq!(ledger.claim_record(&[42; 32]).unwrap().timestamp, 1);
}

#[test]
fn claimed_session_stays_claimed_for_other_players_and_scores() {
    let mut ledger = ledger_with_game(4);
    ledger.claim_reward(who(MINT), who(AUTHORITY), who(PLAYER), 500, [42; 32], 1).unwrap();
    for attempt in 0..5u64 {
        let res = ledger.claim_reward(
            who(MINT),
            who(AUTHORITY),
            who(10 + attempt as u8),
            100 * (attempt + 1),
            [42; 32],
            attempt as i64,
        );
        assert_eq!(res, Err(GameError::SessionAlreadyClaimed));
    }
    assert_eq!(ledger.claim_record(&[42; 32]).unwrap().player, who(PLAYER));
    assert_eq!(ledger.game(&who(MINT)).unwrap().total_claims, 1);
}

#[test]
fn session_is_claimed_across_games() {
    let mut ledger = ledger_with_game(4);
    let res = ledger.initialize_game(
        who(20),
        who(21),
        9,
        String::from("Second"),
        String::from("SEC"),
        2,
    );
    assert_eq!(res, Ok(()));
    ledger.claim_reward(who(MINT), who(AUTHORITY), who(PLAYER), 500, [42; 32], 1).unwrap();
    let res = ledger.claim_reward(who(20), who(21), who(PLAYER), 500, [42; 32], 1);
    assert_eq!(res, Err(GameError::SessionAlreadyClaimed));
    assert_eq!(ledger.game(&who(20)).unwrap().total_claims, 0);
}

#[test]
fn counters_follow_the_granted_claims() {
    let mut ledger = ledger_with_game(9);
    let scores: [u64; 6] = [100, 250, 99, 1_000, 12_345, 50];
    let mut granted = 0u64;
    let mut tokens = 0u64;
    for (i, score) in scores.iter().enumerate() {
        let res = ledger.claim_reward(
            who(MINT),
            who(AUTHORITY),
            who(PLAYER),
            *score,
            [i as u8; 32],
            i as i64,
        );
        if let Ok(order) = res {
            granted += 1;
            tokens += score / 100;
            assert_eq!(order.amount, score / 100 * 1_000_000_000);
        } else {
            assert_eq!(res, Err(GameError::InvalidScore));
        }
        let game = ledger.game(&who(MINT)).unwrap();
        assert_eq!(game.total_claims, granted);
        assert_eq!(game.total_rewards_distributed, tokens);
    }
    assert_eq!(granted, 4);
    assert_eq!(tokens, 1 + 2 + 10 + 123);
}

#[test]
fn counters_are_kept_per_game() {
    let mut ledger = ledger_with_game(0);
    ledger
        .initialize_game(who(20), who(21), 9, String::from("Second"), String::from("SEC"), 2)
        .unwrap();
    ledger.claim_reward(who(MINT), who(AUTHORITY), who(PLAYER), 300, [1; 32], 0).unwrap();
    ledger.claim_reward(who(20), who(21), who(PLAYER), 700, [2; 32], 0).unwrap();
    ledger.claim_reward(who(20), who(21), who(PLAYER), 100, [3; 32], 0).unwrap();
    let first = ledger.game(&who(MINT)).unwrap();
    assert_eq!((first.total_claims, first.total_rewards_distributed), (1, 3));
    let second = ledger.game(&who(20)).unwrap();
    assert_eq!((second.total_claims, second.total_rewards_distributed), (2, 8));
}

#[test]
fn unauthorized_claim_changes_no_stored_field() {
    let mut ledger = ledger_with_game(9);
    let res = ledger.claim_reward(who(MINT), who(9), who(PLAYER), 250, [7; 32], 0);
    assert_eq!(res, Err(GameError::UnauthorizedClaim));
    assert!(ledger.claim_record(&[7; 32]).is_none());
    let game = ledger.game(&who(MINT)).unwrap();
    assert_eq!(game.total_claims, 0);
    assert_eq!(game.total_rewards_distributed, 0);
    assert_eq!(game.authority, who(AUTHORITY));
}

#[test]
fn invalid_score_stores_nothing_and_the_session_stays_open() {
    let mut ledger = ledger_with_game(9);
    let res = ledger.claim_reward(who(MINT), who(AUTHORITY), who(PLAYER), 50, [7; 32], 0);
    assert_eq!(res, Err(GameError::InvalidScore));
    assert!(ledger.claim_record(&[7; 32]).is_none());
    let res = ledger.claim_reward(who(MINT), who(AUTHORITY), who(PLAYER), 150, [7; 32], 0);
    assert_eq!(res.unwrap().amount, 1_000_000_000);
}

#[test]
fn overflow_stores_no_record_and_moves_no_counter() {
    let mut ledger = ledger_with_game(18);
    ledger.claim_reward(who(MINT), who(AUTHORITY), who(PLAYER), 1_800, [1; 32], 0).unwrap();
    let res = ledger.claim_reward(who(MINT), who(AUTHORITY), who(PLAYER), 1_900, [7; 32], 0);
    assert_eq!(res, Err(GameError::Overflow));
    assert!(ledger.claim_record(&[7; 32]).is_none());
    let game = ledger.game(&who(MINT)).unwrap();
    assert_eq!(game.total_claims, 1);
    assert_eq!(game.total_rewards_distributed, 18);
    // The session is still open to a claim that fits.
    let res = ledger.claim_reward(who(MINT), who(AUTHORITY), who(PLAYER), 100, [7; 32], 0);
    assert_eq!(res.unwrap().amount, 1_000_000_000_000_000_000);
}

#[test]
fn ledger_rotation_by_a_stranger_is_refused() {
    let mut ledger = ledger_with_game(9);
    assert_eq!(ledger.add_admin(who(MINT), who(9), who(9)), Err(GameError::UnauthorizedAdmin));
    assert_eq!(ledger.game(&who(MINT)).unwrap().authority, who(AUTHORITY));
}

#[test]
fn after_rotation_only_the_new_authority_claims() {
    let mut ledger = ledger_with_game(9);
    assert_eq!(ledger.add_admin(who(MINT), who(AUTHORITY), who(5)), Ok(()));
    assert_eq!(ledger.game(&who(MINT)).unwrap().authority, who(5));
    let res = ledger.claim_reward(who(MINT), who(AUTHORITY), who(PLAYER), 250, [7; 32], 0);
    assert_eq!(res, Err(GameError::UnauthorizedClaim));
    let res = ledger.claim_reward(who(MINT), who(5), who(PLAYER), 250, [7; 32], 0);
    assert_eq!(res.unwrap().amount, 2_000_000_000);
    let res = ledger.add_admin(who(MINT), who(AUTHORITY), who(6));
    assert_eq!(res, Err(GameError::UnauthorizedAdmin));
}

#[test]
fn rotation_keeps_counters_and_records() {
    let mut ledger = ledger_with_game(9);
    ledger.claim_reward(who(MINT), who(AUTHORITY), who(PLAYER), 250, [7; 32], 3).unwrap();
    ledger.add_admin(who(MINT), who(AUTHORITY), who(5)).unwrap();
    let game = ledger.game(&who(MINT)).unwrap();
    assert_eq!((game.total_claims, game.total_rewards_distributed), (1, 2));
    assert_eq!(ledger.claim_record(&[7; 32]).unwrap().tokens_claimed, 2);
    let res = ledger.claim_reward(who(MINT), who(5), who(PLAYER), 250, [7; 32], 4);
    assert_eq!(res, Err(GameError::SessionAlreadyClaimed));
}

#[test]
fn sessions_that_differ_in_one_byte_are_different() {
    let mut ledger = ledger_with_game(0);
    let mut session = [0u8; 32];
    ledger.claim_reward(who(MINT), who(AUTHORITY), who(PLAYER), 100, session, 0).unwrap();
    session[31] = 1;
    ledger.claim_reward(who(MINT), who(AUTHORITY), who(PLAYER), 100, session, 0).unwrap();
    session[0] = 1;
    ledger.claim_reward(who(MINT), who(AUTHORITY), who(PLAYER), 100, session, 0).unwrap();
    assert_eq!(ledger.game(&who(MINT)).unwrap().total_claims, 3);
    assert!(ledger.claim_record(&[1; 32]).is_none());
    assert_eq!(ledger.claim_record(&session).unwrap().session_id, session);
}
