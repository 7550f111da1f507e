//! Tests of the arena records and the settlement and rating engine.

use sol_arena::arena::initialize;
use sol_arena::arena::register_player;
use sol_arena::arena::PlayerStats;
use sol_arena::coin_flip::create_coin_flip;
use sol_arena::coin_flip::join_coin_flip;
use sol_arena::coin_flip::reveal_flip_secret;
use sol_arena::commitment::choice_commitment;
use sol_arena::commitment::flip_commitment;
use sol_arena::errors::ArenaError;
use sol_arena::rps::commit_choice;
use sol_arena::rps::create_rps_match;
use sol_arena::rps::join_rps_match;
use sol_arena::rps::reveal_choice;
use sol_arena::rps::RpsMatch;
use sol_arena::settlement::compute_rating_delta;
use sol_arena::settlement::settle_coin_flip;
use sol_arena::settlement::settle_rps;
use sol_arena::settlement::settlement_amounts;

const OWNER: [u8; 32] = [9u8; 32];
const ALICE: [u8; 32] = [1u8; 32];
const BOB: [u8; 32] = [2u8; 32];

fn finished_match() -> RpsMatch {
    let mut m = create_rps_match(ALICE, 1000, 77).unwrap();
    join_rps_match(&mut m, BOB).unwrap();
    for (a, b) in [(1u8, 3u8), (2u8, 1u8)] {
        let salt_a = [10u8; 32];
        let salt_b = [20u8; 32];
        commit_choice(&mut m, ALICE, choice_commitment(a, &salt_a)).unwrap();
        commit_choice(&mut m, BOB, choice_commitment(b, &salt_b)).unwrap();
        reveal_choice(&mut m, ALICE, a, salt_a).unwrap();
        reveal_choice(&mut m, BOB, b, salt_b).unwrap();
    }
    assert!(m.settled);
    m
}

#[test]
fn initialize_sets_fixed_fee_rate() {
    let arena = initialize(OWNER);
    assert_eq!(arena.authority, OWNER);
    assert_eq!(arena.total_matches, 0);
    assert_eq!(arena.total_players, 0);
    assert_eq!(arena.fee_rate_bps, 250);
    assert_eq!(arena.fee_balance, 0);
}

#[test]
fn register_player_starts_fresh_and_counts() {
    let mut arena = initialize(OWNER);
    let stats = register_player(&mut arena, ALICE);
    assert_eq!(stats.authority, ALICE);
    assert_eq!(stats.wins, 0);
    assert_eq!(stats.losses, 0);
    assert_eq!(stats.draws, 0);
    assert_eq!(stats.elo, 1200);
    assert_eq!(stats.total_wagered, 0);
    assert_eq!(stats.total_won, 0);
    assert_eq!(stats.matches_played, 0);
    assert_eq!(arena.total_players, 1);
    register_player(&mut arena, BOB);
    assert_eq!(arena.total_players, 2);
}

#[test]
fn stake_1000_gives_fee_50_payout_1950() {
    let (payout, fee) = settlement_amounts(1000, 250);
    assert_eq!(fee, 50);
    assert_eq!(payout, 1950);
}

#[test]
fn settlement_conserves_value_exactly() {
    for stake in [1u64, 2, 3, 19, 1000, 123_456_789] {
        let (payout, fee) = settlement_amounts(stake, 250);
        assert_eq!(payout + fee, 2 * stake);
    }
}

#[test]
fn equal_ratings_move_sixteen_points() {
    // 1200 vs 1200: diff 0, expected 500, delta max(1, 32*500/1000) = 16.
    assert_eq!(compute_rating_delta(1200, 1200), 16);
    let mut arena = initialize(OWNER);
    let mut winner = register_player(&mut arena, ALICE);
    let mut loser = register_player(&mut arena, BOB);
    let m = finished_match();
    let (w, l, payout, fee) = settle_rps(&m, &mut arena, &mut winner, &mut loser).unwrap();
    assert_eq!(w, ALICE);
    assert_eq!(l, BOB);
    assert_eq!(payout, 1950);
    assert_eq!(fee, 50);
    assert_eq!(winner.elo, 1216);
    assert_eq!(loser.elo, 1184);
}

#[test]
fn higher_rated_winner_gains_one_point() {
    // 1600 vs 1200: diff min(400,400)=400, expected 500+400*500/400=1000,
    // delta max(1, 32*0/1000) = 1.
    assert_eq!(compute_rating_delta(1600, 1200), 1);
    let mut arena = initialize(OWNER);
    let mut winner = register_player(&mut arena, ALICE);
    let mut loser = register_player(&mut arena, BOB);
    winner.elo = 1600;
    let m = finished_match();
    settle_rps(&m, &mut arena, &mut winner, &mut loser).unwrap();
    assert_eq!(winner.elo, 1601);
    assert_eq!(loser.elo, 1199);
}

#[test]
fn rating_update_is_zero_sum_above_the_floor() {
    let mut arena = initialize(OWNER);
    let mut winner = register_player(&mut arena, ALICE);
    let mut loser = register_player(&mut arena, BOB);
    winner.elo = 1100;
    loser.elo = 1350;
    let delta = compute_rating_delta(1100, 1350);
    let m = finished_match();
    settle_rps(&m, &mut arena, &mut winner, &mut loser).unwrap();
    assert_eq!(winner.elo, 1100 + delta);
    assert_eq!(loser.elo, 1350 - delta);
}

#[test]
fn ratings_never_drop_below_the_floor() {
    let mut arena = initialize(OWNER);
    let mut winner = register_player(&mut arena, ALICE);
    let mut loser = register_player(&mut arena, BOB);
    loser.elo = 100;
    let m = finished_match();
    settle_rps(&m, &mut arena, &mut winner, &mut loser).unwrap();
    assert!(loser.elo >= 100);
    assert_eq!(loser.elo, 100);
}

#[test]
fn settle_updates_stats_and_arena() {
    let mut arena = initialize(OWNER);
    let mut winner = register_player(&mut arena, ALICE);
    let mut loser = register_player(&mut arena, BOB);
    let m = finished_match();
    let (_, _, payout, fee) = settle_rps(&m, &mut arena, &mut winner, &mut loser).unwrap();
    assert_eq!(winner.wins, 1);
    assert_eq!(winner.losses, 0);
    assert_eq!(winner.total_won, payout);
    assert_eq!(winner.total_wagered, 1000);
    assert_eq!(winner.matches_played, 1);
    assert_eq!(loser.losses, 1);
    assert_eq!(loser.wins, 0);
    assert_eq!(loser.total_won, 0);
    assert_eq!(loser.total_wagered, 1000);
    assert_eq!(loser.matches_played, 1);
    assert_eq!(arena.total_matches, 1);
    assert_eq!(arena.fee_balance, fee);
}

#[test]
fn settle_requires_a_settled_match() {
    let mut arena = initialize(OWNER);
    let mut winner = register_player(&mut arena, ALICE);
    let mut loser = register_player(&mut arena, BOB);
    let mut m = create_rps_match(ALICE, 1000, 77).unwrap();
    join_rps_match(&mut m, BOB).unwrap();
    assert_eq!(
        settle_rps(&m, &mut arena, &mut winner, &mut loser).unwrap_err(),
        ArenaError::NotSettled
    );
    assert_eq!(arena.total_matches, 0);
    assert_eq!(winner.matches_played, 0);
}

#[test]
fn settle_coin_flip_pays_the_derived_winner() {
    let secret_a = [0x11u8; 32];
    let secret_b = [0x22u8; 32];
    let mut flip = create_coin_flip(ALICE, 1000, flip_commitment(&secret_a), 77).unwrap();
    join_coin_flip(&mut flip, BOB, flip_commitment(&secret_b)).unwrap();
    reveal_flip_secret(&mut flip, ALICE, secret_a).unwrap();
    reveal_flip_secret(&mut flip, BOB, secret_b).unwrap();
    assert!(flip.settled);

    let mut arena = initialize(OWNER);
    let mut winner_stats: PlayerStats;
    let mut loser_stats: PlayerStats;
    if flip.result_heads {
        winner_stats = register_player(&mut arena, ALICE);
        loser_stats = register_player(&mut arena, BOB);
    } else {
        winner_stats = register_player(&mut arena, BOB);
        loser_stats = register_player(&mut arena, ALICE);
    }
    let (w, l, payout, fee) =
        settle_coin_flip(&flip, &mut arena, &mut winner_stats, &mut loser_stats).unwrap();
    if flip.result_heads {
        assert_eq!(w, ALICE);
        assert_eq!(l, BOB);
    } else {
        assert_eq!(w, BOB);
        assert_eq!(l, ALICE);
    }
    assert_eq!(payout + fee, 2000);
    assert_eq!(winner_stats.wins, 1);
    assert_eq!(loser_stats.losses, 1);
    assert_eq!(arena.fee_balance, fee);
}
