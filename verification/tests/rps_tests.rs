//! Tests of the best-of-three choice-game state machine.

use sol_arena::commitment::choice_commitment;
use sol_arena::errors::ArenaError;
use sol_arena::round::resolve_round;
use sol_arena::round::RoundOutcome;
use sol_arena::rps::commit_choice;
use sol_arena::rps::create_rps_match;
use sol_arena::rps::join_rps_match;
use sol_arena::rps::reveal_choice;
use sol_arena::rps::MatchPhase;
use sol_arena::rps::RpsMatch;

const ALICE: [u8; 32] = [1u8; 32];
const BOB: [u8; 32] = [2u8; 32];
const CAROL: [u8; 32] = [3u8; 32];

fn fresh_match() -> RpsMatch {
    let mut m = create_rps_match(ALICE, 1000, 77).unwrap();
    join_rps_match(&mut m, BOB).unwrap();
    m
}

/// Both sides commit and reveal the given choices for the current round.
fn play_round(m: &mut RpsMatch, choice_a: u8, choice_b: u8) {
    let salt_a = [10u8; 32];
    let salt_b = [20u8; 32];
    commit_choice(m, ALICE, choice_commitment(choice_a, &salt_a)).unwrap();
    commit_choice(m, BOB, choice_commitment(choice_b, &salt_b)).unwrap();
    reveal_choice(m, ALICE, choice_a, salt_a).unwrap();
    reveal_choice(m, BOB, choice_b, salt_b).unwrap();
}

#[test]
fn round_resolver_table() {
    // Cyclic dominance: 1 beats 3, 2 beats 1, 3 beats 2.
    assert_eq!(resolve_round(1, 3), RoundOutcome::AWins);
    assert_eq!(resolve_round(2, 1), RoundOutcome::AWins);
    assert_eq!(resolve_round(3, 2), RoundOutcome::AWins);
    assert_eq!(resolve_round(3, 1), RoundOutcome::BWins);
    assert_eq!(resolve_round(1, 2), RoundOutcome::BWins);
    assert_eq!(resolve_round(2, 3), RoundOutcome::BWins);
    assert_eq!(resolve_round(1, 1), RoundOutcome::Draw);
    assert_eq!(resolve_round(2, 2), RoundOutcome::Draw);
    assert_eq!(resolve_round(3, 3), RoundOutcome::Draw);
}

#[test]
fn create_rejects_zero_wager() {
    assert_eq!(create_rps_match(ALICE, 0, 77).unwrap_err(), ArenaError::ZeroWager);
}

#[test]
fn create_initializes_open_match() {
    let m = create_rps_match(ALICE, 500, 77).unwrap();
    assert_eq!(m.player_a, ALICE);
    assert_eq!(m.player_b, [0u8; 32]);
    assert_eq!(m.wager, 500);
    assert_eq!(m.phase, MatchPhase::Open);
    assert_eq!(m.score_a, 0);
    assert_eq!(m.score_b, 0);
    assert_eq!(m.current_round, 0);
    assert!(!m.settled);
    assert_eq!(m.created_at, 77);
    assert_eq!(m.commits_a, [[0u8; 32]; 3]);
    assert_eq!(m.commits_b, [[0u8; 32]; 3]);
    assert_eq!(m.choices_a, [0u8; 3]);
    assert_eq!(m.choices_b, [0u8; 3]);
}

#[test]
fn join_rejects_self_and_non_open() {
    let mut m = create_rps_match(ALICE, 500, 77).unwrap();
    assert_eq!(join_rps_match(&mut m, ALICE).unwrap_err(), ArenaError::CantPlaySelf);
    join_rps_match(&mut m, BOB).unwrap();
    assert_eq!(m.player_b, BOB);
    assert_eq!(m.phase, MatchPhase::Committing);
    assert_eq!(join_rps_match(&mut m, CAROL).unwrap_err(), ArenaError::NotOpen);
}

#[test]
fn commit_rejects_outsider() {
    let mut m = fresh_match();
    let digest = choice_commitment(1, &[0u8; 32]);
    assert_eq!(commit_choice(&mut m, CAROL, digest).unwrap_err(), ArenaError::NotPlayer);
}

#[test]
fn second_commit_for_same_slot_rejected_without_mutation() {
    let mut m = fresh_match();
    let first = choice_commitment(1, &[10u8; 32]);
    let second = choice_commitment(3, &[11u8; 32]);
    commit_choice(&mut m, ALICE, first).unwrap();
    let before_commits = m.commits_a;
    let before_choices = m.choices_a;
    let before_round = m.current_round;
    assert_eq!(commit_choice(&mut m, ALICE, second).unwrap_err(), ArenaError::AlreadyCommitted);
    assert_eq!(m.commits_a, before_commits);
    assert_eq!(m.choices_a, before_choices);
    assert_eq!(m.current_round, before_round);
    assert_eq!(m.commits_a[0], first);
}

#[test]
fn reveal_rejects_bad_inputs() {
    let mut m = fresh_match();
    let salt = [10u8; 32];
    commit_choice(&mut m, ALICE, choice_commitment(1, &salt)).unwrap();

    assert_eq!(reveal_choice(&mut m, ALICE, 0, salt).unwrap_err(), ArenaError::InvalidChoice);
    assert_eq!(reveal_choice(&mut m, ALICE, 4, salt).unwrap_err(), ArenaError::InvalidChoice);
    assert_eq!(reveal_choice(&mut m, CAROL, 1, salt).unwrap_err(), ArenaError::NotPlayer);
    // Wrong salt: the recomputed digest differs from the commitment.
    assert_eq!(
        reveal_choice(&mut m, ALICE, 1, [9u8; 32]).unwrap_err(),
        ArenaError::CommitmentMismatch
    );
    // Wrong choice under the right salt is a mismatch as well.
    assert_eq!(reveal_choice(&mut m, ALICE, 2, salt).unwrap_err(), ArenaError::CommitmentMismatch);

    reveal_choice(&mut m, ALICE, 1, salt).unwrap();
    assert_eq!(reveal_choice(&mut m, ALICE, 1, salt).unwrap_err(), ArenaError::AlreadyRevealed);
}

#[test]
fn decisive_round_scores_and_advances() {
    let mut m = fresh_match();
    // Rock beats scissors: side A takes the round.
    play_round(&mut m, 1, 3);
    assert_eq!(m.score_a, 1);
    assert_eq!(m.score_b, 0);
    assert_eq!(m.current_round, 1);
    assert!(!m.settled);
}

#[test]
fn drawn_round_replays_with_slots_reset() {
    let mut m = fresh_match();
    play_round(&mut m, 2, 2);
    // Round index and scores unchanged, both slots back to the sentinel.
    assert_eq!(m.current_round, 0);
    assert_eq!(m.score_a, 0);
    assert_eq!(m.score_b, 0);
    assert_eq!(m.commits_a[0], [0u8; 32]);
    assert_eq!(m.commits_b[0], [0u8; 32]);
    assert_eq!(m.choices_a[0], 0);
    assert_eq!(m.choices_b[0], 0);
    assert!(!m.settled);
    // The round can be played again from scratch.
    play_round(&mut m, 3, 2);
    assert_eq!(m.score_a, 1);
    assert_eq!(m.current_round, 1);
}

#[test]
fn best_of_three_settles_at_two_wins() {
    let mut m = fresh_match();
    play_round(&mut m, 1, 3);
    play_round(&mut m, 2, 1);
    assert_eq!(m.score_a, 2);
    assert_eq!(m.score_b, 0);
    assert_eq!(m.current_round, 2);
    assert!(m.settled);
    assert_eq!(m.phase, MatchPhase::Finished);
    // No further play is accepted.
    let digest = choice_commitment(1, &[10u8; 32]);
    assert_eq!(commit_choice(&mut m, ALICE, digest).unwrap_err(), ArenaError::AlreadySettled);
    assert_eq!(
        reveal_choice(&mut m, ALICE, 1, [10u8; 32]).unwrap_err(),
        ArenaError::AlreadySettled
    );
}

#[test]
fn split_rounds_go_to_a_third() {
    let mut m = fresh_match();
    play_round(&mut m, 1, 3);
    play_round(&mut m, 1, 2);
    assert_eq!(m.score_a, 1);
    assert_eq!(m.score_b, 1);
    assert!(!m.settled);
    play_round(&mut m, 3, 2);
    assert_eq!(m.score_a, 2);
    assert_eq!(m.score_b, 1);
    assert!(m.settled);
}

#[test]
fn out_of_range_round_rejected() {
    // A record whose round index has run past the last round rejects commits
    // and reveals outright.
    let mut m = fresh_match();
    m.current_round = 3;
    let digest = choice_commitment(1, &[10u8; 32]);
    assert_eq!(commit_choice(&mut m, ALICE, digest).unwrap_err(), ArenaError::InvalidRound);
    assert_eq!(reveal_choice(&mut m, ALICE, 1, [10u8; 32]).unwrap_err(), ArenaError::InvalidRound);
}
